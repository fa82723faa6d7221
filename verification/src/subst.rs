//! Lifetime substitution in a token stream.
//!
//! The wrapper's storage field names the wrapper type itself; the lifetime
//! parameters that occur there are replaced by the unbounded lifetime, so
//! the layout queries are made at a type that does not depend on
//! caller-supplied lifetimes. A lifetime is an apostrophe immediately
//! followed by an identifier; only identifiers from the given list are
//! replaced, and groups are entered with the apostrophe state reset.

use vstd::prelude::*;

use crate::tokens::{
    lemma_toks_view_index, lemma_toks_view_len, tok_is_punct, tok_view, tokv_is_punct, toks_view,
    Tok, TokV,
};

verus! {

broadcast use lemma_toks_view_len, lemma_toks_view_index;

/// The values of a list of names.
pub open spec fn names_view(s: Seq<String>) -> Seq<Seq<char>> {
    s.map_values(|x: String| x@)
}

/// One token after substitution: an identifier is replaced by `static` when
/// an apostrophe preceded it and its name is in the list; a group is
/// rewritten inside with the apostrophe state cleared; everything else is
/// kept.
pub open spec fn subst_tok(lts: Seq<Seq<char>>, t: TokV, apos: bool) -> TokV
    decreases t,
{
    match t {
        TokV::Ident(n) => if apos && lts.contains(n) {
            TokV::Ident("static"@)
        } else {
            TokV::Ident(n)
        },
        TokV::Punct(c, j) => TokV::Punct(c, j),
        TokV::Lit(s) => TokV::Lit(s),
        TokV::Group(d, inner) => TokV::Group(d, subst_seq(lts, inner, false)),
    }
}

/// A run of tokens after substitution, `apos` telling whether an apostrophe
/// immediately preceded the first token.
pub open spec fn subst_seq(lts: Seq<Seq<char>>, s: Seq<TokV>, apos: bool) -> Seq<TokV>
    decreases s,
{
    if s.len() == 0 {
        Seq::empty()
    } else {
        seq![subst_tok(lts, s[0], apos)] + subst_seq(
            lts,
            s.drop_first(),
            tokv_is_punct(s[0], '\''),
        )
    }
}

/// Whether `name` occurs in the list.
fn contains_name(lts: &Vec<String>, name: &String) -> (r: bool)
    ensures
        r == names_view(lts@).contains(name@),
{
    let mut i: usize = 0;
    while i < lts.len()
        invariant
            0 <= i <= lts@.len(),
            forall|j: int| 0 <= j < i ==> #[trigger] lts@[j]@ != name@,
        decreases lts@.len() - i,
    {
        if lts[i].eq(name) {
            proof {
                assert(names_view(lts@)[i as int] == name@);
            }
            return true;
        }
        i += 1;
    }
    proof {
        assert forall|j: int| 0 <= j < names_view(lts@).len() implies #[trigger] names_view(lts@)[j]
            != name@ by {
            assert(names_view(lts@)[j] == lts@[j]@);
        }
    }
    false
}

/// One token with the named lifetimes replaced by the unbounded one.
fn subst_tok_exec(lts: &Vec<String>, t: &Tok, apos: bool) -> (r: Tok)
    ensures
        tok_view(r) == subst_tok(names_view(lts@), tok_view(*t), apos),
    decreases *t,
{
    match t {
        Tok::Ident(s) => {
            if apos && contains_name(lts, s) {
                Tok::Ident("static".to_owned())
            } else {
                Tok::Ident(s.clone())
            }
        },
        Tok::Punct(c, j) => Tok::Punct(*c, *j),
        Tok::Lit(s) => Tok::Lit(s.clone()),
        Tok::Group(d, inner) => {
            proof {
                assert(decreases_to!(*t => t->Group_1));
            }
            let ghost iv = toks_view(inner@);
            let mut out: Vec<Tok> = Vec::new();
            let mut ap: bool = false;
            let mut k: usize = 0;
            proof {
                assert(iv.subrange(0, iv.len() as int) =~= iv);
                assert(toks_view(out@) =~= Seq::<TokV>::empty());
                assert(Seq::<TokV>::empty() + subst_seq(names_view(lts@), iv, false) =~= subst_seq(
                    names_view(lts@),
                    iv,
                    false,
                ));
            }
            while k < inner.len()
                invariant
                    decreases_to!(*t => inner@),
                    0 <= k <= inner@.len(),
                    iv == toks_view(inner@),
                    subst_seq(names_view(lts@), iv, false) == toks_view(out@) + subst_seq(
                        names_view(lts@),
                        iv.subrange(k as int, iv.len() as int),
                        ap,
                    ),
                decreases inner@.len() - k,
            {
                proof {
                    assert(decreases_to!(inner@ => inner@[k as int]));
                }
                let piece = subst_tok_exec(lts, &inner[k], ap);
                let ghost out0 = out@;
                let ghost rest = iv.subrange(k as int, iv.len() as int);
                ap = tok_is_punct(&inner[k], '\'');
                out.push(piece);
                proof {
                    assert(rest[0] == iv[k as int]);
                    assert(rest.drop_first() =~= iv.subrange(k as int + 1, iv.len() as int));
                    assert(toks_view(out@) =~= toks_view(out0) + seq![tok_view(piece)]);
                    assert((toks_view(out0) + seq![tok_view(piece)]) + subst_seq(
                        names_view(lts@),
                        iv.subrange(k as int + 1, iv.len() as int),
                        tokv_is_punct(iv[k as int], '\''),
                    ) =~= toks_view(out0) + (seq![tok_view(piece)] + subst_seq(
                        names_view(lts@),
                        iv.subrange(k as int + 1, iv.len() as int),
                        tokv_is_punct(iv[k as int], '\''),
                    )));
                }
                k += 1;
            }
            proof {
                assert(iv.subrange(k as int, iv.len() as int) =~= Seq::<TokV>::empty());
                assert(subst_seq(names_view(lts@), iv, false) =~= toks_view(out@));
            }
            Tok::Group(*d, out)
        },
    }
}

/// The stream with every lifetime from the list replaced by the unbounded
/// one, groups included.
pub fn lifetimes_to_static(lts: &Vec<String>, stream: &Vec<Tok>) -> (r: Vec<Tok>)
    ensures
        toks_view(r@) == subst_seq(names_view(lts@), toks_view(stream@), false),
{
    let ghost sv = toks_view(stream@);
    let mut out: Vec<Tok> = Vec::new();
    let mut ap: bool = false;
    let mut k: usize = 0;
    proof {
        assert(sv.subrange(0, sv.len() as int) =~= sv);
        assert(toks_view(out@) =~= Seq::<TokV>::empty());
        assert(Seq::<TokV>::empty() + subst_seq(names_view(lts@), sv, false) =~= subst_seq(
            names_view(lts@),
            sv,
            false,
        ));
    }
    while k < stream.len()
        invariant
            0 <= k <= stream@.len(),
            sv == toks_view(stream@),
            subst_seq(names_view(lts@), sv, false) == toks_view(out@) + subst_seq(
                names_view(lts@),
                sv.subrange(k as int, sv.len() as int),
                ap,
            ),
        decreases stream@.len() - k,
    {
        let piece = subst_tok_exec(lts, &stream[k], ap);
        let ghost out0 = out@;
        let ghost rest = sv.subrange(k as int, sv.len() as int);
        ap = tok_is_punct(&stream[k], '\'');
        out.push(piece);
        proof {
            assert(rest[0] == sv[k as int]);
            assert(rest.drop_first() =~= sv.subrange(k as int + 1, sv.len() as int));
            assert(toks_view(out@) =~= toks_view(out0) + seq![tok_view(piece)]);
            assert((toks_view(out0) + seq![tok_view(piece)]) + subst_seq(
                names_view(lts@),
                sv.subrange(k as int + 1, sv.len() as int),
                tokv_is_punct(sv[k as int], '\''),
            ) =~= toks_view(out0) + (seq![tok_view(piece)] + subst_seq(
                names_view(lts@),
                sv.subrange(k as int + 1, sv.len() as int),
                tokv_is_punct(sv[k as int], '\''),
            )));
        }
        k += 1;
    }
    proof {
        assert(sv.subrange(k as int, sv.len() as int) =~= Seq::<TokV>::empty());
        assert(subst_seq(names_view(lts@), sv, false) =~= toks_view(out@));
    }
    out
}

} // verus!
