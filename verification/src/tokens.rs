//! The token model of the analyzer and synthesizer.
//!
//! A source declaration reaches the library as a tree of plain tokens:
//! identifiers, punctuation, literals and delimited groups. Runs of tokens
//! that the transformation never inspects (types, bounds, the function body)
//! are carried through as opaque `Vec<Tok>` values.

use vstd::prelude::*;

verus! {

broadcast use vstd::std_specs::vec::group_vec_axioms;

/// The delimiter of a token group.
#[derive(Clone, Copy, Debug, PartialEq, Eq, Structural)]
pub enum Delim {
    Paren,
    Brace,
    Bracket,
    Invisible,
}

/// One token tree: an identifier, a punctuation character (with its joint
/// flag, true when it is glued to the next punctuation), a literal, or a
/// delimited group of further tokens.
#[derive(Debug, PartialEq, Eq)]
pub enum Tok {
    Ident(String),
    Punct(char, bool),
    Lit(String),
    Group(Delim, Vec<Tok>),
}

/// The mathematical value of a token: strings become character sequences.
#[verifier::ext_equal]
pub enum TokV {
    Ident(Seq<char>),
    Punct(char, bool),
    Lit(Seq<char>),
    Group(Delim, Seq<TokV>),
}

/// The value of one token.
pub open spec fn tok_view(t: Tok) -> TokV
    decreases t,
{
    match t {
        Tok::Ident(s) => TokV::Ident(s@),
        Tok::Punct(c, j) => TokV::Punct(c, j),
        Tok::Lit(s) => TokV::Lit(s@),
        Tok::Group(d, inner) => TokV::Group(d, toks_view(inner@)),
    }
}

/// The value of a run of tokens.
pub open spec fn toks_view(s: Seq<Tok>) -> Seq<TokV>
    decreases s,
{
    if s.len() == 0 {
        Seq::empty()
    } else {
        seq![tok_view(s[0])] + toks_view(s.drop_first())
    }
}

/// The value of a run has one entry per token.
pub broadcast proof fn lemma_toks_view_len(s: Seq<Tok>)
    ensures
        (#[trigger] toks_view(s)).len() == s.len(),
    decreases s,
{
    if s.len() > 0 {
        lemma_toks_view_len(s.drop_first());
    }
}

/// The value of a run is pointwise the value of its tokens.
pub broadcast proof fn lemma_toks_view_index(s: Seq<Tok>, i: int)
    requires
        0 <= i < s.len(),
    ensures
        #[trigger] toks_view(s)[i] == tok_view(s[i]),
    decreases s,
{
    lemma_toks_view_len(s);
    if i > 0 {
        lemma_toks_view_index(s.drop_first(), i - 1);
    }
}

/// Whether a token value is the given punctuation character, joint or not.
pub open spec fn tokv_is_punct(t: TokV, c: char) -> bool {
    match t {
        TokV::Punct(c2, _) => c2 == c,
        _ => false,
    }
}

/// Whether a token value is the given identifier.
pub open spec fn tokv_is_ident(t: TokV, s: Seq<char>) -> bool {
    match t {
        TokV::Ident(n) => n == s,
        _ => false,
    }
}

/// A copy of one token, equal in value to the original.
pub fn clone_tok(t: &Tok) -> (r: Tok)
    ensures
        tok_view(r) == tok_view(*t),
    decreases *t,
{
    match t {
        Tok::Ident(s) => Tok::Ident(s.clone()),
        Tok::Punct(c, j) => Tok::Punct(*c, *j),
        Tok::Lit(s) => Tok::Lit(s.clone()),
        Tok::Group(d, inner) => {
            proof {
                assert(decreases_to!(*t => t->Group_1));
                assert(t->Group_1 == *inner);
            }
            let mut out: Vec<Tok> = Vec::new();
            let mut i: usize = 0;
            while i < inner.len()
                invariant
                    decreases_to!(*t => inner@),
                    i <= inner.len(),
                    out@.len() == i as int,
                    forall|k: int|
                        0 <= k < i ==> tok_view(#[trigger] out@[k]) == tok_view(inner@[k]),
                decreases inner.len() - i,
            {
                proof {
                    assert(decreases_to!(inner@ => inner@[i as int]));
                }
                out.push(clone_tok(&inner[i]));
                i += 1;
            }
            proof {
                broadcast use lemma_toks_view_len, lemma_toks_view_index;

                assert(toks_view(out@) =~= toks_view(inner@));
            }
            Tok::Group(*d, out)
        },
    }
}

/// Whether this token is the given punctuation character, joint or not.
pub fn tok_is_punct(t: &Tok, c: char) -> (r: bool)
    ensures
        r == tokv_is_punct(tok_view(*t), c),
{
    match t {
        Tok::Punct(c2, _) => *c2 == c,
        _ => false,
    }
}

/// Whether this token is the given identifier.
pub fn tok_ident_is(t: &Tok, kw: &str) -> (r: bool)
    ensures
        r == tokv_is_ident(tok_view(*t), kw@),
{
    match t {
        Tok::Ident(s) => crate::text::str_eq_string(s, kw),
        _ => false,
    }
}

/// A copy of the tokens at indices `from..to`, equal in value to that part
/// of the original run.
pub fn clone_tok_range(v: &Vec<Tok>, from: usize, to: usize) -> (r: Vec<Tok>)
    requires
        from <= to <= v@.len(),
    ensures
        toks_view(r@) == toks_view(v@).subrange(from as int, to as int),
{
    let mut out: Vec<Tok> = Vec::new();
    let mut i: usize = from;
    while i < to
        invariant
            from <= i <= to <= v@.len(),
            out@.len() == i - from,
            forall|k: int|
                0 <= k < i - from ==> tok_view(#[trigger] out@[k]) == tok_view(v@[from + k]),
        decreases to - i,
    {
        out.push(clone_tok(&v[i]));
        i += 1;
    }
    proof {
        broadcast use lemma_toks_view_len, lemma_toks_view_index;

        assert(toks_view(out@) =~= toks_view(v@).subrange(from as int, to as int));
    }
    out
}

/// A copy of a run of tokens, equal in value to the original.
pub fn clone_toks(v: &Vec<Tok>) -> (r: Vec<Tok>)
    ensures
        toks_view(r@) == toks_view(v@),
{
    let mut out: Vec<Tok> = Vec::new();
    let mut i: usize = 0;
    while i < v.len()
        invariant
            i <= v.len(),
            out@.len() == i as int,
            forall|k: int| 0 <= k < i ==> tok_view(#[trigger] out@[k]) == tok_view(v@[k]),
        decreases v.len() - i,
    {
        out.push(clone_tok(&v[i]));
        i += 1;
    }
    proof {
        broadcast use lemma_toks_view_len, lemma_toks_view_index;

        assert(toks_view(out@) =~= toks_view(v@));
    }
    out
}

} // verus!
