//! The wrapper synthesizer.
//!
//! From the parsed configuration and the analyzed function this module
//! derives, as plain data, everything the emitted artifacts share: the split
//! of the outer attributes, the wrapper's name and visibility, the argument
//! tuple (patterns with mutability demoted, types in declared order), the
//! zero-sized generic-parameter marker, the type at which the layout queries
//! are made, and the capability markers to assert and grant.

use vstd::prelude::*;

use crate::ast::{
    attr_view, attrs_view, find_attrs_split, generic_param_view, generic_params_view,
    generics_view, lemma_split_at_is, param_view, params_view, pat_view, spec_attrs_split,
    vis_view, Attr, AttrV, Func, GenericParam, GenericParamV, Generics, Param, ParamV, Pat, PatV,
    Vis,
};
use crate::error::BuildError;
use crate::tokens::{clone_toks, toks_view, Delim, Tok, TokV};

verus! {

broadcast use crate::tokens::lemma_toks_view_len, crate::tokens::lemma_toks_view_index;

/// The attributes that stay on the public function: those before the
/// sentinel, or all of them when there is no sentinel.
pub open spec fn spec_func_attrs(attrs: Seq<AttrV>, split: Option<int>) -> Seq<AttrV> {
    match split {
        Some(i) => attrs.subrange(0, i),
        None => attrs,
    }
}

/// The attributes that move to the wrapper type: those after the sentinel,
/// the sentinel itself dropped; none when there is no sentinel.
pub open spec fn spec_struct_attrs(attrs: Seq<AttrV>, split: Option<int>) -> Seq<AttrV> {
    match split {
        Some(i) => attrs.subrange(i + 1, attrs.len() as int),
        None => Seq::empty(),
    }
}

/// Split the outer attributes at the sentinel line, dropping the sentinel.
pub fn split_attrs(attrs: Vec<Attr>) -> (r: (Vec<Attr>, Vec<Attr>))
    ensures
        attrs_view(r.0@) == spec_func_attrs(attrs_view(attrs@), spec_attrs_split(attrs_view(attrs@))),
        attrs_view(r.1@) == spec_struct_attrs(
            attrs_view(attrs@),
            spec_attrs_split(attrs_view(attrs@)),
        ),
{
    let ghost av = attrs_view(attrs@);
    let ghost attrs0 = attrs@;
    let cut = find_attrs_split(&attrs);
    proof {
        assert forall|j: int| 0 <= j < attrs0.len() implies attrs_view(attrs0)[j] == attr_view(
            #[trigger] attrs0[j],
        ) by {}
        match cut {
            Some(c) => lemma_split_at_is(av, 0, Some(c as int)),
            None => lemma_split_at_is(av, 0, None),
        }
    }
    match cut {
        None => {
            let second: Vec<Attr> = Vec::new();
            proof {
                assert(attrs_view(second@) =~= Seq::<AttrV>::empty());
            }
            (attrs, second)
        },
        Some(c) => {
            let mut rest = attrs;
            let mut first: Vec<Attr> = Vec::new();
            let mut second: Vec<Attr> = Vec::new();
            let mut i: usize = 0;
            let n: usize = rest.len();
            while i < n
                invariant
                    0 <= i <= n,
                    n == attrs0.len(),
                    c < n,
                    rest@ =~= attrs0.subrange(i as int, n as int),
                    first@ =~= attrs0.subrange(0, if i < c {
                        i as int
                    } else {
                        c as int
                    }),
                    second@ =~= if i > c {
                        attrs0.subrange(c as int + 1, i as int)
                    } else {
                        Seq::<Attr>::empty()
                    },
                decreases n - i,
            {
                let a = rest.remove(0);
                if i < c {
                    first.push(a);
                } else if i > c {
                    second.push(a);
                }
                i += 1;
            }
            proof {
                assert(first@ =~= attrs0.subrange(0, c as int));
                assert(second@ =~= attrs0.subrange(c as int + 1, n as int));
                assert(attrs_view(first@) =~= av.subrange(0, c as int));
                assert(attrs_view(second@) =~= av.subrange(c as int + 1, av.len() as int));
            }
            (first, second)
        },
    }
}

/// A pattern with its top-level mutability removed; any other pattern is
/// kept as it is.
pub open spec fn spec_demote(p: PatV) -> PatV {
    match p {
        PatV::Ident { by_ref, mutable, name } => PatV::Ident { by_ref, mutable: false, name },
        PatV::Other(t) => PatV::Other(t),
    }
}

/// The values of a list of patterns.
pub open spec fn pats_view(s: Seq<Pat>) -> Seq<PatV> {
    s.map_values(|p: Pat| pat_view(p))
}

/// The values of a list of opaque types.
pub open spec fn tys_view(s: Seq<Vec<Tok>>) -> Seq<Seq<TokV>> {
    s.map_values(|v: Vec<Tok>| toks_view(v@))
}

/// A copy of a pattern with its top-level mutability removed.
fn demote_pat(p: &Pat) -> (r: Pat)
    ensures
        pat_view(r) == spec_demote(pat_view(*p)),
{
    match p {
        Pat::Ident { by_ref, mutable: _, name } => Pat::Ident {
            by_ref: *by_ref,
            mutable: false,
            name: name.clone(),
        },
        Pat::Other(toks) => Pat::Other(clone_toks(toks)),
    }
}

/// A copy of a visibility, equal in value to the original.
pub fn clone_vis(v: &Vis) -> (r: Vis)
    ensures
        vis_view(r) == vis_view(*v),
{
    match v {
        Vis::Inherited => Vis::Inherited,
        Vis::Pub => Vis::Pub,
        Vis::Restricted(toks) => Vis::Restricted(clone_toks(toks)),
    }
}

/// The patterns of the argument tuple, in declared order, each demoted of
/// mutability; or the index of the first receiver parameter, which the
/// erasure scheme rejects.
pub fn arg_pats(inputs: &Vec<Param>) -> (r: Result<Vec<Pat>, BuildError>)
    ensures
        match r {
            Ok(v) => {
                &&& forall|i: int|
                    0 <= i < inputs@.len() ==> #[trigger] params_view(inputs@)[i] is Typed
                &&& pats_view(v@).len() == inputs@.len()
                &&& forall|i: int|
                    0 <= i < inputs@.len() ==> #[trigger] pats_view(v@)[i] == spec_demote(
                        params_view(inputs@)[i]->Typed_0,
                    )
            },
            Err(e) => {
                &&& e matches BuildError::SelfParam { param }
                &&& param < inputs@.len()
                &&& params_view(inputs@)[param as int] is Receiver
                &&& forall|j: int|
                    0 <= j < param ==> #[trigger] params_view(inputs@)[j] is Typed
            },
        },
{
    let mut out: Vec<Pat> = Vec::new();
    let mut i: usize = 0;
    while i < inputs.len()
        invariant
            0 <= i <= inputs@.len(),
            out@.len() == i as int,
            forall|j: int| 0 <= j < i ==> #[trigger] params_view(inputs@)[j] is Typed,
            forall|j: int|
                0 <= j < i ==> #[trigger] pats_view(out@)[j] == spec_demote(
                    params_view(inputs@)[j]->Typed_0,
                ),
        decreases inputs@.len() - i,
    {
        let ghost prior = out@;
        match &inputs[i] {
            Param::Receiver => {
                return Err(BuildError::SelfParam { param: i });
            },
            Param::Typed(p, _) => {
                out.push(demote_pat(p));
            },
        }
        proof {
            assert forall|j: int| 0 <= j < i + 1 implies #[trigger] pats_view(out@)[j]
                == spec_demote(params_view(inputs@)[j]->Typed_0) by {
                assert(pats_view(out@)[j] == pat_view(out@[j]));
                if j < i {
                    assert(pats_view(prior)[j] == pat_view(prior[j]));
                } else {
                    assert(params_view(inputs@)[j] == param_view(inputs@[j]));
                }
            }
        }
        i += 1;
    }
    Ok(out)
}

/// The types of the argument tuple, in declared order; or the index of the
/// first receiver parameter.
pub fn arg_types(inputs: &Vec<Param>) -> (r: Result<Vec<Vec<Tok>>, BuildError>)
    ensures
        match r {
            Ok(v) => {
                &&& forall|i: int|
                    0 <= i < inputs@.len() ==> #[trigger] params_view(inputs@)[i] is Typed
                &&& tys_view(v@).len() == inputs@.len()
                &&& forall|i: int|
                    0 <= i < inputs@.len() ==> #[trigger] tys_view(v@)[i] == params_view(
                        inputs@,
                    )[i]->Typed_1
            },
            Err(e) => {
                &&& e matches BuildError::SelfParam { param }
                &&& param < inputs@.len()
                &&& params_view(inputs@)[param as int] is Receiver
                &&& forall|j: int|
                    0 <= j < param ==> #[trigger] params_view(inputs@)[j] is Typed
            },
        },
{
    let mut out: Vec<Vec<Tok>> = Vec::new();
    let mut i: usize = 0;
    while i < inputs.len()
        invariant
            0 <= i <= inputs@.len(),
            out@.len() == i as int,
            forall|j: int| 0 <= j < i ==> #[trigger] params_view(inputs@)[j] is Typed,
            forall|j: int|
                0 <= j < i ==> #[trigger] tys_view(out@)[j] == params_view(inputs@)[j]->Typed_1,
        decreases inputs@.len() - i,
    {
        let ghost prior = out@;
        match &inputs[i] {
            Param::Receiver => {
                return Err(BuildError::SelfParam { param: i });
            },
            Param::Typed(_, ty) => {
                out.push(clone_toks(ty));
            },
        }
        proof {
            assert forall|j: int| 0 <= j < i + 1 implies #[trigger] tys_view(out@)[j]
                == params_view(inputs@)[j]->Typed_1 by {
                assert(tys_view(out@)[j] == toks_view(out@[j]@));
                if j < i {
                    assert(tys_view(prior)[j] == toks_view(prior[j]@));
                } else {
                    assert(params_view(inputs@)[j] == param_view(inputs@[j]));
                }
            }
        }
        i += 1;
    }
    Ok(out)
}

/// The zero-sized marker that remembers the generic parameters of the
/// original function: one entry per type parameter and one per lifetime,
/// each in declared order.
#[derive(Debug, PartialEq, Eq)]
pub struct PhantomTy {
    pub type_params: Vec<String>,
    pub lifetimes: Vec<String>,
}

/// The value of the marker.
pub struct PhantomTyV {
    pub type_params: Seq<Seq<char>>,
    pub lifetimes: Seq<Seq<char>>,
}

pub open spec fn phantom_view(p: PhantomTy) -> PhantomTyV {
    PhantomTyV {
        type_params: crate::subst::names_view(p.type_params@),
        lifetimes: crate::subst::names_view(p.lifetimes@),
    }
}

/// The names of the type parameters, in declared order.
pub open spec fn spec_type_param_names(s: Seq<GenericParamV>) -> Seq<Seq<char>>
    decreases s,
{
    if s.len() == 0 {
        Seq::empty()
    } else {
        (match s[0] {
            GenericParamV::Type(n, _) => seq![n],
            _ => Seq::empty(),
        }) + spec_type_param_names(s.drop_first())
    }
}

/// The names of the lifetime parameters, in declared order.
pub open spec fn spec_lifetime_names(s: Seq<GenericParamV>) -> Seq<Seq<char>>
    decreases s,
{
    if s.len() == 0 {
        Seq::empty()
    } else {
        (match s[0] {
            GenericParamV::Lifetime(n, _) => seq![n],
            _ => Seq::empty(),
        }) + spec_lifetime_names(s.drop_first())
    }
}

/// The marker for the given generic parameters.
pub open spec fn spec_phantom(s: Seq<GenericParamV>) -> PhantomTyV {
    PhantomTyV { type_params: spec_type_param_names(s), lifetimes: spec_lifetime_names(s) }
}

/// The generic-parameter marker of the wrapper type.
pub fn phantom(g: &Generics) -> (r: PhantomTy)
    ensures
        phantom_view(r) == spec_phantom(generic_params_view(g.params@)),
{
    let ghost gv = generic_params_view(g.params@);
    let mut tps: Vec<String> = Vec::new();
    let mut lts: Vec<String> = Vec::new();
    let mut i: usize = 0;
    proof {
        assert(gv.subrange(0, gv.len() as int) =~= gv);
        assert(crate::subst::names_view(tps@) =~= Seq::<Seq<char>>::empty());
        assert(crate::subst::names_view(lts@) =~= Seq::<Seq<char>>::empty());
        assert(Seq::<Seq<char>>::empty() + spec_type_param_names(gv) =~= spec_type_param_names(
            gv,
        ));
        assert(Seq::<Seq<char>>::empty() + spec_lifetime_names(gv) =~= spec_lifetime_names(gv));
    }
    while i < g.params.len()
        invariant
            0 <= i <= g.params@.len(),
            gv == generic_params_view(g.params@),
            crate::subst::names_view(tps@) + spec_type_param_names(
                gv.subrange(i as int, gv.len() as int),
            ) == spec_type_param_names(gv),
            crate::subst::names_view(lts@) + spec_lifetime_names(
                gv.subrange(i as int, gv.len() as int),
            ) == spec_lifetime_names(gv),
        decreases g.params@.len() - i,
    {
        let ghost rest = gv.subrange(i as int, gv.len() as int);
        let ghost tps0 = tps@;
        let ghost lts0 = lts@;
        proof {
            assert(rest[0] == gv[i as int]);
            assert(gv[i as int] == generic_param_view(g.params@[i as int]));
            assert(rest.drop_first() =~= gv.subrange(i as int + 1, gv.len() as int));
        }
        match &g.params[i] {
            GenericParam::Lifetime(n, _) => {
                lts.push(n.clone());
            },
            GenericParam::Type(n, _) => {
                tps.push(n.clone());
            },
            GenericParam::Const(_, _) => {},
        }
        proof {
            assert(crate::subst::names_view(tps@) =~= crate::subst::names_view(tps0) + (match gv[i as int] {
                GenericParamV::Type(n, _) => seq![n],
                _ => Seq::<Seq<char>>::empty(),
            }));
            assert(crate::subst::names_view(lts@) =~= crate::subst::names_view(lts0) + (match gv[i as int] {
                GenericParamV::Lifetime(n, _) => seq![n],
                _ => Seq::<Seq<char>>::empty(),
            }));
            assert(crate::subst::names_view(tps@) + spec_type_param_names(
                gv.subrange(i as int + 1, gv.len() as int),
            ) =~= crate::subst::names_view(tps0) + spec_type_param_names(rest));
            assert(crate::subst::names_view(lts@) + spec_lifetime_names(
                gv.subrange(i as int + 1, gv.len() as int),
            ) =~= crate::subst::names_view(lts0) + spec_lifetime_names(rest));
        }
        i += 1;
    }
    proof {
        assert(gv.subrange(i as int, gv.len() as int) =~= Seq::<GenericParamV>::empty());
        assert(crate::subst::names_view(tps@) + Seq::<Seq<char>>::empty() =~= crate::subst::names_view(
            tps@,
        ));
        assert(crate::subst::names_view(lts@) + Seq::<Seq<char>>::empty() =~= crate::subst::names_view(
            lts@,
        ));
    }
    PhantomTy { type_params: tps, lifetimes: lts }
}

/// The tokens a generic parameter contributes between the angle brackets:
/// `'name` for a lifetime, the bare name otherwise.
pub open spec fn spec_param_chunk(p: GenericParamV) -> Seq<TokV> {
    match p {
        GenericParamV::Lifetime(n, _) => seq![TokV::Punct('\'', true), TokV::Ident(n)],
        GenericParamV::Type(n, _) => seq![TokV::Ident(n)],
        GenericParamV::Const(n, _) => seq![TokV::Ident(n)],
    }
}

/// The chunks of the parameters, comma-separated.
pub open spec fn spec_joined(s: Seq<GenericParamV>) -> Seq<TokV>
    decreases s,
{
    if s.len() == 0 {
        Seq::empty()
    } else {
        spec_param_chunk(s[0]) + spec_joined_tail(s.drop_first())
    }
}

/// The chunks after the first parameter, each preceded by a comma.
pub open spec fn spec_joined_tail(s: Seq<GenericParamV>) -> Seq<TokV>
    decreases s,
{
    if s.len() == 0 {
        Seq::empty()
    } else {
        seq![TokV::Punct(',', false)] + spec_param_chunk(s[0]) + spec_joined_tail(s.drop_first())
    }
}

/// The lifetime parameters, in declared order.
pub open spec fn spec_filter_lifetimes(s: Seq<GenericParamV>) -> Seq<GenericParamV>
    decreases s,
{
    if s.len() == 0 {
        Seq::empty()
    } else {
        (if s[0] is Lifetime {
            seq![s[0]]
        } else {
            Seq::empty()
        }) + spec_filter_lifetimes(s.drop_first())
    }
}

/// The type and const parameters, in declared order.
pub open spec fn spec_filter_others(s: Seq<GenericParamV>) -> Seq<GenericParamV>
    decreases s,
{
    if s.len() == 0 {
        Seq::empty()
    } else {
        (if s[0] is Lifetime {
            Seq::empty()
        } else {
            seq![s[0]]
        }) + spec_filter_others(s.drop_first())
    }
}

/// The parameters as they are printed between the angle brackets: lifetimes
/// first, then type and const parameters, each list in declared order.
pub open spec fn spec_ordered_params(s: Seq<GenericParamV>) -> Seq<GenericParamV> {
    spec_filter_lifetimes(s) + spec_filter_others(s)
}

/// The tokens of the generic-argument list the wrapper type is applied to:
/// nothing when there are no parameters, else the ordered names between
/// angle brackets, comma-separated, bounds and defaults left off.
pub open spec fn spec_ty_generics(s: Seq<GenericParamV>) -> Seq<TokV> {
    if s.len() == 0 {
        Seq::empty()
    } else {
        seq![TokV::Punct('<', false)] + spec_joined(spec_ordered_params(s)) + seq![
            TokV::Punct('>', false),
        ]
    }
}

/// A copy of a generic parameter, equal in value to the original.
fn clone_generic_param(p: &GenericParam) -> (r: GenericParam)
    ensures
        generic_param_view(r) == generic_param_view(*p),
{
    match p {
        GenericParam::Lifetime(n, t) => GenericParam::Lifetime(n.clone(), clone_toks(t)),
        GenericParam::Type(n, t) => GenericParam::Type(n.clone(), clone_toks(t)),
        GenericParam::Const(n, t) => GenericParam::Const(n.clone(), clone_toks(t)),
    }
}

/// The generic-argument tokens of the wrapper type.
pub fn ty_generics_tokens(g: &Generics) -> (r: Vec<Tok>)
    ensures
        toks_view(r@) == spec_ty_generics(generic_params_view(g.params@)),
{
    let ghost gv = generic_params_view(g.params@);
    if g.params.len() == 0 {
        let out: Vec<Tok> = Vec::new();
        proof {
            assert(toks_view(out@) =~= Seq::<TokV>::empty());
        }
        return out;
    }
    // the parameters, lifetimes first
    let mut ordered: Vec<GenericParam> = Vec::new();
    let mut i: usize = 0;
    proof {
        assert(gv.subrange(0, gv.len() as int) =~= gv);
        assert(generic_params_view(ordered@) =~= Seq::<GenericParamV>::empty());
        assert(Seq::<GenericParamV>::empty() + spec_filter_lifetimes(gv) =~= spec_filter_lifetimes(
            gv,
        ));
    }
    while i < g.params.len()
        invariant
            0 <= i <= g.params@.len(),
            gv == generic_params_view(g.params@),
            generic_params_view(ordered@) + spec_filter_lifetimes(
                gv.subrange(i as int, gv.len() as int),
            ) == spec_filter_lifetimes(gv),
        decreases g.params@.len() - i,
    {
        let ghost rest = gv.subrange(i as int, gv.len() as int);
        let ghost ord0 = ordered@;
        proof {
            assert(rest[0] == gv[i as int]);
            assert(gv[i as int] == generic_param_view(g.params@[i as int]));
            assert(rest.drop_first() =~= gv.subrange(i as int + 1, gv.len() as int));
        }
        match &g.params[i] {
            GenericParam::Lifetime(_, _) => {
                ordered.push(clone_generic_param(&g.params[i]));
            },
            _ => {},
        }
        proof {
            assert(generic_params_view(ordered@) =~= generic_params_view(ord0) + (if gv[i as int] is Lifetime {
                seq![gv[i as int]]
            } else {
                Seq::<GenericParamV>::empty()
            }));
            assert(generic_params_view(ordered@) + spec_filter_lifetimes(
                gv.subrange(i as int + 1, gv.len() as int),
            ) =~= generic_params_view(ord0) + spec_filter_lifetimes(rest));
        }
        i += 1;
    }
    proof {
        assert(gv.subrange(i as int, gv.len() as int) =~= Seq::<GenericParamV>::empty());
        assert(generic_params_view(ordered@) + Seq::<GenericParamV>::empty()
            =~= generic_params_view(ordered@));
        assert(generic_params_view(ordered@) == spec_filter_lifetimes(gv));
    }
    let ghost base = generic_params_view(ordered@);
    let mut k: usize = 0;
    proof {
        assert(base + spec_filter_others(gv.subrange(0, gv.len() as int)) =~= base
            + spec_filter_others(gv));
    }
    while k < g.params.len()
        invariant
            0 <= k <= g.params@.len(),
            gv == generic_params_view(g.params@),
            base == spec_filter_lifetimes(gv),
            generic_params_view(ordered@) + spec_filter_others(
                gv.subrange(k as int, gv.len() as int),
            ) == base + spec_filter_others(gv),
        decreases g.params@.len() - k,
    {
        let ghost rest = gv.subrange(k as int, gv.len() as int);
        let ghost ord0 = ordered@;
        proof {
            assert(rest[0] == gv[k as int]);
            assert(gv[k as int] == generic_param_view(g.params@[k as int]));
            assert(rest.drop_first() =~= gv.subrange(k as int + 1, gv.len() as int));
        }
        match &g.params[k] {
            GenericParam::Lifetime(_, _) => {},
            _ => {
                ordered.push(clone_generic_param(&g.params[k]));
            },
        }
        proof {
            assert(generic_params_view(ordered@) =~= generic_params_view(ord0) + (if gv[k as int] is Lifetime {
                Seq::<GenericParamV>::empty()
            } else {
                seq![gv[k as int]]
            }));
            assert(generic_params_view(ordered@) + spec_filter_others(
                gv.subrange(k as int + 1, gv.len() as int),
            ) =~= generic_params_view(ord0) + spec_filter_others(rest));
        }
        k += 1;
    }
    proof {
        assert(gv.subrange(k as int, gv.len() as int) =~= Seq::<GenericParamV>::empty());
        assert(generic_params_view(ordered@) + Seq::<GenericParamV>::empty()
            =~= generic_params_view(ordered@));
        assert(generic_params_view(ordered@) == spec_ordered_params(gv));
    }
    // the names between angle brackets
    let ghost ov = generic_params_view(ordered@);
    let mut out: Vec<Tok> = Vec::new();
    out.push(Tok::Punct('<', false));
    let mut m: usize = 0;
    proof {
        assert(toks_view(out@) =~= seq![TokV::Punct('<', false)]);
        assert(ov.subrange(0, ov.len() as int) =~= ov);
        assert(seq![TokV::Punct('<', false)] + spec_joined(ov) =~= toks_view(out@) + spec_joined(
            ov,
        ));
    }
    while m < ordered.len()
        invariant
            0 <= m <= ordered@.len(),
            ov == generic_params_view(ordered@),
            toks_view(out@) + (if m == 0 {
                spec_joined(ov)
            } else {
                spec_joined_tail(ov.subrange(m as int, ov.len() as int))
            }) == seq![TokV::Punct('<', false)] + spec_joined(ov),
        decreases ordered@.len() - m,
    {
        let ghost out0 = out@;
        let ghost rest = ov.subrange(m as int, ov.len() as int);
        proof {
            assert(rest[0] == ov[m as int]);
            assert(ov[m as int] == generic_param_view(ordered@[m as int]));
            assert(rest.drop_first() =~= ov.subrange(m as int + 1, ov.len() as int));
        }
        if m > 0 {
            out.push(Tok::Punct(',', false));
        }
        match &ordered[m] {
            GenericParam::Lifetime(n, _) => {
                out.push(Tok::Punct('\'', true));
                out.push(Tok::Ident(n.clone()));
            },
            GenericParam::Type(n, _) => {
                out.push(Tok::Ident(n.clone()));
            },
            GenericParam::Const(n, _) => {
                out.push(Tok::Ident(n.clone()));
            },
        }
        proof {
            if m == 0 {
                assert(toks_view(out@) =~= toks_view(out0) + spec_param_chunk(ov[0]));
                assert(toks_view(out0) + (spec_param_chunk(rest[0]) + spec_joined_tail(
                    rest.drop_first(),
                )) =~= toks_view(out@) + spec_joined_tail(
                    ov.subrange(m as int + 1, ov.len() as int),
                ));
            } else {
                assert(toks_view(out@) =~= toks_view(out0) + (seq![TokV::Punct(',', false)]
                    + spec_param_chunk(ov[m as int])));
                assert(toks_view(out0) + (seq![TokV::Punct(',', false)] + spec_param_chunk(rest[0])
                    + spec_joined_tail(rest.drop_first())) =~= toks_view(out@) + spec_joined_tail(
                    ov.subrange(m as int + 1, ov.len() as int),
                ));
            }
        }
        m += 1;
    }
    proof {
        if ordered@.len() == 0 {
            assert(spec_joined(ov) =~= Seq::<TokV>::empty());
        } else {
            assert(ov.subrange(m as int, ov.len() as int) =~= Seq::<GenericParamV>::empty());
        }
        assert(toks_view(out@) =~= seq![TokV::Punct('<', false)] + spec_joined(ov));
    }
    let ghost before_close = out@;
    out.push(Tok::Punct('>', false));
    proof {
        assert(toks_view(out@) =~= toks_view(before_close) + seq![TokV::Punct('>', false)]);
        assert(toks_view(out@) =~= spec_ty_generics(gv));
    }
    out
}

/// The tokens of the wrapper type applied to its generic arguments, with
/// every lifetime replaced by the unbounded one: the type at which the
/// layout queries are made.
pub open spec fn spec_ty_self(name: Seq<char>, params: Seq<GenericParamV>) -> Seq<TokV> {
    crate::subst::subst_seq(
        spec_lifetime_names(params),
        seq![TokV::Ident(name)] + spec_ty_generics(params),
        false,
    )
}

/// The layout-query type of the wrapper: its name applied to its generics,
/// lifetimes unbounded.
pub fn ty_self(struct_name: &String, g: &Generics, lifetimes: &Vec<String>) -> (r: Vec<Tok>)
    requires
        crate::subst::names_view(lifetimes@) == spec_lifetime_names(generic_params_view(g.params@)),
    ensures
        toks_view(r@) == spec_ty_self(struct_name@, generic_params_view(g.params@)),
{
    let mut st: Vec<Tok> = Vec::new();
    st.push(Tok::Ident(struct_name.clone()));
    let mut tg = ty_generics_tokens(g);
    let ghost tgv = toks_view(tg@);
    st.append(&mut tg);
    proof {
        assert(toks_view(st@) =~= seq![TokV::Ident(struct_name@)] + tgv);
    }
    crate::subst::lifetimes_to_static(lifetimes, &st)
}

/// The tokens of the support-library path used when the request does not
/// override it.
pub open spec fn default_crate_path() -> Seq<TokV> {
    seq![TokV::Punct(':', true), TokV::Punct(':', false), TokV::Ident("named_future"@)]
}

/// The tokens of the unit type, used when the return type is elided.
pub open spec fn unit_ty_tokens() -> Seq<TokV> {
    seq![TokV::Group(Delim::Paren, Seq::empty())]
}

/// The value of an optional position.
pub open spec fn opt_pos_view(o: Option<usize>) -> Option<int> {
    match o {
        Some(p) => Some(p as int),
        None => None,
    }
}

/// Everything the five emitted artifacts share, derived once from the
/// request and the annotated function.
#[derive(Debug)]
pub struct Artifacts {
    /// Attributes that stay on the public function.
    pub func_attrs: Vec<Attr>,
    /// Attributes that move to the wrapper type, the sentinel dropped.
    pub struct_attrs: Vec<Attr>,
    /// The function's own visibility.
    pub func_vis: Vis,
    /// The wrapper type's visibility: the override, else the function's.
    pub struct_vis: Vis,
    /// The function's name: the public constructor and the generator keep it.
    pub func_name: String,
    /// The reserved name of the hidden copy of the body.
    pub impl_name: String,
    /// The wrapper type's name.
    pub struct_name: String,
    /// The support-library path the emitted code refers to.
    pub crate_path: Vec<Tok>,
    /// The generics of the original, mirrored by the wrapper type.
    pub generics: Generics,
    /// Whether the original carried the asynchronous qualifier.
    pub is_async: bool,
    /// The original parameters, kept for the hidden implementation.
    pub inputs: Vec<Param>,
    /// The argument-tuple patterns, mutability demoted.
    pub arg_pats: Vec<Pat>,
    /// The argument-tuple types, in declared order.
    pub arg_types: Vec<Vec<Tok>>,
    /// The output type of the computation, the unit type when elided.
    pub func_output: Vec<Tok>,
    /// The zero-sized generic-parameter marker of the wrapper.
    pub phantom: PhantomTy,
    /// The generic-argument list the wrapper type is applied to.
    pub ty_generics: Vec<Tok>,
    /// The layout-query type: the wrapper applied to its generics, lifetimes
    /// unbounded.
    pub ty_self: Vec<Tok>,
    /// The body of the original, an opaque block.
    pub body: Vec<Tok>,
    /// The position of the `Send` marker, when the capability was requested:
    /// the assertion and the grant are both emitted, spanned there.
    pub send: Option<usize>,
    /// The position of the `Sync` marker, likewise.
    pub sync: Option<usize>,
}

/// What the synthesizer guarantees of its output for a given request and
/// function.
pub open spec fn artifacts_ok(
    a: Artifacts,
    cv: crate::config::ConfigV,
    fv: crate::ast::FuncV,
) -> bool {
    &&& attrs_view(a.func_attrs@) == spec_func_attrs(fv.attrs, spec_attrs_split(fv.attrs))
    &&& attrs_view(a.struct_attrs@) == spec_struct_attrs(fv.attrs, spec_attrs_split(fv.attrs))
    &&& vis_view(a.func_vis) == fv.vis
    &&& vis_view(a.struct_vis) == (match cv.vis {
        Some(v) => v,
        None => fv.vis,
    })
    &&& a.func_name@ == fv.sig.name
    &&& a.impl_name@ == "__implementation"@
    &&& a.struct_name@ == (match cv.name {
        Some(n) => n,
        None => crate::names::pascal_of(fv.sig.name),
    })
    &&& toks_view(a.crate_path@) == (match cv.crate_path {
        Some(p) => p,
        None => default_crate_path(),
    })
    &&& generics_view(a.generics) == fv.sig.generics
    &&& a.is_async == fv.sig.is_async
    &&& params_view(a.inputs@) == fv.sig.inputs
    &&& forall|i: int| 0 <= i < fv.sig.inputs.len() ==> #[trigger] fv.sig.inputs[i] is Typed
    &&& pats_view(a.arg_pats@).len() == fv.sig.inputs.len()
    &&& forall|i: int|
        0 <= i < fv.sig.inputs.len() ==> #[trigger] pats_view(a.arg_pats@)[i] == spec_demote(
            fv.sig.inputs[i]->Typed_0,
        )
    &&& tys_view(a.arg_types@).len() == fv.sig.inputs.len()
    &&& forall|i: int|
        0 <= i < fv.sig.inputs.len() ==> #[trigger] tys_view(a.arg_types@)[i]
            == fv.sig.inputs[i]->Typed_1
    &&& toks_view(a.func_output@) == (match fv.sig.output {
        Some(t) => t,
        None => unit_ty_tokens(),
    })
    &&& phantom_view(a.phantom) == spec_phantom(fv.sig.generics.params)
    &&& toks_view(a.ty_generics@) == spec_ty_generics(fv.sig.generics.params)
    &&& toks_view(a.ty_self@) == spec_ty_self(a.struct_name@, fv.sig.generics.params)
    &&& toks_view(a.body@) == fv.body
    &&& opt_pos_view(a.send) == cv.send
    &&& opt_pos_view(a.sync) == cv.sync
}

/// Why the synthesizer rejects a function: a receiver parameter, reported
/// at the first one.
pub open spec fn synth_rejects(e: BuildError, fv: crate::ast::FuncV) -> bool {
    &&& e matches BuildError::SelfParam { param }
    &&& param < fv.sig.inputs.len()
    &&& fv.sig.inputs[param as int] is Receiver
    &&& forall|j: int| 0 <= j < param ==> #[trigger] fv.sig.inputs[j] is Typed
}

/// Derive everything the emitted artifacts share from a parsed request and
/// an analyzed function. Fails, with no output, exactly when a parameter is
/// a receiver, at the first such parameter.
pub fn synthesize(config: crate::config::Config, func: Func) -> (r: Result<Artifacts, BuildError>)
    ensures
        match r {
            Ok(a) => artifacts_ok(a, crate::config::config_view(config), crate::ast::func_view(func)),
            Err(e) => synth_rejects(e, crate::ast::func_view(func)),
        },
{
    let Func { attrs, vis, sig, body } = func;
    let crate::ast::Signature { name, is_async, generics, inputs, output } = sig;
    let pats = match arg_pats(&inputs) {
        Ok(v) => v,
        Err(e) => {
            return Err(e);
        },
    };
    let types = match arg_types(&inputs) {
        Ok(v) => v,
        Err(e) => {
            return Err(e);
        },
    };
    let (func_attrs, struct_attrs) = split_attrs(attrs);
    let struct_name = crate::names::derive_struct_name(&config.name, &name);
    let struct_vis = match config.vis {
        Some(v) => v,
        None => clone_vis(&vis),
    };
    let crate_path = match config.crate_path {
        Some(p) => p,
        None => {
            let mut cp: Vec<Tok> = Vec::new();
            cp.push(Tok::Punct(':', true));
            cp.push(Tok::Punct(':', false));
            cp.push(Tok::Ident("named_future".to_owned()));
            proof {
                assert(toks_view(cp@) =~= default_crate_path());
            }
            cp
        },
    };
    let ph = phantom(&generics);
    let tg = ty_generics_tokens(&generics);
    let tys = ty_self(&struct_name, &generics, &ph.lifetimes);
    let func_output = match output {
        Some(t) => t,
        None => {
            let mut u: Vec<Tok> = Vec::new();
            u.push(Tok::Group(Delim::Paren, Vec::new()));
            proof {
                assert(toks_view(u@) =~= unit_ty_tokens());
            }
            u
        },
    };
    let impl_name: String = "__implementation".to_owned();
    Ok(
        Artifacts {
            func_attrs,
            struct_attrs,
            func_vis: vis,
            struct_vis,
            func_name: name,
            impl_name,
            struct_name,
            crate_path,
            generics,
            is_async,
            inputs,
            arg_pats: pats,
            arg_types: types,
            func_output,
            phantom: ph,
            ty_generics: tg,
            ty_self: tys,
            body,
            send: config.send,
            sync: config.sync,
        },
    )
}

/// The argument tuple packs one entry per parameter, in declared order, and
/// reduces to the empty (unit) tuple exactly for a zero-parameter function.
/// Demotion keeps each plain binding's name and its by-`ref` mode and clears
/// only its mutability; any other pattern is carried unchanged.
pub proof fn lemma_tuple_packing(inputs: Seq<ParamV>, pats: Seq<PatV>, tys: Seq<Seq<TokV>>)
    requires
        forall|i: int| 0 <= i < inputs.len() ==> #[trigger] inputs[i] is Typed,
        pats.len() == inputs.len(),
        tys.len() == inputs.len(),
        forall|i: int|
            0 <= i < inputs.len() ==> #[trigger] pats[i] == spec_demote(inputs[i]->Typed_0),
        forall|i: int| 0 <= i < inputs.len() ==> #[trigger] tys[i] == inputs[i]->Typed_1,
    ensures
        pats.len() == tys.len(),
        inputs.len() == 0 ==> pats =~= Seq::<PatV>::empty() && tys =~= Seq::<Seq<TokV>>::empty(),
        forall|i: int|
            0 <= i < inputs.len() ==> ((#[trigger] inputs[i])->Typed_0 matches PatV::Ident {
                by_ref,
                mutable: _,
                name,
            } ==> pats[i] == (PatV::Ident { by_ref, mutable: false, name })),
        forall|i: int|
            0 <= i < inputs.len() ==> ((#[trigger] inputs[i])->Typed_0 is Other ==> pats[i]
                == inputs[i]->Typed_0),
{
}

} // verus!
