//! The structured model of an annotated function.
//!
//! The analyzer reads the declaration under transformation into this shape:
//! outer attributes, visibility, signature and an opaque body. Only what the
//! transformation inspects is structured; everything else stays an opaque run
//! of tokens.

use vstd::prelude::*;

use crate::text::is_struct_marker;
use crate::tokens::{tok_view, toks_view, Tok, TokV};

verus! {

/// A visibility: inherited (nothing written), `pub`, or `pub(...)` with the
/// restriction kept as opaque tokens.
#[derive(Debug, PartialEq, Eq)]
pub enum Vis {
    Inherited,
    Pub,
    Restricted(Vec<Tok>),
}

/// The value of a visibility.
pub enum VisV {
    Inherited,
    Pub,
    Restricted(Seq<TokV>),
}

pub open spec fn vis_view(v: Vis) -> VisV {
    match v {
        Vis::Inherited => VisV::Inherited,
        Vis::Pub => VisV::Pub,
        Vis::Restricted(toks) => VisV::Restricted(toks_view(toks@)),
    }
}

/// An outer attribute: a documentation line carrying its text, or any other
/// attribute as opaque tokens.
#[derive(Debug, PartialEq, Eq)]
pub enum Attr {
    DocStr(String),
    Other(Vec<Tok>),
}

/// The value of an attribute.
pub enum AttrV {
    DocStr(Seq<char>),
    Other(Seq<TokV>),
}

pub open spec fn attr_view(a: Attr) -> AttrV {
    match a {
        Attr::DocStr(s) => AttrV::DocStr(s@),
        Attr::Other(toks) => AttrV::Other(toks_view(toks@)),
    }
}

/// The values of a list of attributes.
pub open spec fn attrs_view(s: Seq<Attr>) -> Seq<AttrV> {
    s.map_values(|a: Attr| attr_view(a))
}

/// A parameter pattern: a plain binding (possibly `ref` and/or `mut`), or any
/// other pattern as opaque tokens.
#[derive(Debug, PartialEq, Eq)]
pub enum Pat {
    Ident { by_ref: bool, mutable: bool, name: String },
    Other(Vec<Tok>),
}

/// The value of a pattern.
pub enum PatV {
    Ident { by_ref: bool, mutable: bool, name: Seq<char> },
    Other(Seq<TokV>),
}

pub open spec fn pat_view(p: Pat) -> PatV {
    match p {
        Pat::Ident { by_ref, mutable, name } => PatV::Ident { by_ref, mutable, name: name@ },
        Pat::Other(toks) => PatV::Other(toks_view(toks@)),
    }
}

/// A function parameter: a receiver (`self` in some form), or a typed binding
/// `pattern: type` with the type kept as opaque tokens.
#[derive(Debug, PartialEq, Eq)]
pub enum Param {
    Receiver,
    Typed(Pat, Vec<Tok>),
}

/// The value of a parameter.
pub enum ParamV {
    Receiver,
    Typed(PatV, Seq<TokV>),
}

pub open spec fn param_view(p: Param) -> ParamV {
    match p {
        Param::Receiver => ParamV::Receiver,
        Param::Typed(pat, ty) => ParamV::Typed(pat_view(pat), toks_view(ty@)),
    }
}

/// The values of a parameter list.
pub open spec fn params_view(s: Seq<Param>) -> Seq<ParamV> {
    s.map_values(|p: Param| param_view(p))
}

/// One generic parameter, by kind, with its name and everything after the
/// name (bounds, the type of a const parameter, defaults) as opaque tokens.
#[derive(Debug, PartialEq, Eq)]
pub enum GenericParam {
    Lifetime(String, Vec<Tok>),
    Type(String, Vec<Tok>),
    Const(String, Vec<Tok>),
}

/// The value of a generic parameter.
pub enum GenericParamV {
    Lifetime(Seq<char>, Seq<TokV>),
    Type(Seq<char>, Seq<TokV>),
    Const(Seq<char>, Seq<TokV>),
}

pub open spec fn generic_param_view(p: GenericParam) -> GenericParamV {
    match p {
        GenericParam::Lifetime(n, t) => GenericParamV::Lifetime(n@, toks_view(t@)),
        GenericParam::Type(n, t) => GenericParamV::Type(n@, toks_view(t@)),
        GenericParam::Const(n, t) => GenericParamV::Const(n@, toks_view(t@)),
    }
}

/// The values of a generic-parameter list.
pub open spec fn generic_params_view(s: Seq<GenericParam>) -> Seq<GenericParamV> {
    s.map_values(|p: GenericParam| generic_param_view(p))
}

/// The generic parameters of a declaration and its `where` clause, if any.
#[derive(Debug, PartialEq, Eq)]
pub struct Generics {
    pub params: Vec<GenericParam>,
    pub where_clause: Option<Vec<Tok>>,
}

/// The value of a generics list.
pub struct GenericsV {
    pub params: Seq<GenericParamV>,
    pub where_clause: Option<Seq<TokV>>,
}

pub open spec fn generics_view(g: Generics) -> GenericsV {
    GenericsV {
        params: generic_params_view(g.params@),
        where_clause: match g.where_clause {
            Some(toks) => Some(toks_view(toks@)),
            None => None,
        },
    }
}

/// A function signature: name, whether it carries the asynchronous
/// qualifier, generics, parameters, and the return type as opaque tokens
/// (`None` when the return type is elided).
#[derive(Debug, PartialEq, Eq)]
pub struct Signature {
    pub name: String,
    pub is_async: bool,
    pub generics: Generics,
    pub inputs: Vec<Param>,
    pub output: Option<Vec<Tok>>,
}

/// The value of a signature.
pub struct SignatureV {
    pub name: Seq<char>,
    pub is_async: bool,
    pub generics: GenericsV,
    pub inputs: Seq<ParamV>,
    pub output: Option<Seq<TokV>>,
}

pub open spec fn sig_view(s: Signature) -> SignatureV {
    SignatureV {
        name: s.name@,
        is_async: s.is_async,
        generics: generics_view(s.generics),
        inputs: params_view(s.inputs@),
        output: match s.output {
            Some(toks) => Some(toks_view(toks@)),
            None => None,
        },
    }
}

/// An annotated function: outer attributes, visibility, signature, and the
/// body as an opaque token block, never inspected.
#[derive(Debug, PartialEq, Eq)]
pub struct Func {
    pub attrs: Vec<Attr>,
    pub vis: Vis,
    pub sig: Signature,
    pub body: Vec<Tok>,
}

/// The value of an annotated function.
pub struct FuncV {
    pub attrs: Seq<AttrV>,
    pub vis: VisV,
    pub sig: SignatureV,
    pub body: Seq<TokV>,
}

pub open spec fn func_view(f: Func) -> FuncV {
    FuncV {
        attrs: attrs_view(f.attrs@),
        vis: vis_view(f.vis),
        sig: sig_view(f.sig),
        body: toks_view(f.body@),
    }
}

/// The documentation text of an attribute, if it is a documentation line.
pub fn get_doc_value(a: &Attr) -> (r: Option<&String>)
    ensures
        match r {
            Some(s) => *a matches Attr::DocStr(d) && *s == d,
            None => *a is Other,
        },
{
    match a {
        Attr::DocStr(s) => Some(s),
        Attr::Other(_) => None,
    }
}

/// Whether an attribute is the sentinel documentation line.
pub open spec fn attr_marks_struct(a: AttrV) -> bool {
    a matches AttrV::DocStr(s) && is_struct_marker(s)
}

/// Whether this attribute is the sentinel documentation line.
pub fn attr_is_marker(a: &Attr) -> (r: bool)
    ensures
        r == attr_marks_struct(attr_view(*a)),
{
    match get_doc_value(a) {
        Some(s) => crate::text::doc_marks_struct(s.as_str()),
        None => false,
    }
}

/// The index of the first sentinel attribute at or after `i`, or `None`.
pub open spec fn spec_split_at(attrs: Seq<AttrV>, i: int) -> Option<int>
    decreases attrs.len() - i,
{
    if i >= attrs.len() {
        None
    } else if attr_marks_struct(attrs[i]) {
        Some(i)
    } else {
        spec_split_at(attrs, i + 1)
    }
}

/// The index of the sentinel attribute: the first one that marks the split,
/// or `None` when no attribute does.
pub open spec fn spec_attrs_split(attrs: Seq<AttrV>) -> Option<int> {
    spec_split_at(attrs, 0)
}

pub proof fn lemma_split_at_is(attrs: Seq<AttrV>, i: int, r: Option<int>)
    requires
        0 <= i <= attrs.len(),
        match r {
            Some(c) => i <= c < attrs.len() && attr_marks_struct(attrs[c]) && forall|j: int|
                i <= j < c ==> !attr_marks_struct(#[trigger] attrs[j]),
            None => forall|j: int|
                i <= j < attrs.len() ==> !attr_marks_struct(#[trigger] attrs[j]),
        },
    ensures
        spec_split_at(attrs, i) == r,
    decreases attrs.len() - i,
{
    if i < attrs.len() && !attr_marks_struct(attrs[i]) {
        lemma_split_at_is(attrs, i + 1, r);
    }
}

/// The index of the sentinel documentation line among the outer attributes:
/// the first attribute whose trimmed text is `#` followed by `struct`
/// regardless of case, or `None` when no attribute is the sentinel.
pub fn find_attrs_split(attrs: &Vec<Attr>) -> (r: Option<usize>)
    ensures
        match r {
            Some(i) => {
                &&& i < attrs@.len()
                &&& attr_marks_struct(attr_view(attrs@[i as int]))
                &&& forall|j: int|
                    0 <= j < i ==> !attr_marks_struct(attr_view(#[trigger] attrs@[j]))
            },
            None => forall|j: int|
                0 <= j < attrs@.len() ==> !attr_marks_struct(attr_view(#[trigger] attrs@[j])),
        },
{
    let mut i: usize = 0;
    while i < attrs.len()
        invariant
            0 <= i <= attrs@.len(),
            forall|j: int| 0 <= j < i ==> !attr_marks_struct(attr_view(#[trigger] attrs@[j])),
        decreases attrs@.len() - i,
    {
        if attr_is_marker(&attrs[i]) {
            return Some(i);
        }
        i += 1;
    }
    None
}

} // verus!
