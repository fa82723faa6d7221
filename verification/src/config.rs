//! The configuration of one transformation request.
//!
//! A request is a comma-separated list of entries, each one of:
//! `Send` or `Sync` (capability markers to assert and grant),
//! `type = <visibility> <identifier>` (override the wrapper's visibility and
//! name), or `crate = <path>` (override the support-library path). A
//! trailing comma is allowed, empty input is valid, `type =` and `crate =`
//! may each be bound at most once, and any other token is a hard parse
//! failure pinned to its position.

use vstd::prelude::*;

use crate::ast::{vis_view, Vis, VisV};
use crate::error::BuildError;
use crate::tokens::{
    clone_tok_range, clone_toks, lemma_toks_view_index, lemma_toks_view_len, tok_ident_is,
    tok_is_punct, tokv_is_ident, tokv_is_punct, toks_view, Delim, Tok, TokV,
};

verus! {

broadcast use lemma_toks_view_len, lemma_toks_view_index;

/// A parsed configuration. The `send` and `sync` fields carry the token
/// index of the marker, kept for diagnostics.
#[derive(Debug, PartialEq, Eq)]
pub struct Config {
    pub send: Option<usize>,
    pub sync: Option<usize>,
    pub vis: Option<Vis>,
    pub name: Option<String>,
    pub crate_path: Option<Vec<Tok>>,
}

/// The value of a configuration.
pub struct ConfigV {
    pub send: Option<int>,
    pub sync: Option<int>,
    pub vis: Option<VisV>,
    pub name: Option<Seq<char>>,
    pub crate_path: Option<Seq<TokV>>,
}

pub open spec fn config_view(c: Config) -> ConfigV {
    ConfigV {
        send: match c.send {
            Some(p) => Some(p as int),
            None => None,
        },
        sync: match c.sync {
            Some(p) => Some(p as int),
            None => None,
        },
        vis: match c.vis {
            Some(v) => Some(vis_view(v)),
            None => None,
        },
        name: match c.name {
            Some(n) => Some(n@),
            None => None,
        },
        crate_path: match c.crate_path {
            Some(p) => Some(toks_view(p@)),
            None => None,
        },
    }
}

/// The configuration with every field defaulted.
pub open spec fn config_default() -> ConfigV {
    ConfigV { send: None, sync: None, vis: None, name: None, crate_path: None }
}

/// The index of the first comma at or after `i`, or the length when there is
/// none.
pub open spec fn first_comma_from(toks: Seq<TokV>, i: int) -> int
    decreases toks.len() - i,
{
    if i >= toks.len() {
        toks.len() as int
    } else if tokv_is_punct(toks[i], ',') {
        i
    } else {
        first_comma_from(toks, i + 1)
    }
}

proof fn lemma_first_comma_bounds(toks: Seq<TokV>, i: int)
    requires
        0 <= i <= toks.len(),
    ensures
        i <= first_comma_from(toks, i) <= toks.len(),
    decreases toks.len() - i,
{
    if i < toks.len() && !tokv_is_punct(toks[i], ',') {
        lemma_first_comma_bounds(toks, i + 1);
    }
}

proof fn lemma_first_comma_is(toks: Seq<TokV>, i: int, j: int)
    requires
        0 <= i <= j <= toks.len(),
        forall|m: int| i <= m < j ==> !tokv_is_punct(#[trigger] toks[m], ','),
        j == toks.len() || tokv_is_punct(toks[j], ','),
    ensures
        first_comma_from(toks, i) == j,
    decreases j - i,
{
    if i < j {
        lemma_first_comma_is(toks, i + 1, j);
    }
}

/// Whether a group token is a visibility restriction: parenthesised, and
/// opening with `crate`, `self`, `super` or `in`.
pub open spec fn is_restriction_group(t: TokV) -> bool {
    &&& t matches TokV::Group(Delim::Paren, g)
    &&& g.len() > 0
    &&& {
        ||| tokv_is_ident(g[0], "crate"@)
        ||| tokv_is_ident(g[0], "self"@)
        ||| tokv_is_ident(g[0], "super"@)
        ||| tokv_is_ident(g[0], "in"@)
    }
}

/// The visibility read at index `k`, and the index that follows it: `pub`
/// with a restriction group, bare `pub`, or nothing (inherited).
pub open spec fn spec_parse_vis(toks: Seq<TokV>, k: int) -> (VisV, int) {
    if k < toks.len() && tokv_is_ident(toks[k], "pub"@) {
        if k + 1 < toks.len() && is_restriction_group(toks[k + 1]) {
            (VisV::Restricted(toks[k + 1]->Group_1), k + 2)
        } else {
            (VisV::Pub, k + 1)
        }
    } else {
        (VisV::Inherited, k)
    }
}

/// One entry read at index `i` (which must be in range): the updated
/// configuration and the index that follows the entry, or the position of
/// the offending token.
pub open spec fn spec_parse_entry(toks: Seq<TokV>, i: int, acc: ConfigV) -> Result<
    (ConfigV, int),
    int,
> {
    if tokv_is_ident(toks[i], "type"@) {
        if acc.name is Some {
            Err(i)
        } else if !(i + 1 < toks.len() && tokv_is_punct(toks[i + 1], '=')) {
            Err(i + 1)
        } else {
            let (v, ni) = spec_parse_vis(toks, i + 2);
            if ni < toks.len() {
                match toks[ni] {
                    TokV::Ident(n) => Ok(
                        (
                            ConfigV {
                                send: acc.send,
                                sync: acc.sync,
                                vis: Some(v),
                                name: Some(n),
                                crate_path: acc.crate_path,
                            },
                            ni + 1,
                        ),
                    ),
                    _ => Err(ni),
                }
            } else {
                Err(ni)
            }
        }
    } else if tokv_is_ident(toks[i], "crate"@) {
        if acc.crate_path is Some {
            Err(i)
        } else if !(i + 1 < toks.len() && tokv_is_punct(toks[i + 1], '=')) {
            Err(i + 1)
        } else {
            let j = first_comma_from(toks, i + 2);
            if j == i + 2 {
                Err(i + 2)
            } else {
                Ok(
                    (
                        ConfigV {
                            send: acc.send,
                            sync: acc.sync,
                            vis: acc.vis,
                            name: acc.name,
                            crate_path: Some(toks.subrange(i + 2, j)),
                        },
                        j,
                    ),
                )
            }
        }
    } else if tokv_is_ident(toks[i], "Send"@) {
        Ok(
            (
                ConfigV {
                    send: Some(i),
                    sync: acc.sync,
                    vis: acc.vis,
                    name: acc.name,
                    crate_path: acc.crate_path,
                },
                i + 1,
            ),
        )
    } else if tokv_is_ident(toks[i], "Sync"@) {
        Ok(
            (
                ConfigV {
                    send: acc.send,
                    sync: Some(i),
                    vis: acc.vis,
                    name: acc.name,
                    crate_path: acc.crate_path,
                },
                i + 1,
            ),
        )
    } else {
        Err(i)
    }
}

proof fn lemma_entry_advances(toks: Seq<TokV>, i: int, acc: ConfigV)
    requires
        0 <= i < toks.len(),
        spec_parse_entry(toks, i, acc) is Ok,
    ensures
        i < spec_parse_entry(toks, i, acc)->Ok_0.1 <= toks.len(),
{
    if tokv_is_ident(toks[i], "type"@) {
    } else if tokv_is_ident(toks[i], "crate"@) {
        if !(acc.crate_path is Some) && i + 1 < toks.len() && tokv_is_punct(toks[i + 1], '=') {
            lemma_first_comma_bounds(toks, i + 2);
        }
    }
}

/// The configuration read from the whole list, starting at `i` with the
/// entries before `i` already accumulated in `acc`.
pub open spec fn spec_parse_entries(toks: Seq<TokV>, i: int, acc: ConfigV) -> Result<ConfigV, int>
    decreases toks.len() - i,
    when 0 <= i
    via spec_parse_entries_decreases
{
    if i >= toks.len() {
        Ok(acc)
    } else {
        match spec_parse_entry(toks, i, acc) {
            Err(p) => Err(p),
            Ok((acc2, j)) => {
                if j >= toks.len() {
                    Ok(acc2)
                } else if tokv_is_punct(toks[j], ',') {
                    spec_parse_entries(toks, j + 1, acc2)
                } else {
                    Err(j)
                }
            },
        }
    }
}

#[via_fn]
proof fn spec_parse_entries_decreases(toks: Seq<TokV>, i: int, acc: ConfigV) {
    if 0 <= i < toks.len() {
        if spec_parse_entry(toks, i, acc) is Ok {
            lemma_entry_advances(toks, i, acc);
        }
    }
}

/// The configuration read from a whole token list.
pub open spec fn spec_parse_config(toks: Seq<TokV>) -> Result<ConfigV, int> {
    spec_parse_entries(toks, 0, config_default())
}

/// An empty request leaves every field defaulted; in particular it requests
/// neither capability marker.
pub proof fn lemma_empty_config()
    ensures
        spec_parse_config(Seq::<TokV>::empty()) == Ok::<ConfigV, int>(config_default()),
{
}

proof fn lemma_entries_markers(toks: Seq<TokV>, i: int, acc: ConfigV)
    requires
        0 <= i,
        acc.send matches Some(p) ==> 0 <= p < toks.len() && tokv_is_ident(toks[p], "Send"@),
        acc.sync matches Some(p) ==> 0 <= p < toks.len() && tokv_is_ident(toks[p], "Sync"@),
    ensures
        spec_parse_entries(toks, i, acc) matches Ok(c) ==> {
            &&& (c.send matches Some(p) ==> 0 <= p < toks.len() && tokv_is_ident(
                toks[p],
                "Send"@,
            ))
            &&& (c.sync matches Some(p) ==> 0 <= p < toks.len() && tokv_is_ident(
                toks[p],
                "Sync"@,
            ))
        },
    decreases toks.len() - i,
{
    if i < toks.len() {
        match spec_parse_entry(toks, i, acc) {
            Err(_) => {},
            Ok((acc2, j)) => {
                assert(acc2.send matches Some(p) ==> 0 <= p < toks.len() && tokv_is_ident(
                    toks[p],
                    "Send"@,
                ));
                assert(acc2.sync matches Some(p) ==> 0 <= p < toks.len() && tokv_is_ident(
                    toks[p],
                    "Sync"@,
                ));
                if j < toks.len() && tokv_is_punct(toks[j], ',') {
                    lemma_entry_advances(toks, i, acc);
                    lemma_entries_markers(toks, j + 1, acc2);
                }
            },
        }
    }
}

/// A marker is granted only where it was requested: when parsing succeeds,
/// each recorded marker position holds the user's own `Send` or `Sync`
/// token, so the emitted assertion and grant are pinned to an explicit
/// request.
pub proof fn lemma_capability_grant_is_requested(toks: Seq<TokV>)
    ensures
        spec_parse_config(toks) matches Ok(c) ==> {
            &&& (c.send matches Some(p) ==> 0 <= p < toks.len() && tokv_is_ident(
                toks[p],
                "Send"@,
            ))
            &&& (c.sync matches Some(p) ==> 0 <= p < toks.len() && tokv_is_ident(
                toks[p],
                "Sync"@,
            ))
        },
{
    lemma_entries_markers(toks, 0, config_default());
}

/// The capability default is deny: a request that holds no `Send` and no
/// `Sync` token grants neither capability, whatever else it configures.
pub proof fn lemma_capability_default_deny(toks: Seq<TokV>)
    requires
        forall|i: int|
            0 <= i < toks.len() ==> !(tokv_is_ident(#[trigger] toks[i], "Send"@) || tokv_is_ident(
                toks[i],
                "Sync"@,
            )),
    ensures
        spec_parse_config(toks) matches Ok(c) ==> c.send is None && c.sync is None,
{
    lemma_capability_grant_is_requested(toks);
}

/// Read a configuration from its tokens, or fail at the offending token.
pub fn parse_config(toks: &Vec<Tok>) -> (r: Result<Config, BuildError>)
    ensures
        match r {
            Ok(c) => spec_parse_config(toks_view(toks@)) == Ok::<ConfigV, int>(config_view(c)),
            Err(e) => e matches BuildError::UnexpectedInput { pos } && spec_parse_config(
                toks_view(toks@),
            ) == Err::<ConfigV, int>(pos as int),
        },
{
    let ghost tv = toks_view(toks@);
    let n: usize = toks.len();
    let mut acc = Config { send: None, sync: None, vis: None, name: None, crate_path: None };
    let mut i: usize = 0;
    while i < n
        invariant
            0 <= i <= n,
            n == toks@.len(),
            tv == toks_view(toks@),
            spec_parse_config(tv) == spec_parse_entries(tv, i as int, config_view(acc)),
        decreases n - i,
    {
        let ghost acc0 = config_view(acc);
        // one entry, starting at the token at `i`
        let j: usize;
        if tok_ident_is(&toks[i], "type") {
            if acc.name.is_some() {
                return Err(BuildError::UnexpectedInput { pos: i });
            }
            if !(i + 1 < n && tok_is_punct(&toks[i + 1], '=')) {
                proof {
                    assert(spec_parse_entry(tv, i as int, acc0) == Err::<(ConfigV, int), int>(
                        i as int + 1,
                    ));
                }
                return Err(BuildError::UnexpectedInput { pos: i + 1 });
            }
            let k: usize = i + 2;
            let mut vis = Vis::Inherited;
            let mut name_idx: usize = k;
            if k < n && tok_ident_is(&toks[k], "pub") {
                vis = Vis::Pub;
                name_idx = k + 1;
                if k + 1 < n {
                    match &toks[k + 1] {
                        Tok::Group(Delim::Paren, g) => {
                            if g.len() > 0 && (tok_ident_is(&g[0], "crate") || tok_ident_is(
                                &g[0],
                                "self",
                            ) || tok_ident_is(&g[0], "super") || tok_ident_is(&g[0], "in")) {
                                vis = Vis::Restricted(clone_toks(g));
                                name_idx = k + 2;
                            }
                        },
                        _ => {},
                    }
                }
            }
            proof {
                assert(spec_parse_vis(tv, k as int) == (vis_view(vis), name_idx as int));
            }
            if !(name_idx < n) {
                proof {
                    assert(spec_parse_entry(tv, i as int, acc0) == Err::<(ConfigV, int), int>(
                        name_idx as int,
                    ));
                }
                return Err(BuildError::UnexpectedInput { pos: name_idx });
            }
            match &toks[name_idx] {
                Tok::Ident(nm) => {
                    acc.vis = Some(vis);
                    acc.name = Some(nm.clone());
                    j = name_idx + 1;
                },
                _ => {
                    proof {
                        assert(spec_parse_entry(tv, i as int, acc0) == Err::<(ConfigV, int), int>(
                            name_idx as int,
                        ));
                    }
                    return Err(BuildError::UnexpectedInput { pos: name_idx });
                },
            }
        } else if tok_ident_is(&toks[i], "crate") {
            if acc.crate_path.is_some() {
                return Err(BuildError::UnexpectedInput { pos: i });
            }
            if !(i + 1 < n && tok_is_punct(&toks[i + 1], '=')) {
                proof {
                    assert(spec_parse_entry(tv, i as int, acc0) == Err::<(ConfigV, int), int>(
                        i as int + 1,
                    ));
                }
                return Err(BuildError::UnexpectedInput { pos: i + 1 });
            }
            let mut m: usize = i + 2;
            while m < n && !tok_is_punct(&toks[m], ',')
                invariant
                    i + 2 <= m <= n,
                    n == toks@.len(),
                    tv == toks_view(toks@),
                    forall|q: int| i + 2 <= q < m ==> !tokv_is_punct(#[trigger] tv[q], ','),
                decreases n - m,
            {
                m += 1;
            }
            proof {
                lemma_first_comma_is(tv, i as int + 2, m as int);
            }
            if m == i + 2 {
                proof {
                    assert(spec_parse_entry(tv, i as int, acc0) == Err::<(ConfigV, int), int>(
                        i as int + 2,
                    ));
                }
                return Err(BuildError::UnexpectedInput { pos: i + 2 });
            }
            let path = clone_tok_range(toks, i + 2, m);
            acc.crate_path = Some(path);
            j = m;
        } else if tok_ident_is(&toks[i], "Send") {
            acc.send = Some(i);
            j = i + 1;
        } else if tok_ident_is(&toks[i], "Sync") {
            acc.sync = Some(i);
            j = i + 1;
        } else {
            proof {
                assert(spec_parse_entry(tv, i as int, acc0) == Err::<(ConfigV, int), int>(
                    i as int,
                ));
            }
            return Err(BuildError::UnexpectedInput { pos: i });
        }
        proof {
            assert(spec_parse_entry(tv, i as int, acc0) == Ok::<(ConfigV, int), int>(
                (config_view(acc), j as int),
            ));
        }
        // the separator after the entry
        if j >= n {
            return Ok(acc);
        }
        if !tok_is_punct(&toks[j], ',') {
            return Err(BuildError::UnexpectedInput { pos: j });
        }
        i = j + 1;
    }
    Ok(acc)
}

} // verus!
