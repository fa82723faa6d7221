use named_future::config::parse_config;
use named_future::error::BuildError;
use named_future::ast::Vis;
use named_future::tokens::{Delim, Tok};

fn id(s: &str) -> Tok {
    Tok::Ident(s.to_string())
}

fn punct(c: char) -> Tok {
    Tok::Punct(c, false)
}

fn group(d: Delim, toks: Vec<Tok>) -> Tok {
    Tok::Group(d, toks)
}

#[test]
fn empty_request_defaults() {
    let c = parse_config(&vec![]).unwrap();
    assert_eq!(c.send, None);
    assert_eq!(c.sync, None);
    assert!(c.vis.is_none());
    assert!(c.name.is_none());
    assert!(c.crate_path.is_none());
}

#[test]
fn send_marker_recorded() {
    let c = parse_config(&vec![id("Send")]).unwrap();
    assert_eq!(c.send, Some(0));
    assert_eq!(c.sync, None);
}

#[test]
fn send_and_sync_both_recorded() {
    let c = parse_config(&vec![id("Send"), punct(','), id("Sync")]).unwrap();
    assert_eq!(c.send, Some(0));
    assert_eq!(c.sync, Some(2));
}

#[test]
fn trailing_comma_allowed() {
    let c = parse_config(&vec![id("Sync"), punct(',')]).unwrap();
    assert_eq!(c.sync, Some(0));
}

#[test]
fn type_override_with_pub() {
    let toks = vec![id("type"), punct('='), id("pub"), id("Foo")];
    let c = parse_config(&toks).unwrap();
    assert_eq!(c.vis, Some(Vis::Pub));
    assert_eq!(c.name, Some("Foo".to_string()));
}

#[test]
fn type_override_inherited_visibility() {
    let toks = vec![id("type"), punct('='), id("Foo")];
    let c = parse_config(&toks).unwrap();
    assert_eq!(c.vis, Some(Vis::Inherited));
    assert_eq!(c.name, Some("Foo".to_string()));
}

#[test]
fn type_override_restricted_visibility() {
    let toks = vec![
        id("type"),
        punct('='),
        id("pub"),
        group(Delim::Paren, vec![id("crate")]),
        id("Foo"),
    ];
    let c = parse_config(&toks).unwrap();
    assert_eq!(c.vis, Some(Vis::Restricted(vec![id("crate")])));
    assert_eq!(c.name, Some("Foo".to_string()));
}

#[test]
fn crate_path_override_captured() {
    let toks = vec![
        id("crate"),
        punct('='),
        Tok::Punct(':', true),
        punct(':'),
        id("my_support"),
        punct(','),
        id("Send"),
    ];
    let c = parse_config(&toks).unwrap();
    assert_eq!(
        c.crate_path,
        Some(vec![Tok::Punct(':', true), punct(':'), id("my_support")])
    );
    assert_eq!(c.send, Some(6));
}

#[test]
fn unknown_ident_rejected() {
    let e = parse_config(&vec![id("Frob")]).unwrap_err();
    assert_eq!(e, BuildError::UnexpectedInput { pos: 0 });
    assert_eq!(e.message(), "Unexpected input");
    assert_eq!(e.position(), 0);
}

#[test]
fn missing_equals_rejected() {
    let e = parse_config(&vec![id("type"), id("Foo")]).unwrap_err();
    assert_eq!(e, BuildError::UnexpectedInput { pos: 1 });
}

#[test]
fn duplicate_type_binding_rejected() {
    let toks = vec![
        id("type"),
        punct('='),
        id("A"),
        punct(','),
        id("type"),
        punct('='),
        id("B"),
    ];
    let e = parse_config(&toks).unwrap_err();
    assert_eq!(e, BuildError::UnexpectedInput { pos: 4 });
}

#[test]
fn duplicate_crate_binding_rejected() {
    let toks = vec![
        id("crate"),
        punct('='),
        id("a"),
        punct(','),
        id("crate"),
        punct('='),
        id("b"),
    ];
    let e = parse_config(&toks).unwrap_err();
    assert_eq!(e, BuildError::UnexpectedInput { pos: 4 });
}

#[test]
fn missing_separator_rejected() {
    let e = parse_config(&vec![id("Send"), id("Sync")]).unwrap_err();
    assert_eq!(e, BuildError::UnexpectedInput { pos: 1 });
}

#[test]
fn empty_crate_path_rejected() {
    let e = parse_config(&vec![id("crate"), punct('='), punct(',')]).unwrap_err();
    assert_eq!(e, BuildError::UnexpectedInput { pos: 2 });
}

#[test]
fn type_override_restricted_in_path() {
    let toks = vec![
        id("type"),
        punct('='),
        id("pub"),
        group(Delim::Paren, vec![id("in"), id("some_module")]),
        id("Foo"),
    ];
    let c = parse_config(&toks).unwrap();
    assert_eq!(c.vis, Some(Vis::Restricted(vec![id("in"), id("some_module")])));
    assert_eq!(c.name, Some("Foo".to_string()));
}

#[test]
fn raw_identifier_accepted_as_name() {
    let toks = vec![id("type"), punct('='), id("r#struct")];
    let c = parse_config(&toks).unwrap();
    assert_eq!(c.name, Some("r#struct".to_string()));
}

#[test]
fn type_name_must_be_ident() {
    let toks = vec![id("type"), punct('='), id("pub"), Tok::Lit("5".to_string())];
    let e = parse_config(&toks).unwrap_err();
    assert_eq!(e, BuildError::UnexpectedInput { pos: 3 });
}
