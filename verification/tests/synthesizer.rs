use named_future::ast::{Attr, Func, GenericParam, Generics, Param, Pat, Signature, Vis};
use named_future::config::Config;
use named_future::error::BuildError;
use named_future::names::derive_struct_name;
use named_future::subst::lifetimes_to_static;
use named_future::synth::synthesize;
use named_future::tokens::{Delim, Tok};

fn id(s: &str) -> Tok {
    Tok::Ident(s.to_string())
}

fn punct(c: char) -> Tok {
    Tok::Punct(c, false)
}

fn default_config() -> Config {
    Config { send: None, sync: None, vis: None, name: None, crate_path: None }
}

fn plain_func(name: &str, inputs: Vec<Param>) -> Func {
    Func {
        attrs: vec![],
        vis: Vis::Pub,
        sig: Signature {
            name: name.to_string(),
            is_async: true,
            generics: Generics { params: vec![], where_clause: None },
            inputs,
            output: Some(vec![id("u64")]),
        },
        body: vec![Tok::Group(Delim::Brace, vec![id("todo")])],
    }
}

fn binding(name: &str, mutable: bool, ty: &str) -> Param {
    Param::Typed(
        Pat::Ident { by_ref: false, mutable, name: name.to_string() },
        vec![id(ty)],
    )
}

#[test]
fn plain_function_artifacts() {
    let a = synthesize(default_config(), plain_func("calculate", vec![])).unwrap();
    assert_eq!(a.struct_name, "Calculate");
    assert_eq!(a.func_name, "calculate");
    assert_eq!(a.impl_name, "__implementation");
    assert!(a.is_async);
    assert_eq!(
        a.crate_path,
        vec![Tok::Punct(':', true), punct(':'), id("named_future")]
    );
    assert_eq!(a.send, None);
    assert_eq!(a.sync, None);
    assert_eq!(a.func_output, vec![id("u64")]);
    assert_eq!(a.body, vec![Tok::Group(Delim::Brace, vec![id("todo")])]);
}

#[test]
fn pascal_case_name_derivation() {
    assert_eq!(
        derive_struct_name(&None, &"async_calculator".to_string()),
        "AsyncCalculator"
    );
    assert_eq!(derive_struct_name(&None, &"calculate".to_string()), "Calculate");
    assert_eq!(
        derive_struct_name(&Some("Chosen".to_string()), &"calculate".to_string()),
        "Chosen"
    );
}

#[test]
fn name_override_used() {
    let config = Config { name: Some("Renamed".to_string()), ..default_config() };
    let a = synthesize(config, plain_func("calculate", vec![])).unwrap();
    assert_eq!(a.struct_name, "Renamed");
}

#[test]
fn zero_params_pack_to_unit() {
    let a = synthesize(default_config(), plain_func("nullary", vec![])).unwrap();
    assert!(a.arg_pats.is_empty());
    assert!(a.arg_types.is_empty());
    assert!(a.inputs.is_empty());
}

#[test]
fn multi_params_pack_in_order_and_demoted() {
    let inputs = vec![
        binding("factor1", false, "u64"),
        binding("factor2", true, "u64"),
        binding("summand", false, "u32"),
    ];
    let a = synthesize(default_config(), plain_func("calculator", inputs)).unwrap();
    assert_eq!(a.arg_pats.len(), 3);
    assert_eq!(a.arg_types.len(), 3);
    assert_eq!(
        a.arg_pats[1],
        Pat::Ident { by_ref: false, mutable: false, name: "factor2".to_string() }
    );
    assert_eq!(a.arg_types[0], vec![id("u64")]);
    assert_eq!(a.arg_types[2], vec![id("u32")]);
    // the hidden implementation keeps the original, still-mutable binding
    assert_eq!(
        a.inputs[1],
        Param::Typed(
            Pat::Ident { by_ref: false, mutable: true, name: "factor2".to_string() },
            vec![id("u64")],
        )
    );
}

#[test]
fn receiver_parameter_rejected() {
    let inputs = vec![binding("x", false, "u64"), Param::Receiver];
    let e = synthesize(default_config(), plain_func("method", inputs)).unwrap_err();
    assert_eq!(e, BuildError::SelfParam { param: 1 });
    assert_eq!(e.message(), "Not implemented for Self");
}

#[test]
fn attrs_split_at_sentinel() {
    let mut f = plain_func("calculate", vec![]);
    f.attrs = vec![
        Attr::DocStr(" function docs".to_string()),
        Attr::DocStr(" # struct".to_string()),
        Attr::DocStr(" wrapper docs".to_string()),
    ];
    let a = synthesize(default_config(), f).unwrap();
    assert_eq!(a.func_attrs, vec![Attr::DocStr(" function docs".to_string())]);
    assert_eq!(a.struct_attrs, vec![Attr::DocStr(" wrapper docs".to_string())]);
}

#[test]
fn no_sentinel_keeps_all_attrs_on_function() {
    let mut f = plain_func("calculate", vec![]);
    f.attrs = vec![Attr::DocStr(" docs".to_string())];
    let a = synthesize(default_config(), f).unwrap();
    assert_eq!(a.func_attrs.len(), 1);
    assert!(a.struct_attrs.is_empty());
}

#[test]
fn elided_output_becomes_unit() {
    let mut f = plain_func("fire_and_forget", vec![]);
    f.sig.output = None;
    let a = synthesize(default_config(), f).unwrap();
    assert_eq!(a.func_output, vec![Tok::Group(Delim::Paren, vec![])]);
}

#[test]
fn generics_mirrored_and_lifetimes_made_static() {
    let mut f = plain_func("borrowing", vec![]);
    f.sig.generics = Generics {
        params: vec![
            GenericParam::Lifetime("a".to_string(), vec![]),
            GenericParam::Type("T".to_string(), vec![]),
        ],
        where_clause: None,
    };
    let a = synthesize(default_config(), f).unwrap();
    assert_eq!(
        a.ty_generics,
        vec![
            punct('<'),
            Tok::Punct('\'', true),
            id("a"),
            punct(','),
            id("T"),
            punct('>'),
        ]
    );
    assert_eq!(
        a.ty_self,
        vec![
            id("Borrowing"),
            punct('<'),
            Tok::Punct('\'', true),
            id("static"),
            punct(','),
            id("T"),
            punct('>'),
        ]
    );
    assert_eq!(a.phantom.type_params, vec!["T".to_string()]);
    assert_eq!(a.phantom.lifetimes, vec!["a".to_string()]);
}

#[test]
fn const_parameter_named_in_generics_but_not_in_phantom() {
    let mut f = plain_func("sized", vec![]);
    f.sig.generics = Generics {
        params: vec![
            GenericParam::Type("T".to_string(), vec![]),
            GenericParam::Const("N".to_string(), vec![punct(':'), id("usize")]),
        ],
        where_clause: None,
    };
    let a = synthesize(default_config(), f).unwrap();
    assert_eq!(a.ty_generics, vec![punct('<'), id("T"), punct(','), id("N"), punct('>')]);
    assert_eq!(a.phantom.type_params, vec!["T".to_string()]);
    assert!(a.phantom.lifetimes.is_empty());
}

#[test]
fn where_clause_carried_through() {
    let mut f = plain_func("bounded", vec![]);
    f.sig.generics = Generics {
        params: vec![GenericParam::Type("T".to_string(), vec![])],
        where_clause: Some(vec![id("where"), id("T"), punct(':'), id("Unpin")]),
    };
    let a = synthesize(default_config(), f).unwrap();
    assert_eq!(
        a.generics.where_clause,
        Some(vec![id("where"), id("T"), punct(':'), id("Unpin")])
    );
}

#[test]
fn capability_markers_recorded_with_positions() {
    let config = Config { send: Some(0), sync: Some(2), ..default_config() };
    let a = synthesize(config, plain_func("shared", vec![])).unwrap();
    assert_eq!(a.send, Some(0));
    assert_eq!(a.sync, Some(2));
}

#[test]
fn struct_visibility_defaults_to_function() {
    let a = synthesize(default_config(), plain_func("calculate", vec![])).unwrap();
    assert_eq!(a.struct_vis, Vis::Pub);
    assert_eq!(a.func_vis, Vis::Pub);
}

#[test]
fn struct_visibility_override_used() {
    let config = Config {
        vis: Some(Vis::Restricted(vec![id("crate")])),
        ..default_config()
    };
    let a = synthesize(config, plain_func("calculate", vec![])).unwrap();
    assert_eq!(a.struct_vis, Vis::Restricted(vec![id("crate")]));
}

#[test]
fn crate_path_override_kept() {
    let config = Config {
        crate_path: Some(vec![id("other_support")]),
        ..default_config()
    };
    let a = synthesize(config, plain_func("calculate", vec![])).unwrap();
    assert_eq!(a.crate_path, vec![id("other_support")]);
}

#[test]
fn lifetime_substitution_recurses_into_groups() {
    let lts = vec!["a".to_string()];
    let stream = vec![
        punct('&'),
        Tok::Punct('\'', true),
        id("a"),
        Tok::Group(
            Delim::Paren,
            vec![Tok::Punct('\'', true), id("a"), punct(','), Tok::Punct('\'', true), id("b")],
        ),
        id("a"),
    ];
    let out = lifetimes_to_static(&lts, &stream);
    assert_eq!(
        out,
        vec![
            punct('&'),
            Tok::Punct('\'', true),
            id("static"),
            Tok::Group(
                Delim::Paren,
                vec![
                    Tok::Punct('\'', true),
                    id("static"),
                    punct(','),
                    Tok::Punct('\'', true),
                    id("b"),
                ],
            ),
            // a bare `a` is a plain identifier, not a lifetime
            id("a"),
        ]
    );
}

#[test]
fn apostrophe_state_resets_at_group_boundary() {
    let lts = vec!["a".to_string()];
    let stream = vec![
        Tok::Punct('\'', true),
        Tok::Group(Delim::Paren, vec![id("a")]),
    ];
    let out = lifetimes_to_static(&lts, &stream);
    assert_eq!(out, stream);
}
