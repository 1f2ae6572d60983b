use undeclared_vars::classify::{classify, run};
use undeclared_vars::model::{
    AnalysisConfig, AncestorKind, Classification, IdentifierToken, JsxConfig, JsxRuntimeMode,
    SourceType, Span, UnresolvedReference,
};

fn ident(text: &str, start: u32, end: u32) -> UnresolvedReference {
    UnresolvedReference::Identifier {
        token: Some(IdentifierToken { text: text.to_string(), span: Span { start, end } }),
        under_const_assertion: false,
        ancestors: Vec::new(),
    }
}

fn default_config(source_type: SourceType) -> AnalysisConfig {
    AnalysisConfig {
        allow_list: Vec::new(),
        source_type,
        jsx: JsxConfig {
            mode: JsxRuntimeMode::Automatic,
            factory: None,
            fragment_factory: None,
        },
    }
}

fn classic_jsx_config(factory: &str, fragment_factory: &str) -> AnalysisConfig {
    AnalysisConfig {
        allow_list: Vec::new(),
        source_type: SourceType::JavaScript,
        jsx: JsxConfig {
            mode: JsxRuntimeMode::Classic,
            factory: Some(factory.to_string()),
            fragment_factory: Some(fragment_factory.to_string()),
        },
    }
}

fn flagged_as(c: &Classification) -> Option<(Span, String)> {
    match c {
        Classification::Resolved => None,
        Classification::Flagged { span, display_name } => Some((*span, display_name.clone())),
    }
}

#[test]
fn unknown_identifier_is_flagged_at_its_span() {
    let cfg = default_config(SourceType::JavaScript);
    let c = classify(&ident("foobar", 0, 6), &cfg);
    let (span, name) = flagged_as(&c).expect("a name absent from every table must be flagged");
    assert_eq!(span, Span { start: 0, end: 6 });
    assert_eq!(name, "foobar");
}

#[test]
fn known_global_is_resolved() {
    let cfg = default_config(SourceType::JavaScript);
    assert!(flagged_as(&classify(&ident("Array", 0, 5), &cfg)).is_none());
    assert!(flagged_as(&classify(&ident("setTimeout", 0, 10), &cfg)).is_none());
}

#[test]
fn ts_only_global_depends_on_source_type() {
    let js = default_config(SourceType::JavaScript);
    let ts = default_config(SourceType::TypeScript);
    let reference = ident("PromiseLike", 0, 11);
    assert!(flagged_as(&classify(&reference, &js)).is_some());
    assert!(flagged_as(&classify(&reference, &ts)).is_none());
}

#[test]
fn allow_listed_name_is_never_flagged() {
    let mut cfg = default_config(SourceType::JavaScript);
    cfg.allow_list = vec!["myGlobal".to_string(), "other".to_string()];
    assert!(flagged_as(&classify(&ident("myGlobal", 0, 8), &cfg)).is_none());
    assert!(flagged_as(&classify(&ident("other", 0, 5), &cfg)).is_none());
    assert!(flagged_as(&classify(&ident("third", 0, 5), &cfg)).is_some());
}

#[test]
fn const_under_assertion_is_resolved() {
    let cfg = default_config(SourceType::TypeScript);
    let under = UnresolvedReference::Identifier {
        token: Some(IdentifierToken { text: "const".to_string(), span: Span { start: 10, end: 15 } }),
        under_const_assertion: true,
        ancestors: Vec::new(),
    };
    assert!(flagged_as(&classify(&under, &cfg)).is_none());
}

#[test]
fn const_outside_assertion_is_flagged() {
    let cfg = default_config(SourceType::TypeScript);
    let bare = UnresolvedReference::Identifier {
        token: Some(IdentifierToken { text: "const".to_string(), span: Span { start: 10, end: 15 } }),
        under_const_assertion: false,
        ancestors: Vec::new(),
    };
    assert!(flagged_as(&classify(&bare, &cfg)).is_some());
}

#[test]
fn arguments_inside_ordinary_function_is_resolved() {
    let cfg = default_config(SourceType::JavaScript);
    let inside = UnresolvedReference::Identifier {
        token: Some(IdentifierToken { text: "arguments".to_string(), span: Span { start: 0, end: 9 } }),
        under_const_assertion: false,
        ancestors: vec![AncestorKind::NotAFunction, AncestorKind::OtherFunction],
    };
    assert!(flagged_as(&classify(&inside, &cfg)).is_none());
}

#[test]
fn arguments_inside_arrow_function_alone_is_flagged() {
    let cfg = default_config(SourceType::JavaScript);
    let inside_arrow = UnresolvedReference::Identifier {
        token: Some(IdentifierToken { text: "arguments".to_string(), span: Span { start: 0, end: 9 } }),
        under_const_assertion: false,
        ancestors: vec![AncestorKind::NotAFunction, AncestorKind::ArrowFunction],
    };
    assert!(flagged_as(&classify(&inside_arrow, &cfg)).is_some());
}

#[test]
fn missing_token_resolves() {
    let cfg = default_config(SourceType::JavaScript);
    let tokenless = UnresolvedReference::Identifier {
        token: None,
        under_const_assertion: false,
        ancestors: Vec::new(),
    };
    assert!(flagged_as(&classify(&tokenless, &cfg)).is_none());
}

#[test]
fn classic_jsx_element_is_flagged_under_factory_name() {
    let cfg = classic_jsx_config("h", "Fragment");
    let element = UnresolvedReference::JsxElement { name_span: Some(Span { start: 1, end: 4 }) };
    let (span, name) = flagged_as(&classify(&element, &cfg)).expect("a non-React factory flags");
    assert_eq!(span, Span { start: 1, end: 4 });
    assert_eq!(name, "h");
}

#[test]
fn classic_jsx_element_with_react_factory_is_resolved() {
    let cfg = classic_jsx_config("React", "React");
    let element = UnresolvedReference::JsxElement { name_span: Some(Span { start: 1, end: 4 }) };
    assert!(flagged_as(&classify(&element, &cfg)).is_none());
}

#[test]
fn classic_jsx_fragment_is_flagged_at_angle_bracket() {
    let cfg = classic_jsx_config("React", "Frag");
    let fragment = UnresolvedReference::JsxFragment { l_angle_span: Some(Span { start: 0, end: 1 }) };
    let (span, name) = flagged_as(&classify(&fragment, &cfg)).expect("a non-React fragment factory flags");
    assert_eq!(span, Span { start: 0, end: 1 });
    assert_eq!(name, "Frag");
}

#[test]
fn classic_jsx_fragment_with_react_factory_is_resolved() {
    let cfg = classic_jsx_config("h", "React");
    let fragment = UnresolvedReference::JsxFragment { l_angle_span: Some(Span { start: 0, end: 1 }) };
    assert!(flagged_as(&classify(&fragment, &cfg)).is_none());
}

#[test]
fn automatic_runtime_resolves_all_jsx() {
    let cfg = default_config(SourceType::JavaScript);
    let element = UnresolvedReference::JsxElement { name_span: Some(Span { start: 1, end: 4 }) };
    let fragment = UnresolvedReference::JsxFragment { l_angle_span: Some(Span { start: 0, end: 1 }) };
    assert!(flagged_as(&classify(&element, &cfg)).is_none());
    assert!(flagged_as(&classify(&fragment, &cfg)).is_none());
}

#[test]
fn missing_factory_or_span_fails_open() {
    let mut cfg = classic_jsx_config("h", "Frag");
    cfg.jsx.factory = None;
    cfg.jsx.fragment_factory = None;
    let element = UnresolvedReference::JsxElement { name_span: Some(Span { start: 1, end: 4 }) };
    let fragment = UnresolvedReference::JsxFragment { l_angle_span: Some(Span { start: 0, end: 1 }) };
    assert!(flagged_as(&classify(&element, &cfg)).is_none());
    assert!(flagged_as(&classify(&fragment, &cfg)).is_none());

    let cfg = classic_jsx_config("h", "Frag");
    let spanless_element = UnresolvedReference::JsxElement { name_span: None };
    let spanless_fragment = UnresolvedReference::JsxFragment { l_angle_span: None };
    assert!(flagged_as(&classify(&spanless_element, &cfg)).is_none());
    assert!(flagged_as(&classify(&spanless_fragment, &cfg)).is_none());
}

#[test]
fn run_collects_flags_in_input_order() {
    let cfg = default_config(SourceType::JavaScript);
    let references = vec![
        ident("foobar", 0, 6),
        ident("Array", 8, 13),
        ident("quux", 15, 19),
    ];
    let flags = run(&references, &cfg);
    assert_eq!(flags.len(), 2);
    assert_eq!(flags[0].span, Span { start: 0, end: 6 });
    assert_eq!(flags[0].display_name, "foobar");
    assert_eq!(flags[1].span, Span { start: 15, end: 19 });
    assert_eq!(flags[1].display_name, "quux");
}

#[test]
fn repeated_names_are_flagged_once_per_occurrence() {
    let cfg = default_config(SourceType::JavaScript);
    let references = vec![ident("foobar", 0, 6), ident("foobar", 10, 16)];
    let flags = run(&references, &cfg);
    assert_eq!(flags.len(), 2);
    assert_eq!(flags[0].span, Span { start: 0, end: 6 });
    assert_eq!(flags[1].span, Span { start: 10, end: 16 });
}

#[test]
fn rerun_yields_identical_flags() {
    let mut cfg = default_config(SourceType::JavaScript);
    cfg.allow_list = vec!["allowed".to_string()];
    let references = vec![
        ident("foobar", 0, 6),
        ident("allowed", 8, 15),
        ident("PromiseLike", 17, 28),
        UnresolvedReference::JsxElement { name_span: Some(Span { start: 30, end: 33 }) },
    ];
    let first = run(&references, &cfg);
    let second = run(&references, &cfg);
    assert_eq!(first, second);
}
