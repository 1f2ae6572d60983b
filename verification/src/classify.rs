//! The reference classifier: one deterministic, side-effect-free decision
//! per unresolved reference.
//!
//! For identifiers the exemption rules apply in a fixed order — user
//! allow-list, `const` under an `as`-style const assertion, `arguments`
//! inside a non-arrow function, then the built-in global tables — and the
//! first applicable rule wins.  JSX element names and fragment markers are
//! examined only under the classic runtime, where they stand for a call of
//! the configured factory.  The policy fails open: whenever optional data
//! needed to flag is absent, the reference resolves.

use vstd::prelude::*;
use crate::globals::{is_js_global, is_js_global_spec, is_ts_global, is_ts_global_spec};
use crate::model::{
    AnalysisConfig, AncestorKind, Classification, ClassificationView, ConfigView, Flag, FlagView,
    JsxRuntimeMode, ReferenceView, SourceType, Span, TokenView, UnresolvedReference,
};
use crate::text::str_eq;

verus! {

/// Membership of `name` in the user allow-list.
pub open spec fn allow_contains(allow_list: Seq<Seq<char>>, name: Seq<char>) -> bool {
    exists|i: int| 0 <= i < allow_list.len() && allow_list[i] == name
}

/// Whether some syntactic ancestor is a function-like construct other
/// than an arrow function — the scopes at which the implicit `arguments`
/// binding exists.
pub open spec fn has_enclosing_non_arrow_function(ancestors: Seq<AncestorKind>) -> bool {
    exists|i: int| 0 <= i < ancestors.len() && ancestors[i] is OtherFunction
}

/// Membership of `name` in the global tables that apply to the given
/// source type: the JavaScript table always, the TypeScript ambient
/// table only for TypeScript sources.
pub open spec fn is_known_global_spec(name: Seq<char>, source_type: SourceType) -> bool {
    match source_type {
        SourceType::JavaScript => is_js_global_spec(name),
        SourceType::TypeScript => is_js_global_spec(name) || is_ts_global_spec(name),
    }
}

/// View of an optional configured factory name.
pub open spec fn opt_string_view(o: &Option<String>) -> Option<Seq<char>> {
    match o {
        Some(s) => Some(s@),
        None => None,
    }
}

/// Classification of an identifier reference whose token is present,
/// applying the exemption rules in order.
pub open spec fn classify_identifier_spec(
    token: TokenView,
    under_const_assertion: bool,
    ancestors: Seq<AncestorKind>,
    cfg: ConfigView,
) -> ClassificationView {
    if allow_contains(cfg.allow_list, token.text) {
        ClassificationView::Resolved
    } else if token.text == "const"@ && under_const_assertion {
        ClassificationView::Resolved
    } else if token.text == "arguments"@ && has_enclosing_non_arrow_function(ancestors) {
        ClassificationView::Resolved
    } else if is_known_global_spec(token.text, cfg.source_type) {
        ClassificationView::Resolved
    } else {
        ClassificationView::Flagged { span: token.span, display_name: token.text }
    }
}

/// Classification of a JSX element name or fragment marker with the
/// given span, runtime mode, and configured factory name.  Only the
/// classic runtime flags anything, and only when the factory is
/// configured, differs from `React`, and the span is available.
pub open spec fn classify_jsx_spec(
    span: Option<Span>,
    mode: JsxRuntimeMode,
    factory: Option<Seq<char>>,
) -> ClassificationView {
    match mode {
        JsxRuntimeMode::Automatic => ClassificationView::Resolved,
        JsxRuntimeMode::Classic => match factory {
            None => ClassificationView::Resolved,
            Some(f) => if f == "React"@ {
                ClassificationView::Resolved
            } else {
                match span {
                    None => ClassificationView::Resolved,
                    Some(sp) => ClassificationView::Flagged { span: sp, display_name: f },
                }
            },
        },
    }
}

/// The classification of one unresolved reference: a pure function of
/// the reference and the analysis configuration.
pub open spec fn classify_spec(reference: ReferenceView, cfg: ConfigView) -> ClassificationView {
    match reference {
        ReferenceView::Identifier { token, under_const_assertion, ancestors } => match token {
            None => ClassificationView::Resolved,
            Some(tok) => classify_identifier_spec(tok, under_const_assertion, ancestors, cfg),
        },
        ReferenceView::JsxElement { name_span } => classify_jsx_spec(
            name_span,
            cfg.jsx.mode,
            cfg.jsx.factory,
        ),
        ReferenceView::JsxFragment { l_angle_span } => classify_jsx_spec(
            l_angle_span,
            cfg.jsx.mode,
            cfg.jsx.fragment_factory,
        ),
    }
}

/// Membership test against the user allow-list.
pub fn is_allowed(cfg: &AnalysisConfig, name: &str) -> (r: bool)
    ensures
        r == allow_contains(cfg@.allow_list, name@),
{
    let n = cfg.allow_list.len();
    let mut i: usize = 0;
    while i < n
        invariant
            i <= n,
            n == cfg.allow_list.len(),
            forall|j: int| 0 <= j < i ==> cfg.allow_list@[j]@ != name@,
        decreases n - i,
    {
        if str_eq(cfg.allow_list[i].as_str(), name) {
            assert(cfg@.allow_list[i as int] == name@);
            return true;
        }
        i = i + 1;
    }
    assert(forall|k: int| 0 <= k < cfg@.allow_list.len() ==> cfg@.allow_list[k] != name@);
    false
}

/// Whether some ancestor is a function-like construct other than an
/// arrow function.
pub fn in_non_arrow_function(ancestors: &Vec<AncestorKind>) -> (r: bool)
    ensures
        r == has_enclosing_non_arrow_function(ancestors@),
{
    let n = ancestors.len();
    let mut i: usize = 0;
    while i < n
        invariant
            i <= n,
            n == ancestors.len(),
            forall|j: int| 0 <= j < i ==> !(ancestors@[j] is OtherFunction),
        decreases n - i,
    {
        match ancestors[i] {
            AncestorKind::OtherFunction => {
                return true;
            },
            _ => {},
        }
        i = i + 1;
    }
    false
}

/// Membership test against the global tables that apply to the given
/// source type.
pub fn is_global(reference_name: &str, source_type: SourceType) -> (r: bool)
    ensures
        r == is_known_global_spec(reference_name@, source_type),
{
    match source_type {
        SourceType::JavaScript => is_js_global(reference_name),
        SourceType::TypeScript => is_js_global(reference_name) || is_ts_global(reference_name),
    }
}

/// Classification of a JSX element name or fragment marker.
fn classify_jsx(span: Option<Span>, mode: JsxRuntimeMode, factory: &Option<String>) -> (c: Classification)
    ensures
        c@ == classify_jsx_spec(span, mode, opt_string_view(factory)),
{
    match mode {
        JsxRuntimeMode::Automatic => Classification::Resolved,
        JsxRuntimeMode::Classic => match factory {
            None => Classification::Resolved,
            Some(f) => {
                if str_eq(f.as_str(), "React") {
                    Classification::Resolved
                } else {
                    match span {
                        None => Classification::Resolved,
                        Some(sp) => Classification::Flagged { span: sp, display_name: f.clone() },
                    }
                }
            },
        },
    }
}

/// Classify one unresolved reference against the analysis configuration.
/// The result is exactly `classify_spec` of the two inputs.
pub fn classify(reference: &UnresolvedReference, cfg: &AnalysisConfig) -> (c: Classification)
    ensures
        c@ == classify_spec(reference@, cfg@),
{
    match reference {
        UnresolvedReference::Identifier { token, under_const_assertion, ancestors } => match token {
            None => Classification::Resolved,
            Some(tok) => {
                if is_allowed(cfg, tok.text.as_str()) {
                    Classification::Resolved
                } else if str_eq(tok.text.as_str(), "const") && *under_const_assertion {
                    Classification::Resolved
                } else if str_eq(tok.text.as_str(), "arguments") && in_non_arrow_function(ancestors) {
                    Classification::Resolved
                } else if is_global(tok.text.as_str(), cfg.source_type) {
                    Classification::Resolved
                } else {
                    Classification::Flagged { span: tok.span, display_name: tok.text.clone() }
                }
            },
        },
        UnresolvedReference::JsxElement { name_span } => classify_jsx(
            *name_span,
            cfg.jsx.mode,
            &cfg.jsx.factory,
        ),
        UnresolvedReference::JsxFragment { l_angle_span } => classify_jsx(
            *l_angle_span,
            cfg.jsx.mode,
            &cfg.jsx.fragment_factory,
        ),
    }
}

/// Views of a sequence of references.
pub open spec fn refs_view(refs: Seq<UnresolvedReference>) -> Seq<ReferenceView> {
    refs.map_values(|r: UnresolvedReference| r@)
}

/// Views of a sequence of flags.
pub open spec fn flags_view(flags: Seq<Flag>) -> Seq<FlagView> {
    flags.map_values(|f: Flag| f@)
}

/// The ordered sequence of flags that classifying each reference in turn
/// yields: exactly one flag per `Flagged` classification, in input order,
/// nothing for `Resolved` ones.
pub open spec fn flags_spec(refs: Seq<ReferenceView>, cfg: ConfigView) -> Seq<FlagView>
    decreases refs.len(),
{
    if refs.len() == 0 {
        Seq::empty()
    } else {
        flags_spec(refs.drop_last(), cfg) + match classify_spec(refs.last(), cfg) {
            ClassificationView::Resolved => Seq::empty(),
            ClassificationView::Flagged { span, display_name } => seq![
                FlagView { span, display_name },
            ],
        }
    }
}

/// Classify every reference of one file and collect the flagged ones, in
/// input order.  The result is exactly `flags_spec` of the inputs, so two
/// runs over the same references and configuration agree.
pub fn run(references: &Vec<UnresolvedReference>, cfg: &AnalysisConfig) -> (flags: Vec<Flag>)
    ensures
        flags_view(flags@) == flags_spec(refs_view(references@), cfg@),
{
    let mut flags: Vec<Flag> = Vec::new();
    let n = references.len();
    let mut i: usize = 0;
    while i < n
        invariant
            i <= n,
            n == references.len(),
            flags_view(flags@) == flags_spec(refs_view(references@).take(i as int), cfg@),
        decreases n - i,
    {
        let ghost prefix = refs_view(references@).take(i as int);
        let ghost longer = refs_view(references@).take((i + 1) as int);
        proof {
            assert(longer.drop_last() =~= prefix);
            assert(longer.last() == references@[i as int]@);
        }
        let c = classify(&references[i], cfg);
        match c {
            Classification::Resolved => {
                proof {
                    assert(flags_view(flags@) =~= flags_spec(longer, cfg@));
                }
            },
            Classification::Flagged { span, display_name } => {
                flags.push(Flag { span, display_name });
                proof {
                    assert(flags_view(flags@) =~= flags_spec(longer, cfg@));
                }
            },
        }
        i = i + 1;
    }
    proof {
        assert(refs_view(references@).take(n as int) =~= refs_view(references@));
    }
    flags
}

/// An identifier whose text stands in the user allow-list is never
/// flagged, even when it is absent from every built-in table.
pub proof fn lemma_allow_listed_never_flagged(
    token: TokenView,
    under_const_assertion: bool,
    ancestors: Seq<AncestorKind>,
    cfg: ConfigView,
)
    requires
        allow_contains(cfg.allow_list, token.text),
    ensures
        classify_spec(
            (ReferenceView::Identifier { token: Some(token), under_const_assertion, ancestors }),
            cfg,
        ) is Resolved,
{
}

/// The identifier `const`, standing as the operand of a type reference
/// under an `as`-style const assertion, is never flagged, whatever the
/// global tables hold.
pub proof fn lemma_const_assertion_never_flagged(
    token: TokenView,
    ancestors: Seq<AncestorKind>,
    cfg: ConfigView,
)
    requires
        token.text == "const"@,
    ensures
        classify_spec(
            (ReferenceView::Identifier { token: Some(token), under_const_assertion: true, ancestors }),
            cfg,
        ) is Resolved,
{
}

/// The identifier `arguments`, referenced with some enclosing
/// function-like ancestor that is not an arrow function, is never
/// flagged: the implicit `arguments` binding exists at that scope.
pub proof fn lemma_arguments_in_function_never_flagged(
    token: TokenView,
    under_const_assertion: bool,
    ancestors: Seq<AncestorKind>,
    cfg: ConfigView,
)
    requires
        token.text == "arguments"@,
        has_enclosing_non_arrow_function(ancestors),
    ensures
        classify_spec(
            (ReferenceView::Identifier { token: Some(token), under_const_assertion, ancestors }),
            cfg,
        ) is Resolved,
{
}

/// A name the applicable global tables hold is never flagged as an
/// identifier reference.
pub proof fn lemma_known_global_never_flagged(
    token: TokenView,
    under_const_assertion: bool,
    ancestors: Seq<AncestorKind>,
    cfg: ConfigView,
)
    requires
        is_known_global_spec(token.text, cfg.source_type),
    ensures
        classify_spec(
            (ReferenceView::Identifier { token: Some(token), under_const_assertion, ancestors }),
            cfg,
        ) is Resolved,
{
}

/// An identifier absent from both base tables and from the allow-list is
/// flagged at its own span under its own text, provided neither syntactic
/// exemption (`const` under a const assertion, `arguments` inside a
/// non-arrow function) applies.
pub proof fn lemma_unknown_identifier_flagged(
    token: TokenView,
    under_const_assertion: bool,
    ancestors: Seq<AncestorKind>,
    cfg: ConfigView,
)
    requires
        !allow_contains(cfg.allow_list, token.text),
        !is_js_global_spec(token.text),
        !is_ts_global_spec(token.text),
        !(token.text == "const"@ && under_const_assertion),
        !(token.text == "arguments"@ && has_enclosing_non_arrow_function(ancestors)),
    ensures
        classify_spec(
            (ReferenceView::Identifier { token: Some(token), under_const_assertion, ancestors }),
            cfg,
        ) == (ClassificationView::Flagged { span: token.span, display_name: token.text }),
{
}

/// A TypeScript file recognizes the union of the JavaScript and
/// TypeScript tables; a JavaScript file recognizes the JavaScript table
/// alone.
pub proof fn lemma_source_type_tables(name: Seq<char>)
    ensures
        is_known_global_spec(name, SourceType::TypeScript) == (is_js_global_spec(name)
            || is_ts_global_spec(name)),
        is_known_global_spec(name, SourceType::JavaScript) == is_js_global_spec(name),
{
}

/// A name only the TypeScript table holds is resolved in a TypeScript
/// file and flagged in a JavaScript file, all else equal: the same
/// identifier may be flagged in `.js` but resolved in `.ts`.
pub proof fn lemma_ts_only_name_depends_on_source_type(
    token: TokenView,
    under_const_assertion: bool,
    ancestors: Seq<AncestorKind>,
    cfg_js: ConfigView,
    cfg_ts: ConfigView,
)
    requires
        cfg_js.source_type is JavaScript,
        cfg_ts.source_type is TypeScript,
        is_ts_global_spec(token.text),
        !is_js_global_spec(token.text),
        !allow_contains(cfg_js.allow_list, token.text),
        !allow_contains(cfg_ts.allow_list, token.text),
        !(token.text == "const"@ && under_const_assertion),
        !(token.text == "arguments"@ && has_enclosing_non_arrow_function(ancestors)),
    ensures
        classify_spec(
            (ReferenceView::Identifier { token: Some(token), under_const_assertion, ancestors }),
            cfg_ts,
        ) is Resolved,
        classify_spec(
            (ReferenceView::Identifier { token: Some(token), under_const_assertion, ancestors }),
            cfg_js,
        ) == (ClassificationView::Flagged { span: token.span, display_name: token.text }),
{
}

/// Re-running classification over an unchanged reference set and an
/// unchanged configuration yields an identical, order-stable sequence of
/// flags: the flags are a pure function of the inputs.
pub proof fn lemma_rerun_yields_identical_flags(
    refs: Seq<ReferenceView>,
    cfg: ConfigView,
    first: Seq<FlagView>,
    second: Seq<FlagView>,
)
    requires
        first == flags_spec(refs, cfg),
        second == flags_spec(refs, cfg),
    ensures
        first == second,
{
}

} // verus!
