//! The data the classifier works on: the unresolved references the
//! semantic resolver produced, the analysis configuration, and the
//! classification it yields.
//!
//! A reference carries, as plain values, exactly what the classification
//! rules read from the syntax tree: the identifier token (text and span),
//! whether the identifier is the operand of a type reference under an
//! `as`-style const assertion, and the kinds of its syntactic ancestors.
//! Each exec type has a mathematical view; the contracts in
//! [`crate::classify`] are stated over those views.

use vstd::prelude::*;

verus! {

/// A half-open byte range in the source text.
#[derive(Clone, Copy, PartialEq, Eq, Structural, Debug)]
pub struct Span {
    pub start: u32,
    pub end: u32,
}

/// What one syntactic ancestor of a reference is, as far as the
/// `arguments` exemption cares: an arrow function, some other
/// function-like construct (which introduces the implicit `arguments`
/// binding), or a node that is not function-like at all.
#[derive(Clone, Copy, PartialEq, Eq, Structural, Debug)]
pub enum AncestorKind {
    ArrowFunction,
    OtherFunction,
    NotAFunction,
}

/// Whether the analyzed file is JavaScript or TypeScript.  TypeScript
/// additionally implies that the TypeScript ambient table applies.
#[derive(Clone, Copy, PartialEq, Eq, Structural, Debug)]
pub enum SourceType {
    JavaScript,
    TypeScript,
}

/// The JSX compilation mode: classic lowers elements to calls of the
/// configured factory functions; automatic imports its runtime implicitly.
#[derive(Clone, Copy, PartialEq, Eq, Structural, Debug)]
pub enum JsxRuntimeMode {
    Classic,
    Automatic,
}

/// An identifier token: its text and its trimmed source span.
pub struct IdentifierToken {
    pub text: String,
    pub span: Span,
}

/// Mathematical view of an identifier token.
pub struct TokenView {
    pub text: Seq<char>,
    pub span: Span,
}

impl View for IdentifierToken {
    type V = TokenView;

    open spec fn view(&self) -> TokenView {
        TokenView { text: self.text@, span: self.span }
    }
}

/// A use-site that the semantic resolver could not bind to any
/// declaration.  The three kinds form a closed set; no other kind of
/// reference is ever flagged.  Optional fields model data the resolver
/// may fail to supply (a missing token, a missing span); classification
/// fails open on those.
pub enum UnresolvedReference {
    /// A plain identifier reference.
    Identifier {
        /// The identifier's value token, if the tree yields one.
        token: Option<IdentifierToken>,
        /// Whether the identifier is the operand of a type reference that
        /// is itself the target of an `as`-style const assertion.
        under_const_assertion: bool,
        /// The kinds of the syntactic ancestors of the identifier,
        /// innermost first.
        ancestors: Vec<AncestorKind>,
    },
    /// The name of a JSX element, `<Foo/>`, with the span of its name
    /// token.
    JsxElement { name_span: Option<Span> },
    /// A JSX fragment marker, `<>...</>`, with the span of its opening
    /// angle bracket.
    JsxFragment { l_angle_span: Option<Span> },
}

/// Mathematical view of an unresolved reference.
pub enum ReferenceView {
    Identifier { token: Option<TokenView>, under_const_assertion: bool, ancestors: Seq<AncestorKind> },
    JsxElement { name_span: Option<Span> },
    JsxFragment { l_angle_span: Option<Span> },
}

impl View for UnresolvedReference {
    type V = ReferenceView;

    open spec fn view(&self) -> ReferenceView {
        match self {
            UnresolvedReference::Identifier { token, under_const_assertion, ancestors } => (
                ReferenceView::Identifier {
                    token: match token {
                        Some(t) => Some(t@),
                        None => None,
                    },
                    under_const_assertion: *under_const_assertion,
                    ancestors: ancestors@,
                }
            ),
            UnresolvedReference::JsxElement { name_span } => (
                ReferenceView::JsxElement { name_span: *name_span }
            ),
            UnresolvedReference::JsxFragment { l_angle_span } => (
                ReferenceView::JsxFragment { l_angle_span: *l_angle_span }
            ),
        }
    }
}

/// The JSX runtime configuration, supplied externally and constant for
/// the run.  Factory names are optional: when one is absent, the
/// corresponding references resolve rather than flag.
pub struct JsxConfig {
    pub mode: JsxRuntimeMode,
    pub factory: Option<String>,
    pub fragment_factory: Option<String>,
}

/// Mathematical view of the JSX runtime configuration.
pub struct JsxConfigView {
    pub mode: JsxRuntimeMode,
    pub factory: Option<Seq<char>>,
    pub fragment_factory: Option<Seq<char>>,
}

impl View for JsxConfig {
    type V = JsxConfigView;

    open spec fn view(&self) -> JsxConfigView {
        JsxConfigView {
            mode: self.mode,
            factory: match &self.factory {
                Some(f) => Some(f@),
                None => None,
            },
            fragment_factory: match &self.fragment_factory {
                Some(f) => Some(f@),
                None => None,
            },
        }
    }
}

/// Everything the classifier consults besides the reference itself, as
/// one immutable value: the user allow-list of additional globals, the
/// source type, and the JSX runtime configuration.
pub struct AnalysisConfig {
    pub allow_list: Vec<String>,
    pub source_type: SourceType,
    pub jsx: JsxConfig,
}

/// Mathematical view of the analysis configuration.
pub struct ConfigView {
    pub allow_list: Seq<Seq<char>>,
    pub source_type: SourceType,
    pub jsx: JsxConfigView,
}

impl View for AnalysisConfig {
    type V = ConfigView;

    open spec fn view(&self) -> ConfigView {
        ConfigView {
            allow_list: Seq::new(self.allow_list@.len(), |i: int| self.allow_list@[i]@),
            source_type: self.source_type,
            jsx: self.jsx@,
        }
    }
}

/// The outcome of classifying one reference: either it is legitimate and
/// needs no report, or it is flagged with the span to report and the name
/// to display.  The display name is the identifier's own text for plain
/// identifiers, but the configured factory name for JSX flags.
pub enum Classification {
    Resolved,
    Flagged { span: Span, display_name: String },
}

/// Mathematical view of a classification.
pub enum ClassificationView {
    Resolved,
    Flagged { span: Span, display_name: Seq<char> },
}

impl View for Classification {
    type V = ClassificationView;

    open spec fn view(&self) -> ClassificationView {
        match self {
            Classification::Resolved => ClassificationView::Resolved,
            Classification::Flagged { span, display_name } => (
                ClassificationView::Flagged { span: *span, display_name: display_name@ }
            ),
        }
    }
}

/// One flagged occurrence, as handed to the diagnostic emitter: the span
/// to report and the name to display.
#[derive(PartialEq, Eq, Debug)]
pub struct Flag {
    pub span: Span,
    pub display_name: String,
}

/// Mathematical view of a flag.
pub struct FlagView {
    pub span: Span,
    pub display_name: Seq<char>,
}

impl View for Flag {
    type V = FlagView;

    open spec fn view(&self) -> FlagView {
        FlagView { span: self.span, display_name: self.display_name@ }
    }
}

} // verus!
