//! Diagnostic records: what an analysis reports about one node.

use vstd::prelude::*;
use vstd::std_specs::cmp::PartialEqSpecImpl;
use crate::expr::Span;

verus! {

/// How severely a finding is reported.
#[derive(Clone, Copy, Debug, PartialEq, Eq, Structural)]
pub enum Level {
    Allow,
    Warn,
    Deny,
    Forbid,
}

/// The lints that the analyses report.
#[derive(Clone, Copy, Debug, PartialEq, Eq, Structural)]
pub enum Lint {
    /// A conditional whose branches are plain boolean literals.
    NeedlessBool,
    /// An equality comparison against a boolean literal.
    BoolComparison,
    /// A transmute between equal types, or one that an ordinary cast can do.
    UselessTransmute,
    /// A transmute that cannot be right on any target.
    WrongTransmute,
    /// A transmute between a type and a pointer to that type.
    CrosspointerTransmute,
    /// A transmute from a raw pointer to a reference.
    TransmutePtrToRef,
}

/// The name of [`Lint::NeedlessBool`].
pub const NEEDLESS_BOOL_NAME: &'static str = "NEEDLESS_BOOL";

/// The name of [`Lint::BoolComparison`].
pub const BOOL_COMPARISON_NAME: &'static str = "BOOL_COMPARISON";

/// The name of [`Lint::UselessTransmute`].
pub const USELESS_TRANSMUTE_NAME: &'static str = "USELESS_TRANSMUTE";

/// The name of [`Lint::WrongTransmute`].
pub const WRONG_TRANSMUTE_NAME: &'static str = "WRONG_TRANSMUTE";

/// The name of [`Lint::CrosspointerTransmute`].
pub const CROSSPOINTER_TRANSMUTE_NAME: &'static str = "CROSSPOINTER_TRANSMUTE";

/// The name of [`Lint::TransmutePtrToRef`].
pub const TRANSMUTE_PTR_TO_REF_NAME: &'static str = "TRANSMUTE_PTR_TO_REF";

/// What [`Lint::NeedlessBool`] looks for.
pub const NEEDLESS_BOOL_DESC: &'static str =
    "if-statements with plain booleans in the then- and else-clause, e.g. `if p { true } else { false }`";

/// What [`Lint::BoolComparison`] looks for.
pub const BOOL_COMPARISON_DESC: &'static str =
    "comparing a variable to a boolean, e.g. `if x == true`";

/// What [`Lint::UselessTransmute`] looks for.
pub const USELESS_TRANSMUTE_DESC: &'static str =
    "transmutes that have the same to and from types or could be a cast/coercion";

/// What [`Lint::WrongTransmute`] looks for.
pub const WRONG_TRANSMUTE_DESC: &'static str =
    "transmutes that are confusing at best, undefined behaviour at worst and always useless";

/// What [`Lint::CrosspointerTransmute`] looks for.
pub const CROSSPOINTER_TRANSMUTE_DESC: &'static str =
    "transmutes that have to or from types that are a pointer to the other";

/// What [`Lint::TransmutePtrToRef`] looks for.
pub const TRANSMUTE_PTR_TO_REF_DESC: &'static str =
    "transmutes from a pointer to a reference type";

impl Lint {
    /// The name under which the lint is registered.
    pub open spec fn name_text(self) -> Seq<char> {
        match self {
            Lint::NeedlessBool => NEEDLESS_BOOL_NAME@,
            Lint::BoolComparison => BOOL_COMPARISON_NAME@,
            Lint::UselessTransmute => USELESS_TRANSMUTE_NAME@,
            Lint::WrongTransmute => WRONG_TRANSMUTE_NAME@,
            Lint::CrosspointerTransmute => CROSSPOINTER_TRANSMUTE_NAME@,
            Lint::TransmutePtrToRef => TRANSMUTE_PTR_TO_REF_NAME@,
        }
    }

    /// What the lint looks for, in one sentence.
    pub open spec fn description_text(self) -> Seq<char> {
        match self {
            Lint::NeedlessBool => NEEDLESS_BOOL_DESC@,
            Lint::BoolComparison => BOOL_COMPARISON_DESC@,
            Lint::UselessTransmute => USELESS_TRANSMUTE_DESC@,
            Lint::WrongTransmute => WRONG_TRANSMUTE_DESC@,
            Lint::CrosspointerTransmute => CROSSPOINTER_TRANSMUTE_DESC@,
            Lint::TransmutePtrToRef => TRANSMUTE_PTR_TO_REF_DESC@,
        }
    }

    /// The level at which the lint reports unless it is configured otherwise:
    /// every lint here warns.
    pub open spec fn level(self) -> Level {
        Level::Warn
    }

    /// The name under which the lint is registered.
    pub fn name(self) -> (r: &'static str)
        ensures
            r@ == self.name_text(),
    {
        match self {
            Lint::NeedlessBool => NEEDLESS_BOOL_NAME,
            Lint::BoolComparison => BOOL_COMPARISON_NAME,
            Lint::UselessTransmute => USELESS_TRANSMUTE_NAME,
            Lint::WrongTransmute => WRONG_TRANSMUTE_NAME,
            Lint::CrosspointerTransmute => CROSSPOINTER_TRANSMUTE_NAME,
            Lint::TransmutePtrToRef => TRANSMUTE_PTR_TO_REF_NAME,
        }
    }

    /// What the lint looks for, in one sentence.
    pub fn description(self) -> (r: &'static str)
        ensures
            r@ == self.description_text(),
    {
        match self {
            Lint::NeedlessBool => NEEDLESS_BOOL_DESC,
            Lint::BoolComparison => BOOL_COMPARISON_DESC,
            Lint::UselessTransmute => USELESS_TRANSMUTE_DESC,
            Lint::WrongTransmute => WRONG_TRANSMUTE_DESC,
            Lint::CrosspointerTransmute => CROSSPOINTER_TRANSMUTE_DESC,
            Lint::TransmutePtrToRef => TRANSMUTE_PTR_TO_REF_DESC,
        }
    }

    /// The level at which the lint reports unless it is configured otherwise.
    pub fn default_level(self) -> (r: Level)
        ensures
            r == self.level(),
    {
        Level::Warn
    }
}

/// A replacement for the text at the diagnostic's span.
#[derive(Debug)]
pub struct Suggestion {
    /// What introduces the replacement to the reader.
    pub help: String,
    /// The text to put in place of the text at the span.
    pub replacement: String,
}

/// One finding about one node.
#[derive(Debug)]
pub struct Diagnostic {
    /// The lint that found it.
    pub lint: Lint,
    /// How severely it is reported.
    pub level: Level,
    /// The node that it is about.
    pub span: Span,
    /// What was found.
    pub message: String,
    /// A replacement for the node, where one is offered.
    pub suggestion: Option<Suggestion>,
}

/// The mathematical model of a [`Suggestion`].
pub struct SuggestionView {
    pub help: Seq<char>,
    pub replacement: Seq<char>,
}

/// The mathematical model of a [`Diagnostic`].
pub struct DiagnosticView {
    pub lint: Lint,
    pub level: Level,
    pub span: Span,
    pub message: Seq<char>,
    pub suggestion: Option<SuggestionView>,
}

impl View for Suggestion {
    type V = SuggestionView;

    open spec fn view(&self) -> SuggestionView {
        SuggestionView { help: self.help@, replacement: self.replacement@ }
    }
}

impl DeepView for Suggestion {
    type V = SuggestionView;

    open spec fn deep_view(&self) -> SuggestionView {
        self@
    }
}

impl View for Diagnostic {
    type V = DiagnosticView;

    open spec fn view(&self) -> DiagnosticView {
        DiagnosticView {
            lint: self.lint,
            level: self.level,
            span: self.span,
            message: self.message@,
            suggestion: match self.suggestion {
                Some(s) => Some(s@),
                None => None,
            },
        }
    }
}

impl DeepView for Diagnostic {
    type V = DiagnosticView;

    open spec fn deep_view(&self) -> DiagnosticView {
        self@
    }
}

impl PartialEq for Suggestion {
    /// Two suggestions are equal when they read the same.
    fn eq(&self, other: &Suggestion) -> (r: bool) {
        self.help == other.help && self.replacement == other.replacement
    }
}

impl PartialEqSpecImpl for Suggestion {
    open spec fn obeys_eq_spec() -> bool {
        true
    }

    open spec fn eq_spec(&self, other: &Suggestion) -> bool {
        self@ == other@
    }
}

impl Eq for Suggestion {}

impl PartialEq for Diagnostic {
    /// Two diagnostics are equal when they say the same of the same node:
    /// field by field, with texts compared by what they read.
    fn eq(&self, other: &Diagnostic) -> (r: bool) {
        self.lint == other.lint && self.level == other.level && self.span == other.span
            && self.message == other.message && match (&self.suggestion, &other.suggestion) {
            (Some(a), Some(b)) => a.eq(b),
            (None, None) => true,
            _ => false,
        }
    }
}

impl PartialEqSpecImpl for Diagnostic {
    open spec fn obeys_eq_spec() -> bool {
        true
    }

    open spec fn eq_spec(&self, other: &Diagnostic) -> bool {
        self@ == other@
    }
}

impl Eq for Diagnostic {}

impl Clone for Suggestion {
    fn clone(&self) -> (r: Suggestion)
        ensures
            r@ == self@,
    {
        Suggestion { help: self.help.clone(), replacement: self.replacement.clone() }
    }
}

impl Clone for Diagnostic {
    fn clone(&self) -> (r: Diagnostic)
        ensures
            r@ == self@,
    {
        Diagnostic {
            lint: self.lint,
            level: self.level,
            span: self.span,
            message: self.message.clone(),
            suggestion: match &self.suggestion {
                Some(s) => Some(s.clone()),
                None => None,
            },
        }
    }
}

impl DiagnosticView {
    /// A finding of `lint` about the node at `span`, at the lint's own level
    /// and without a suggestion.
    pub open spec fn new(lint: Lint, span: Span, message: Seq<char>) -> DiagnosticView {
        DiagnosticView { lint, level: lint.level(), span, message, suggestion: None }
    }

    /// The same finding, with a replacement for the node.
    pub open spec fn suggest(self, help: Seq<char>, replacement: Seq<char>) -> DiagnosticView {
        DiagnosticView { suggestion: Some(SuggestionView { help, replacement }), ..self }
    }
}

/// The replacement that a report offers: none where nothing is reported,
/// or what is reported comes without a suggestion.
pub open spec fn replacement(report: Option<DiagnosticView>) -> Option<Seq<char>> {
    match report {
        Some(found) => match found.suggestion {
            Some(suggestion) => Some(suggestion.replacement),
            None => None,
        },
        None => None,
    }
}

impl Diagnostic {
    /// A finding of `lint` about the node at `span`, at the lint's own level
    /// and without a suggestion.
    pub fn new(lint: Lint, span: Span, message: String) -> (d: Diagnostic)
        ensures
            d@ == DiagnosticView::new(lint, span, message@),
    {
        Diagnostic { lint, level: lint.default_level(), span, message, suggestion: None }
    }

    /// The same finding, with a replacement for the node in place of the
    /// one it had, if any.
    pub fn suggest(self, help: String, replacement: String) -> (d: Diagnostic)
        ensures
            d@ == self@.suggest(help@, replacement@),
    {
        Diagnostic {
            lint: self.lint,
            level: self.level,
            span: self.span,
            message: self.message,
            suggestion: Some(Suggestion { help, replacement }),
        }
    }
}

} // verus!
