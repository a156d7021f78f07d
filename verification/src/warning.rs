//! What an extractor records when it leaves a function out.

use vstd::prelude::*;

verus! {

/// Why a function was left out.
#[derive(Clone, Debug, PartialEq, Eq)]
pub enum SkipReason {
    /// A parameter is bound by a pattern that is not a plain name.
    UnsupportedPattern,
    /// A parameter, given here as written, is not a type followed by a
    /// name.
    UnparsableParameter(String),
}

/// Mathematical model of a [`SkipReason`].
pub enum SkipReasonView {
    UnsupportedPattern,
    UnparsableParameter(Seq<char>),
}

/// The record of a function that was left out of the result.
#[derive(Clone, Debug, PartialEq, Eq)]
pub struct Warning {
    pub function: String,
    pub reason: SkipReason,
}

/// Mathematical model of a [`Warning`].
pub struct WarningView {
    pub function: Seq<char>,
    pub reason: SkipReasonView,
}

impl View for SkipReason {
    type V = SkipReasonView;

    open spec fn view(&self) -> SkipReasonView {
        match self {
            SkipReason::UnsupportedPattern => SkipReasonView::UnsupportedPattern,
            SkipReason::UnparsableParameter(text) => SkipReasonView::UnparsableParameter(text@),
        }
    }
}

impl View for Warning {
    type V = WarningView;

    open spec fn view(&self) -> WarningView {
        WarningView { function: self.function@, reason: self.reason@ }
    }
}

impl DeepView for Warning {
    type V = WarningView;

    open spec fn deep_view(&self) -> WarningView {
        self.view()
    }
}

/// The line that reports a warning.
pub open spec fn message_of(w: WarningView) -> Seq<char> {
    match w.reason {
        SkipReasonView::UnsupportedPattern => "Skipping function "@ + w.function
            + ": unsupported parameter pattern"@,
        SkipReasonView::UnparsableParameter(text) => "Skipping function "@ + w.function
            + ": unparsable parameter: "@ + text,
    }
}

impl Warning {
    /// The line that reports this warning.
    pub fn message(&self) -> (r: String)
        ensures
            r@ == message_of(self@),
    {
        let mut out = String::from_str("Skipping function ");
        out.append(self.function.as_str());
        match &self.reason {
            SkipReason::UnsupportedPattern => {
                out.append(": unsupported parameter pattern");
            },
            SkipReason::UnparsableParameter(text) => {
                out.append(": unparsable parameter: ");
                out.append(text.as_str());
            },
        }
        out
    }
}

} // verus!
