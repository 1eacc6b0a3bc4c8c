use vstd::prelude::*;

verus! {

/// The failure kinds of the translation service.
///
/// Every error carries a human-readable description; none is ever
/// swallowed, and none triggers an automatic retry.
#[derive(Debug, PartialEq, Eq)]
pub enum TranslationError {
    /// The prompt template text was malformed at startup; fatal for the
    /// process lifetime.
    TemplateConstruction(String),
    /// A placeholder of the active template had no supplied value; no
    /// model call was attempted.
    MissingParameter(String),
    /// The model runtime failed a whole invocation, or refused to open a
    /// stream, or answered with a malformed response.
    ModelInvocation(String),
    /// The model stream failed after some fragments were already
    /// forwarded; those fragments remain valid, the result is partial.
    StreamInterrupted(String),
    /// The presentation sink rejected a fragment; the stream was aborted.
    SinkUnavailable(String),
}

impl Clone for TranslationError {
    fn clone(&self) -> (r: Self)
        ensures
            r == *self,
    {
        match self {
            TranslationError::TemplateConstruction(d) => TranslationError::TemplateConstruction(
                d.clone(),
            ),
            TranslationError::MissingParameter(d) => TranslationError::MissingParameter(d.clone()),
            TranslationError::ModelInvocation(d) => TranslationError::ModelInvocation(d.clone()),
            TranslationError::StreamInterrupted(d) => TranslationError::StreamInterrupted(
                d.clone(),
            ),
            TranslationError::SinkUnavailable(d) => TranslationError::SinkUnavailable(d.clone()),
        }
    }
}

impl TranslationError {
    /// The description the error was built with.
    pub closed spec fn detail(&self) -> Seq<char> {
        match self {
            TranslationError::TemplateConstruction(d) => d@,
            TranslationError::MissingParameter(d) => d@,
            TranslationError::ModelInvocation(d) => d@,
            TranslationError::StreamInterrupted(d) => d@,
            TranslationError::SinkUnavailable(d) => d@,
        }
    }

    /// A rendering of the error as one line of text, for the caller that
    /// displays failures.
    pub fn describe(&self) -> (r: String)
        ensures
            r@ == self.describe_prefix() + self.detail(),
    {
        match self {
            TranslationError::TemplateConstruction(d) => String::from_str(
                "template construction failed: ",
            ).concat(d.as_str()),
            TranslationError::MissingParameter(d) => String::from_str(
                "missing parameter: ",
            ).concat(d.as_str()),
            TranslationError::ModelInvocation(d) => String::from_str(
                "model invocation failed: ",
            ).concat(d.as_str()),
            TranslationError::StreamInterrupted(d) => String::from_str(
                "stream interrupted: ",
            ).concat(d.as_str()),
            TranslationError::SinkUnavailable(d) => String::from_str(
                "sink unavailable: ",
            ).concat(d.as_str()),
        }
    }

    /// The fixed prefix `describe` puts before the description.
    pub closed spec fn describe_prefix(&self) -> Seq<char> {
        match self {
            TranslationError::TemplateConstruction(_) => "template construction failed: "@,
            TranslationError::MissingParameter(_) => "missing parameter: "@,
            TranslationError::ModelInvocation(_) => "model invocation failed: "@,
            TranslationError::StreamInterrupted(_) => "stream interrupted: "@,
            TranslationError::SinkUnavailable(_) => "sink unavailable: "@,
        }
    }
}

} // verus!
