//! The failures a handler or the platform client can report.

use vstd::prelude::*;

verus! {

/// What went wrong, by the component that failed.
#[derive(Clone, Copy, Debug, PartialEq, Eq, Structural)]
pub enum ErrorKind {
    /// A network or HTTP failure while talking to an outside service.
    Transport,
    /// A response whose body or shape could not be understood.
    Decode,
    /// The download tool ended with a status other than success.
    Subprocess,
    /// Something that had to exist was absent: a stored object, the details of
    /// a video, the identifier inside a link.
    NotFound,
    /// The message lacks what the handler needs, such as its sender.
    Validation,
}

/// A failure with its kind and the detail kept for the log.
#[derive(Clone, Debug, PartialEq, Eq)]
pub struct BotError {
    pub kind: ErrorKind,
    pub detail: String,
}

/// The mathematical value of a [`BotError`].
pub struct BotErrorView {
    pub kind: ErrorKind,
    pub detail: Seq<char>,
}

impl DeepView for BotError {
    type V = BotErrorView;

    open spec fn deep_view(&self) -> BotErrorView {
        BotErrorView { kind: self.kind, detail: self.detail@ }
    }
}

impl View for BotError {
    type V = BotErrorView;

    open spec fn view(&self) -> BotErrorView {
        self.deep_view()
    }
}

impl BotError {
    /// A failure of the given kind whose detail is a copy of `detail`.
    pub fn new(kind: ErrorKind, detail: &str) -> (r: BotError)
        ensures
            r@ == (BotErrorView { kind, detail: detail@ }),
    {
        BotError { kind, detail: String::from_str(detail) }
    }

    /// The detail of the failure, for the log.
    pub fn to_text(&self) -> (r: String)
        ensures
            r@ == self.detail@,
    {
        self.detail.clone()
    }
}

/// The value of a text or a failure.
pub open spec fn text_or_failure(r: Result<String, BotError>) -> Result<Seq<char>, BotErrorView> {
    match r {
        Ok(text) => Ok(text@),
        Err(e) => Err(e@),
    }
}

} // verus!
