//! Descriptions of HTTP exchanges.  The library decides what is asked and how
//! an answer is read; whoever owns the network performs the exchange.

use vstd::prelude::*;
use crate::error::{BotError, BotErrorView, ErrorKind};

verus! {

/// The method of a request.
#[derive(Clone, Copy, Debug, PartialEq, Eq, Structural)]
pub enum Verb {
    Get,
    Head,
    Post,
}

/// One header line of a request.
#[derive(Clone, Debug, PartialEq, Eq)]
pub struct Header {
    pub name: String,
    pub value: String,
}

/// What a request carries.
#[derive(Clone, Debug, PartialEq, Eq)]
pub enum Body {
    /// Nothing.
    Empty,
    /// The given text, as it stands.
    Text(String),
    /// A multipart form with one part: the content of the file at `path`, under
    /// the field name `field`.
    FilePart { field: String, path: String },
}

/// A request, ready to be sent.
#[derive(Clone, Debug, PartialEq, Eq)]
pub struct HttpRequest {
    pub verb: Verb,
    pub url: String,
    pub headers: Vec<Header>,
    pub body: Body,
}

pub struct HeaderView {
    pub name: Seq<char>,
    pub value: Seq<char>,
}

pub enum BodyView {
    Empty,
    Text(Seq<char>),
    FilePart { field: Seq<char>, path: Seq<char> },
}

pub struct HttpRequestView {
    pub verb: Verb,
    pub url: Seq<char>,
    pub headers: Seq<HeaderView>,
    pub body: BodyView,
}

impl DeepView for Header {
    type V = HeaderView;

    open spec fn deep_view(&self) -> HeaderView {
        HeaderView { name: self.name@, value: self.value@ }
    }
}

impl View for Header {
    type V = HeaderView;

    open spec fn view(&self) -> HeaderView {
        self.deep_view()
    }
}

impl DeepView for Body {
    type V = BodyView;

    open spec fn deep_view(&self) -> BodyView {
        match self {
            Body::Empty => BodyView::Empty,
            Body::Text(text) => BodyView::Text(text@),
            Body::FilePart { field, path } => BodyView::FilePart { field: field@, path: path@ },
        }
    }
}

impl View for Body {
    type V = BodyView;

    open spec fn view(&self) -> BodyView {
        self.deep_view()
    }
}

impl DeepView for HttpRequest {
    type V = HttpRequestView;

    open spec fn deep_view(&self) -> HttpRequestView {
        HttpRequestView {
            verb: self.verb,
            url: self.url@,
            headers: self.headers.deep_view(),
            body: self.body.deep_view(),
        }
    }
}

impl View for HttpRequest {
    type V = HttpRequestView;

    open spec fn view(&self) -> HttpRequestView {
        self.deep_view()
    }
}

/// A request without headers or body.
pub open spec fn plain_request(verb: Verb, url: Seq<char>) -> HttpRequestView {
    HttpRequestView { verb, url, headers: Seq::empty(), body: BodyView::Empty }
}

impl HttpRequest {
    /// A request for `url` without headers or body.
    pub fn plain(verb: Verb, url: String) -> (r: HttpRequest)
        ensures
            r@ == plain_request(verb, url@),
    {
        let r = HttpRequest { verb, url, headers: Vec::new(), body: Body::Empty };
        assert(r.headers.deep_view() =~= Seq::<HeaderView>::empty());
        r
    }
}

/// How an exchange with an outside service ended.
#[derive(Debug, PartialEq, Eq)]
pub enum Exchange<T> {
    /// The request could not be sent, or no answer came back.
    Unreachable(String),
    /// An answer came back with this status.  `body` is what its body was read
    /// as, or why it could not be read as what was expected.
    Answered { status: u16, body: Result<T, String> },
}

/// Whether a status reports success: the statuses from 200 to 299.
pub open spec fn is_success(status: int) -> bool {
    200 <= status < 300
}

/// The failure for an answer whose status does not report success.
pub open spec fn failure_status() -> BotErrorView {
    BotErrorView { kind: ErrorKind::Transport, detail: "the service answered with a failure status"@ }
}

/// What an exchange amounts to: a transport failure when nothing came back or
/// the status does not report success, whatever the body holds; a decoding
/// failure when the status reports success and the body is not of the
/// expected shape; and otherwise the value read from the body.
pub open spec fn classified<T>(exchange: Exchange<T>) -> Result<T, BotErrorView> {
    match exchange {
        Exchange::Unreachable(detail) => Err(
            BotErrorView { kind: ErrorKind::Transport, detail: detail@ },
        ),
        Exchange::Answered { status, body } => if !is_success(status as int) {
            Err(failure_status())
        } else {
            match body {
                Ok(value) => Ok(value),
                Err(detail) => Err(BotErrorView { kind: ErrorKind::Decode, detail: detail@ }),
            }
        },
    }
}

/// Whether `r` is the outcome `expected`, a failure being known by its kind
/// and detail.
pub open spec fn is_outcome<T>(r: Result<T, BotError>, expected: Result<T, BotErrorView>) -> bool {
    match expected {
        Ok(value) => r == Ok::<T, BotError>(value),
        Err(e) => r is Err && r->Err_0@ == e,
    }
}

/// Turns the end of an exchange into a value or a failure.
pub fn received<T>(exchange: Exchange<T>) -> (r: Result<T, BotError>)
    ensures
        is_outcome(r, classified(exchange)),
{
    match exchange {
        Exchange::Unreachable(detail) => Err(BotError { kind: ErrorKind::Transport, detail }),
        Exchange::Answered { status, body } => {
            if status < 200 || status >= 300 {
                return Err(
                    BotError::new(ErrorKind::Transport, "the service answered with a failure status"),
                );
            }
            match body {
                Ok(value) => Ok(value),
                Err(detail) => Err(BotError { kind: ErrorKind::Decode, detail }),
            }
        },
    }
}

} // verus!
