//! Torrent ingestion: a message with an attached `.torrent` file has the file
//! handed to the torrent daemon, and is answered with what the daemon made of
//! it.

use vstd::prelude::*;
use crate::error::{BotError, BotErrorView, ErrorKind};
use crate::handlers::{Effect, EffectView, Event, EventView, Step, conclude, conclusion, unexpected, unexpected_event};
use crate::http::{Body, BodyView, Header, HeaderView, HttpRequest, HttpRequestView, Verb};
use crate::outside::{base64_encode, base64_standard, json_quote, json_string_literal};
use crate::telegram_api::{Message, MessageView, Origin, answer, origin_of};
use crate::text::{ends_with, join2, same_text};

verus! {

/// What the daemon did with a torrent.
#[derive(Clone, Debug, PartialEq, Eq)]
pub enum ResponseArguments {
    /// The torrent was already known.
    TorrentDuplicate { id: Option<i32>, name: String },
    /// The torrent was accepted.
    TorrentAdded { id: Option<i32>, name: String },
}

/// The answer of the daemon to a request, decoded.
#[derive(Clone, Debug, PartialEq, Eq)]
pub struct Response {
    pub result: String,
    pub arguments: ResponseArguments,
}

/// The session header of an answer of the daemon.
#[derive(Clone, Debug, PartialEq, Eq)]
pub enum SessionHeader {
    /// The answer has no such header.
    Absent,
    /// The answer has the header, and its value is not text.
    Unreadable,
    /// The session token the daemon hands out.
    Token(String),
}

/// What the session protocol reads of an answer of the daemon: the status, the
/// session header, and the body if it could be decoded.
#[derive(Clone, Debug, PartialEq, Eq)]
pub struct DaemonReply {
    pub status: u16,
    pub session: SessionHeader,
    pub response: Option<Response>,
}

pub enum ResponseArgumentsView {
    TorrentDuplicate { id: Option<int>, name: Seq<char> },
    TorrentAdded { id: Option<int>, name: Seq<char> },
}

/// The number the daemon gave a torrent, if it gave one.
pub open spec fn number_of(id: Option<i32>) -> Option<int> {
    match id {
        Some(n) => Some(n as int),
        None => None,
    }
}

/// What the daemon did with a torrent, by the tag of its answer: `None` for a
/// tag that is neither of the two known ones.
pub open spec fn arguments_by_tag(tag: Seq<char>, id: Option<int>, name: Seq<char>) -> Option<
    ResponseArgumentsView,
> {
    if tag == "torrent-added"@ {
        Some(ResponseArgumentsView::TorrentAdded { id, name })
    } else if tag == "torrent-duplicate"@ {
        Some(ResponseArgumentsView::TorrentDuplicate { id, name })
    } else {
        None
    }
}

impl ResponseArguments {
    /// Reads what the daemon did from the tag of its answer.
    pub fn tagged(tag: &str, id: Option<i32>, name: String) -> (r: Option<ResponseArguments>)
        ensures
            r.deep_view() == arguments_by_tag(tag@, number_of(id), name@),
    {
        if same_text(tag, "torrent-added") {
            Some(ResponseArguments::TorrentAdded { id, name })
        } else if same_text(tag, "torrent-duplicate") {
            Some(ResponseArguments::TorrentDuplicate { id, name })
        } else {
            None
        }
    }
}

pub struct ResponseView {
    pub result: Seq<char>,
    pub arguments: ResponseArgumentsView,
}

pub enum SessionHeaderView {
    Absent,
    Unreadable,
    Token(Seq<char>),
}

pub struct DaemonReplyView {
    pub status: int,
    pub session: SessionHeaderView,
    pub response: Option<ResponseView>,
}

impl DeepView for ResponseArguments {
    type V = ResponseArgumentsView;

    open spec fn deep_view(&self) -> ResponseArgumentsView {
        match self {
            ResponseArguments::TorrentDuplicate { id, name } => ResponseArgumentsView::TorrentDuplicate {
                id: number_of(*id),
                name: name@,
            },
            ResponseArguments::TorrentAdded { id, name } => ResponseArgumentsView::TorrentAdded {
                id: number_of(*id),
                name: name@,
            },
        }
    }
}

impl View for ResponseArguments {
    type V = ResponseArgumentsView;

    open spec fn view(&self) -> ResponseArgumentsView {
        self.deep_view()
    }
}

impl DeepView for Response {
    type V = ResponseView;

    open spec fn deep_view(&self) -> ResponseView {
        ResponseView { result: self.result@, arguments: self.arguments@ }
    }
}

impl View for Response {
    type V = ResponseView;

    open spec fn view(&self) -> ResponseView {
        self.deep_view()
    }
}

impl DeepView for SessionHeader {
    type V = SessionHeaderView;

    open spec fn deep_view(&self) -> SessionHeaderView {
        match self {
            SessionHeader::Absent => SessionHeaderView::Absent,
            SessionHeader::Unreadable => SessionHeaderView::Unreadable,
            SessionHeader::Token(token) => SessionHeaderView::Token(token@),
        }
    }
}

impl View for SessionHeader {
    type V = SessionHeaderView;

    open spec fn view(&self) -> SessionHeaderView {
        self.deep_view()
    }
}

impl DeepView for DaemonReply {
    type V = DaemonReplyView;

    open spec fn deep_view(&self) -> DaemonReplyView {
        DaemonReplyView {
            status: self.status as int,
            session: self.session@,
            response: self.response.deep_view(),
        }
    }
}

impl View for DaemonReply {
    type V = DaemonReplyView;

    open spec fn view(&self) -> DaemonReplyView {
        self.deep_view()
    }
}

/// Which sending of the request an answer belongs to.
#[derive(Clone, Copy, Debug, PartialEq, Eq, Structural)]
pub enum Attempt {
    /// The request as first sent, without a session token.
    First,
    /// The request as sent again, with the token the daemon asked for.
    Retry,
}

/// What the session protocol makes of an answer.
#[derive(Clone, Debug, PartialEq, Eq)]
pub enum Verdict {
    /// The answer is final and says what the daemon did.
    Success(Response),
    /// The daemon asks for the request to be sent again with this token.
    NeedsRetry { token: String },
    /// The answer is final and is a failure.
    Failure(BotError),
}

pub enum VerdictView {
    Success(ResponseView),
    NeedsRetry { token: Seq<char> },
    Failure(BotErrorView),
}

impl DeepView for Verdict {
    type V = VerdictView;

    open spec fn deep_view(&self) -> VerdictView {
        match self {
            Verdict::Success(response) => VerdictView::Success(response@),
            Verdict::NeedsRetry { token } => VerdictView::NeedsRetry { token: token@ },
            Verdict::Failure(e) => VerdictView::Failure(e@),
        }
    }
}

impl View for Verdict {
    type V = VerdictView;

    open spec fn view(&self) -> VerdictView {
        self.deep_view()
    }
}

/// The status by which the daemon refuses a request for want of a session.
pub const CONFLICT: u16 = 409;

/// The failure for a session header that is not text.
pub open spec fn unreadable_session() -> BotErrorView {
    BotErrorView { kind: ErrorKind::Decode, detail: "session id is not text"@ }
}

/// The failure for a final answer whose status is not a success.
pub open spec fn refused_by_daemon() -> BotErrorView {
    BotErrorView { kind: ErrorKind::Transport, detail: "transmission api answered with a failure status"@ }
}

/// The failure for a final answer whose body cannot be decoded.
pub open spec fn undecodable_answer() -> BotErrorView {
    BotErrorView { kind: ErrorKind::Decode, detail: "Failed to parse result for request"@ }
}

/// What a final answer amounts to: the decoded body when the status is a
/// success and the body could be decoded, a failure otherwise.
pub open spec fn final_verdict(reply: DaemonReplyView) -> VerdictView {
    if 200 <= reply.status < 300 {
        match reply.response {
            Some(response) => VerdictView::Success(response),
            None => VerdictView::Failure(undecodable_answer()),
        }
    } else {
        VerdictView::Failure(refused_by_daemon())
    }
}

/// The session protocol.  An answer to the first sending with the conflict
/// status and a session token asks for one more sending, with that token.
/// Every other answer is final: any answer to the second sending, and any
/// answer to the first that is no conflict or names no token.
pub open spec fn session_verdict(attempt: Attempt, reply: DaemonReplyView) -> VerdictView {
    if attempt == Attempt::First && reply.status == 409 {
        match reply.session {
            SessionHeaderView::Token(token) => VerdictView::NeedsRetry { token },
            SessionHeaderView::Unreadable => VerdictView::Failure(unreadable_session()),
            SessionHeaderView::Absent => final_verdict(reply),
        }
    } else {
        final_verdict(reply)
    }
}

/// The body of the request that hands a torrent to the daemon, given the
/// content of the torrent file as base64 text.
pub open spec fn torrent_add_json(metainfo: Seq<char>) -> Seq<char> {
    "{\"method\":\"torrent-add\",\"arguments\":{\"metainfo\":"@ + json_string_literal(metainfo)
        + "}}"@
}

/// The failure for a torrent file too large to be written as base64.
pub open spec fn oversized_torrent() -> BotErrorView {
    BotErrorView { kind: ErrorKind::Validation, detail: "torrent file is too large"@ }
}

/// The failure for a request that could not be written as JSON.
pub open spec fn unwritable_request() -> BotErrorView {
    BotErrorView { kind: ErrorKind::Decode, detail: "Failed to serialize request"@ }
}

/// The request that carries `body` to the daemon at `address`, with the
/// session token attached if there is one.
pub open spec fn daemon_request(
    address: Seq<char>,
    body: Seq<char>,
    session_id: Option<Seq<char>>,
) -> HttpRequestView {
    HttpRequestView {
        verb: Verb::Post,
        url: address,
        headers: match session_id {
            Some(token) => seq![HeaderView { name: "X-Transmission-Session-Id"@, value: token }],
            None => Seq::empty(),
        },
        body: BodyView::Text(body),
    }
}

/// The client of the torrent daemon.
#[derive(Clone, Debug, PartialEq, Eq)]
pub struct TransmissionClient {
    transmission_address: String,
}

impl TransmissionClient {
    /// The address of the daemon.
    pub closed spec fn address(&self) -> Seq<char> {
        self.transmission_address@
    }

    pub fn new(transmission_address: String) -> (r: TransmissionClient)
        ensures
            r.address() == transmission_address@,
    {
        TransmissionClient { transmission_address }
    }

    /// The request that carries `body`, with the session token if there is one.
    pub fn request(&self, body: &str, session_id: Option<&str>) -> (r: HttpRequest)
        ensures
            r@ == daemon_request(
                self.address(),
                body@,
                match session_id {
                    Some(token) => Some(token@),
                    None => None,
                },
            ),
    {
        let mut headers: Vec<Header> = Vec::new();
        match session_id {
            Some(token) => {
                headers.push(
                    Header {
                        name: String::from_str("X-Transmission-Session-Id"),
                        value: String::from_str(token),
                    },
                );
                assert(headers.deep_view() =~= seq![
                    HeaderView { name: "X-Transmission-Session-Id"@, value: token@ },
                ]);
            },
            None => {
                assert(headers.deep_view() =~= Seq::<HeaderView>::empty());
            },
        }
        HttpRequest {
            verb: Verb::Post,
            url: self.transmission_address.clone(),
            headers,
            body: Body::Text(String::from_str(body)),
        }
    }

    /// Decides what an answer of the daemon means, under the session protocol.
    pub fn req_with_sessions_id_loop(attempt: Attempt, reply: DaemonReply) -> (r: Verdict)
        ensures
            r@ == session_verdict(attempt, reply@),
    {
        let DaemonReply { status, session, response } = reply;
        let conflict = match attempt {
            Attempt::First => status == CONFLICT,
            Attempt::Retry => false,
        };
        if conflict {
            match session {
                SessionHeader::Token(token) => {
                    return Verdict::NeedsRetry { token };
                },
                SessionHeader::Unreadable => {
                    return Verdict::Failure(
                        BotError::new(ErrorKind::Decode, "session id is not text"),
                    );
                },
                SessionHeader::Absent => {},
            }
        }
        if 200 <= status && status < 300 {
            match response {
                Some(response) => Verdict::Success(response),
                None => Verdict::Failure(
                    BotError::new(ErrorKind::Decode, "Failed to parse result for request"),
                ),
            }
        } else {
            Verdict::Failure(
                BotError::new(
                    ErrorKind::Transport,
                    "transmission api answered with a failure status",
                ),
            )
        }
    }

    /// Wraps the JSON string literal of a torrent's base64 text into the body
    /// of the request; `None` stands for a literal that could not be written.
    pub fn request_body(quoted: Option<String>) -> (r: Result<String, BotError>)
        ensures
            match quoted {
                Some(q) => r is Ok && r->Ok_0@
                    == "{\"method\":\"torrent-add\",\"arguments\":{\"metainfo\":"@ + q@ + "}}"@,
                None => r is Err && r->Err_0@ == unwritable_request(),
            },
    {
        match quoted {
            Some(q) => {
                let mut body = String::from_str(
                    "{\"method\":\"torrent-add\",\"arguments\":{\"metainfo\":",
                );
                body.append(q.as_str());
                body.append("}}");
                Ok(body)
            },
            None => Err(BotError::new(ErrorKind::Decode, "Failed to serialize request")),
        }
    }

    /// Whether a torrent file of this length can be written as base64 on this
    /// machine.
    pub open spec fn encodable(len: nat) -> bool {
        len / 3 * 4 + 4 <= usize::MAX
    }

    /// The body of the request that hands the torrent file `file_content` to
    /// the daemon.  A file too large to encode is refused; for every other
    /// file the body is the one of [`torrent_add_json`].
    pub fn torrent_add(file_content: &[u8]) -> (r: Result<String, BotError>)
        ensures
            !Self::encodable(file_content@.len()) ==> r is Err && r->Err_0@ == oversized_torrent(),
            Self::encodable(file_content@.len()) ==> (r matches Ok(body) && body@
                == torrent_add_json(base64_standard(file_content@))),
    {
        if file_content.len() / 3 > (usize::MAX - 4) / 4 {
            return Err(BotError::new(ErrorKind::Validation, "torrent file is too large"));
        }
        let base64_encoded = base64_encode(file_content);
        let quoted = match json_quote(base64_encoded.as_str()) {
            Ok(q) => Some(q),
            Err(_) => None,
        };
        Self::request_body(quoted)
    }
}

/// Where the torrent handler stands with a message.
#[derive(Clone, Debug, PartialEq, Eq)]
pub enum TorrentState {
    /// Waiting to learn where the platform keeps the attached file.
    Locating(Origin),
    /// Waiting for the content of the attached file.
    Fetching(Origin),
    /// Waiting for the daemon to answer the request with this body.
    Posting { origin: Origin, body: String, attempt: Attempt },
    /// The answer to the chat is on its way.
    Replying,
    /// Nothing is left to do.
    Finished,
}

pub enum TorrentStateView {
    Locating(Origin),
    Fetching(Origin),
    Posting { origin: Origin, body: Seq<char>, attempt: Attempt },
    Replying,
    Finished,
}

impl DeepView for TorrentState {
    type V = TorrentStateView;

    open spec fn deep_view(&self) -> TorrentStateView {
        match self {
            TorrentState::Locating(origin) => TorrentStateView::Locating(*origin),
            TorrentState::Fetching(origin) => TorrentStateView::Fetching(*origin),
            TorrentState::Posting { origin, body, attempt } => TorrentStateView::Posting {
                origin: *origin,
                body: body@,
                attempt: *attempt,
            },
            TorrentState::Replying => TorrentStateView::Replying,
            TorrentState::Finished => TorrentStateView::Finished,
        }
    }
}

impl View for TorrentState {
    type V = TorrentStateView;

    open spec fn view(&self) -> TorrentStateView {
        self.deep_view()
    }
}

/// Whether the torrent handler reacts to a message: it carries a document
/// whose file name ends in `.torrent`.
pub open spec fn torrent_trigger(m: MessageView) -> bool {
    m.document matches Some(d) && ".torrent"@.is_suffix_of(d.file_name)
}

/// The first step of the torrent handler on a message.
pub open spec fn torrent_start(m: MessageView) -> (TorrentStateView, EffectView) {
    if torrent_trigger(m) {
        (
            TorrentStateView::Locating(origin_of(m)),
            EffectView::GetFile { file_id: m.document->0.file_id },
        )
    } else {
        (TorrentStateView::Finished, EffectView::Finish)
    }
}

/// What the chat is told about a torrent: that it was added, or that it had
/// been added before, with the name the daemon gave.
pub open spec fn torrent_reply_text(arguments: ResponseArgumentsView) -> Seq<char> {
    match arguments {
        ResponseArgumentsView::TorrentAdded { name, .. } => name + " успешно добавлен"@,
        ResponseArgumentsView::TorrentDuplicate { name, .. } => name + " уже был добавлен ранее"@,
    }
}

/// The step that follows the content of the torrent file.
pub open spec fn torrent_after_content(
    address: Seq<char>,
    origin: Origin,
    bytes: Seq<u8>,
) -> (TorrentStateView, EffectView) {
    if TransmissionClient::encodable(bytes.len()) {
        let body = torrent_add_json(base64_standard(bytes));
        (
            TorrentStateView::Posting { origin, body, attempt: Attempt::First },
            EffectView::PostTorrent(daemon_request(address, body, None)),
        )
    } else {
        (TorrentStateView::Finished, EffectView::Fail(oversized_torrent()))
    }
}

/// The step that follows an answer of the daemon.
pub open spec fn torrent_after_reply(
    address: Seq<char>,
    origin: Origin,
    body: Seq<char>,
    attempt: Attempt,
    reply: DaemonReplyView,
) -> (TorrentStateView, EffectView) {
    match session_verdict(attempt, reply) {
        VerdictView::NeedsRetry { token } => (
            TorrentStateView::Posting { origin, body, attempt: Attempt::Retry },
            EffectView::PostTorrent(daemon_request(address, body, Some(token))),
        ),
        VerdictView::Success(response) => (
            TorrentStateView::Replying,
            EffectView::SendText(answer(origin, torrent_reply_text(response.arguments))),
        ),
        VerdictView::Failure(e) => (TorrentStateView::Finished, EffectView::Fail(e)),
    }
}

/// The step of the torrent handler from a state on an event.  A failed effect
/// ends the handling with that failure; an event that does not answer the
/// effect asked for ends it too.
pub open spec fn torrent_resume(
    address: Seq<char>,
    state: TorrentStateView,
    event: EventView,
) -> (TorrentStateView, EffectView) {
    match (state, event) {
        (TorrentStateView::Finished, _) => (
            TorrentStateView::Finished,
            EffectView::Fail(unexpected_event()),
        ),
        (TorrentStateView::Replying, event) => (TorrentStateView::Finished, conclusion(event)),
        (_, EventView::Failed(e)) => (TorrentStateView::Finished, EffectView::Fail(e)),
        (TorrentStateView::Locating(origin), EventView::FileInfo(file)) => (
            TorrentStateView::Fetching(origin),
            EffectView::DownloadFile { file_path: file.file_path },
        ),
        (TorrentStateView::Fetching(origin), EventView::Content(bytes)) => torrent_after_content(
            address,
            origin,
            bytes,
        ),
        (
            TorrentStateView::Posting { origin, body, attempt },
            EventView::DaemonReply(reply),
        ) => torrent_after_reply(address, origin, body, attempt, reply),
        _ => (TorrentStateView::Finished, EffectView::Fail(unexpected_event())),
    }
}

/// The torrent handler.
#[derive(Clone, Debug, PartialEq, Eq)]
pub struct TorrentHandler {
    pub transmission_client: TransmissionClient,
}

impl TorrentHandler {
    pub fn new(transmission_client: TransmissionClient) -> (r: TorrentHandler)
        ensures
            r.transmission_client == transmission_client,
    {
        TorrentHandler { transmission_client }
    }

    pub fn name(&self) -> (r: String)
        ensures
            r@ == "TransmissionClient"@,
    {
        String::from_str("TransmissionClient")
    }

    /// Looks at a message and says what to do first.
    pub fn process(&self, message: &Message) -> (r: Step<TorrentState>)
        ensures
            (r.state@, r.effect@) == torrent_start(message@),
    {
        match &message.document {
            Some(doc) => {
                if ends_with(doc.file_name.as_str(), ".torrent") {
                    return Step {
                        state: TorrentState::Locating(message.origin()),
                        effect: Effect::GetFile { file_id: doc.file_id.clone() },
                    };
                }
            },
            None => {},
        }
        Step { state: TorrentState::Finished, effect: Effect::Finish }
    }

    /// Builds the answer to the chat for what the daemon did.
    pub fn process_success(origin: Origin, response: Response) -> (r: Effect)
        ensures
            r@ == EffectView::SendText(answer(origin, torrent_reply_text(response@.arguments))),
    {
        let text = match response.arguments {
            ResponseArguments::TorrentAdded { id: _, name } => join2(
                name.as_str(),
                " успешно добавлен",
            ),
            ResponseArguments::TorrentDuplicate { id: _, name } => join2(
                name.as_str(),
                " уже был добавлен ранее",
            ),
        };
        Effect::SendText(origin.reply(text))
    }

    /// Hands the torrent file to the daemon: the first sending of the request.
    pub fn process_torrent(&self, origin: Origin, content: Vec<u8>) -> (r: Step<TorrentState>)
        ensures
            (r.state@, r.effect@) == torrent_after_content(
                self.transmission_client.address(),
                origin,
                content@,
            ),
    {
        match TransmissionClient::torrent_add(content.as_slice()) {
            Ok(body) => {
                let request = self.transmission_client.request(body.as_str(), None);
                Step {
                    state: TorrentState::Posting { origin, body, attempt: Attempt::First },
                    effect: Effect::PostTorrent(request),
                }
            },
            Err(e) => Step { state: TorrentState::Finished, effect: Effect::Fail(e) },
        }
    }

    /// Takes the report of the last effect and says what to do next.
    pub fn resume(&self, state: TorrentState, event: Event) -> (r: Step<TorrentState>)
        ensures
            (r.state@, r.effect@) == torrent_resume(
                self.transmission_client.address(),
                state@,
                event@,
            ),
    {
        match (state, event) {
            (TorrentState::Finished, _) => Step {
                state: TorrentState::Finished,
                effect: Effect::Fail(unexpected()),
            },
            (TorrentState::Replying, event) => Step {
                state: TorrentState::Finished,
                effect: conclude(event),
            },
            (_, Event::Failed(e)) => Step { state: TorrentState::Finished, effect: Effect::Fail(e) },
            (TorrentState::Locating(origin), Event::FileInfo(file)) => Step {
                state: TorrentState::Fetching(origin),
                effect: Effect::DownloadFile { file_path: file.file_path },
            },
            (TorrentState::Fetching(origin), Event::Content(bytes)) => self.process_torrent(
                origin,
                bytes,
            ),
            (TorrentState::Posting { origin, body, attempt }, Event::DaemonReply(reply)) => {
                match TransmissionClient::req_with_sessions_id_loop(attempt, reply) {
                    Verdict::NeedsRetry { token } => {
                        let request = self.transmission_client.request(
                            body.as_str(),
                            Some(token.as_str()),
                        );
                        Step {
                            state: TorrentState::Posting { origin, body, attempt: Attempt::Retry },
                            effect: Effect::PostTorrent(request),
                        }
                    },
                    Verdict::Success(response) => Step {
                        state: TorrentState::Replying,
                        effect: Self::process_success(origin, response),
                    },
                    Verdict::Failure(e) => Step {
                        state: TorrentState::Finished,
                        effect: Effect::Fail(e),
                    },
                }
            },
            _ => Step { state: TorrentState::Finished, effect: Effect::Fail(unexpected()) },
        }
    }
}

/// An answer to the first sending that has the conflict status and names a
/// session token is met by sending the same body again with that token, and
/// whatever answers the second sending is final: the handling then goes on to
/// the reply or ends, and asks the daemon nothing more.
pub proof fn lemma_conflict_is_retried_once(
    address: Seq<char>,
    origin: Origin,
    body: Seq<char>,
    token: Seq<char>,
    first: DaemonReplyView,
    second: DaemonReplyView,
)
    requires
        first.status == 409,
        first.session == SessionHeaderView::Token(token),
    ensures
        torrent_resume(
            address,
            TorrentStateView::Posting { origin, body, attempt: Attempt::First },
            EventView::DaemonReply(first),
        ) == (
            TorrentStateView::Posting { origin, body, attempt: Attempt::Retry },
            EffectView::PostTorrent(daemon_request(address, body, Some(token))),
        ),
        session_verdict(Attempt::Retry, second) == final_verdict(second),
        !(torrent_resume(
            address,
            TorrentStateView::Posting { origin, body, attempt: Attempt::Retry },
            EventView::DaemonReply(second),
        ).1 is PostTorrent),
{
}

/// An answer to the first sending with any status but the conflict status is
/// final: it is used as it is, and nothing is sent again.
pub proof fn lemma_other_status_is_final(
    address: Seq<char>,
    origin: Origin,
    body: Seq<char>,
    first: DaemonReplyView,
)
    requires
        first.status != 409,
    ensures
        session_verdict(Attempt::First, first) == final_verdict(first),
        !(torrent_resume(
            address,
            TorrentStateView::Posting { origin, body, attempt: Attempt::First },
            EventView::DaemonReply(first),
        ).1 is PostTorrent),
{
}

/// The number of effects a handling can still ask for, at most, from a state.
pub open spec fn torrent_steps_left(state: TorrentStateView) -> nat {
    match state {
        TorrentStateView::Locating(_) => 5,
        TorrentStateView::Fetching(_) => 4,
        TorrentStateView::Posting { attempt: Attempt::First, .. } => 3,
        TorrentStateView::Posting { attempt: Attempt::Retry, .. } => 2,
        TorrentStateView::Replying => 1,
        TorrentStateView::Finished => 0,
    }
}

/// Every handling comes to an end: each step either ends it, leaving nothing
/// to resume, or leaves fewer steps to go than there were.  In particular the
/// daemon is asked twice at most.
pub proof fn lemma_torrent_handling_ends(address: Seq<char>, s: TorrentStateView, event: EventView)
    ensures
        ({
            let (next, effect) = torrent_resume(address, s, event);
            if effect.is_final() {
                next is Finished
            } else {
                torrent_steps_left(next) < torrent_steps_left(s)
            }
        }),
{
}

/// The chat is told of a torrent only when the daemon accepted the request:
/// the answer follows a final answer of the daemon with a success status and
/// a body that could be decoded.
pub proof fn lemma_answer_follows_success(address: Seq<char>, s: TorrentStateView, event: EventView)
    requires
        torrent_resume(address, s, event).1 is SendText,
    ensures
        s is Posting,
        event matches EventView::DaemonReply(reply) && 200 <= reply.status < 300
            && reply.response is Some,
{
}

} // verus!
