//! The chat platform: the data it sends and accepts, and the requests of its
//! HTTP interface.  Nothing here touches the network; every call is described
//! as an [`HttpRequest`] for the caller to perform.

use vstd::prelude::*;
use crate::error::{BotError, ErrorKind};
use crate::outside::{json_quote, json_string_literal};
use crate::http::{Body, BodyView, Exchange, Header, HeaderView, HttpRequest, HttpRequestView, Verb, classified, plain_request, received};
use crate::text::{decimal, i64_to_decimal, join2};

verus! {

/// The envelope of every answer of the platform.
#[derive(Clone, Debug, PartialEq, Eq)]
pub struct TelegramResponse<T> {
    pub ok: bool,
    pub result: T,
}

/// One unit of inbound data: an identifier and, possibly, a message.
#[derive(Clone, Debug, PartialEq, Eq)]
pub struct Update {
    pub update_id: i32,
    pub message: Option<Message>,
}

/// A message as received.  It is never changed afterwards.
#[derive(Clone, Debug, PartialEq, Eq)]
pub struct Message {
    pub message_id: i64,
    pub from: Option<User>,
    pub text: Option<String>,
    pub document: Option<Document>,
    pub chat: Chat,
}

/// The chat a message belongs to.
#[derive(Clone, Copy, Debug, PartialEq, Eq, Structural)]
pub struct Chat {
    pub id: i64,
}

/// A file attached to a message.
#[derive(Clone, Debug, PartialEq, Eq)]
pub struct Document {
    pub file_id: String,
    pub file_name: String,
    pub mime_type: String,
}

/// The sender of a message.
#[derive(Clone, Debug, PartialEq, Eq)]
pub struct User {
    pub id: i32,
    pub is_bot: bool,
    pub first_name: String,
    pub last_name: Option<String>,
    pub username: Option<String>,
}

/// Where the platform keeps a file.
#[derive(Clone, Debug, PartialEq, Eq)]
pub struct File {
    pub file_id: String,
    pub file_unique_id: String,
    pub file_size: Option<i32>,
    pub file_path: String,
}

/// A text message to send.
#[derive(Clone, Debug, PartialEq, Eq)]
pub struct SendMessage {
    pub chat_id: String,
    pub text: String,
    pub reply_to_message_id: Option<i64>,
}

pub struct DocumentView {
    pub file_id: Seq<char>,
    pub file_name: Seq<char>,
    pub mime_type: Seq<char>,
}

pub struct UserView {
    pub id: int,
    pub is_bot: bool,
    pub first_name: Seq<char>,
    pub last_name: Option<Seq<char>>,
    pub username: Option<Seq<char>>,
}

pub struct MessageView {
    pub message_id: int,
    pub from: Option<UserView>,
    pub text: Option<Seq<char>>,
    pub document: Option<DocumentView>,
    pub chat_id: int,
}

pub struct UpdateView {
    pub update_id: int,
    pub message: Option<MessageView>,
}

pub struct FileView {
    pub file_id: Seq<char>,
    pub file_unique_id: Seq<char>,
    pub file_size: Option<int>,
    pub file_path: Seq<char>,
}

pub struct SendMessageView {
    pub chat_id: Seq<char>,
    pub text: Seq<char>,
    pub reply_to_message_id: Option<int>,
}

impl DeepView for Document {
    type V = DocumentView;

    open spec fn deep_view(&self) -> DocumentView {
        DocumentView {
            file_id: self.file_id@,
            file_name: self.file_name@,
            mime_type: self.mime_type@,
        }
    }
}

impl View for Document {
    type V = DocumentView;

    open spec fn view(&self) -> DocumentView {
        self.deep_view()
    }
}

impl DeepView for User {
    type V = UserView;

    open spec fn deep_view(&self) -> UserView {
        UserView {
            id: self.id as int,
            is_bot: self.is_bot,
            first_name: self.first_name@,
            last_name: self.last_name.deep_view(),
            username: self.username.deep_view(),
        }
    }
}

impl View for User {
    type V = UserView;

    open spec fn view(&self) -> UserView {
        self.deep_view()
    }
}

impl DeepView for Message {
    type V = MessageView;

    open spec fn deep_view(&self) -> MessageView {
        MessageView {
            message_id: self.message_id as int,
            from: self.from.deep_view(),
            text: self.text.deep_view(),
            document: self.document.deep_view(),
            chat_id: self.chat.id as int,
        }
    }
}

impl View for Message {
    type V = MessageView;

    open spec fn view(&self) -> MessageView {
        self.deep_view()
    }
}

impl DeepView for Update {
    type V = UpdateView;

    open spec fn deep_view(&self) -> UpdateView {
        UpdateView { update_id: self.update_id as int, message: self.message.deep_view() }
    }
}

impl View for Update {
    type V = UpdateView;

    open spec fn view(&self) -> UpdateView {
        self.deep_view()
    }
}

impl DeepView for File {
    type V = FileView;

    open spec fn deep_view(&self) -> FileView {
        FileView {
            file_id: self.file_id@,
            file_unique_id: self.file_unique_id@,
            file_size: match self.file_size {
                Some(n) => Some(n as int),
                None => None,
            },
            file_path: self.file_path@,
        }
    }
}

impl View for File {
    type V = FileView;

    open spec fn view(&self) -> FileView {
        self.deep_view()
    }
}

impl DeepView for SendMessage {
    type V = SendMessageView;

    open spec fn deep_view(&self) -> SendMessageView {
        SendMessageView {
            chat_id: self.chat_id@,
            text: self.text@,
            reply_to_message_id: match self.reply_to_message_id {
                Some(n) => Some(n as int),
                None => None,
            },
        }
    }
}

impl View for SendMessage {
    type V = SendMessageView;

    open spec fn view(&self) -> SendMessageView {
        self.deep_view()
    }
}

/// Where a message came from: what a handler keeps of a message in order to
/// answer it later.
#[derive(Clone, Copy, Debug, PartialEq, Eq, Structural)]
pub struct Origin {
    pub chat_id: i64,
    pub message_id: i64,
}

/// The origin of a message.
pub open spec fn origin_of(message: MessageView) -> Origin {
    Origin { chat_id: message.chat_id as i64, message_id: message.message_id as i64 }
}

/// The message that carries `text` to the chat of `origin`, by the chat's
/// identifier in decimal, marked as an answer to the message of `origin`.
pub open spec fn answer(origin: Origin, text: Seq<char>) -> SendMessageView {
    SendMessageView {
        chat_id: decimal(origin.chat_id as int),
        text,
        reply_to_message_id: Some(origin.message_id as int),
    }
}

/// The reply to `message` that carries `text`.
pub open spec fn reply_to(message: MessageView, text: Seq<char>) -> SendMessageView {
    answer(origin_of(message), text)
}

impl Origin {
    /// Builds the answer to this origin that carries `text`.
    pub fn reply(&self, text: String) -> (r: SendMessage)
        ensures
            r@ == answer(*self, text@),
    {
        SendMessage {
            chat_id: i64_to_decimal(self.chat_id),
            text,
            reply_to_message_id: Some(self.message_id),
        }
    }
}

impl Message {
    /// Where this message came from.
    pub fn origin(&self) -> (r: Origin)
        ensures
            r == origin_of(self@),
    {
        Origin { chat_id: self.chat.id, message_id: self.message_id }
    }

    /// Builds the reply to this message that carries `text`.
    pub fn reply(&self, text: String) -> (r: SendMessage)
        ensures
            r@ == reply_to(self@, text@),
    {
        self.origin().reply(text)
    }
}

/// The address of a method of the platform's interface for the bot `token`.
pub open spec fn api_url_spec(token: Seq<char>, method: Seq<char>) -> Seq<char> {
    "https://api.telegram.org/bot"@ + token + "/"@ + method
}

/// The address under which the platform serves the file stored at `path`.
pub open spec fn file_api_url_spec(token: Seq<char>, path: Seq<char>) -> Seq<char> {
    "https://api.telegram.org/file/bot"@ + token + "/"@ + path
}

/// The JSON object that carries a message to send: the three fields in their
/// order, an absent reply target written as `null`.
pub open spec fn send_message_json(message: SendMessageView) -> Seq<char> {
    "{\"chat_id\":"@ + json_string_literal(message.chat_id) + ",\"text\":"@ + json_string_literal(
        message.text,
    ) + ",\"reply_to_message_id\":"@ + (match message.reply_to_message_id {
        Some(id) => decimal(id),
        None => "null"@,
    }) + "}"@
}

/// The request that sends `message` for the bot `token`.
pub open spec fn send_message_request(token: Seq<char>, message: SendMessageView) -> HttpRequestView {
    HttpRequestView {
        verb: Verb::Post,
        url: api_url_spec(token, "sendMessage"@),
        headers: seq![HeaderView { name: "content-type"@, value: "application/json"@ }],
        body: BodyView::Text(send_message_json(message)),
    }
}

/// The failure reported when a message cannot be written as JSON.
pub open spec fn unwritable_message() -> crate::error::BotErrorView {
    crate::error::BotErrorView {
        kind: ErrorKind::Decode,
        detail: "Failed to serialize body to json for sending message"@,
    }
}

/// Writes a message to send as JSON.  `chat_id` and `text` are the two string
/// literals, already quoted; `None` stands for one that could not be written.
pub fn message_body(
    chat_id: Option<String>,
    text: Option<String>,
    reply_to_message_id: Option<i64>,
) -> (r: Result<String, BotError>)
    ensures
        match (chat_id, text) {
            (Some(c), Some(t)) => r is Ok && r->Ok_0@ == "{\"chat_id\":"@ + c@ + ",\"text\":"@ + t@
                + ",\"reply_to_message_id\":"@ + (match reply_to_message_id {
                Some(id) => decimal(id as int),
                None => "null"@,
            }) + "}"@,
            _ => r is Err && r->Err_0@ == unwritable_message(),
        },
{
    match (chat_id, text) {
        (Some(c), Some(t)) => {
            let mut body = String::from_str("{\"chat_id\":");
            body.append(c.as_str());
            body.append(",\"text\":");
            body.append(t.as_str());
            body.append(",\"reply_to_message_id\":");
            match reply_to_message_id {
                Some(id) => {
                    let digits = i64_to_decimal(id);
                    body.append(digits.as_str());
                },
                None => {
                    body.append("null");
                },
            }
            body.append("}");
            Ok(body)
        },
        _ => Err(
            BotError::new(ErrorKind::Decode, "Failed to serialize body to json for sending message"),
        ),
    }
}

/// The client of the platform for one bot.  It holds the bot's token and says
/// which request performs each call.
#[derive(Clone, Debug, PartialEq, Eq)]
pub struct TelegramClient {
    token: String,
}

impl TelegramClient {
    /// The token this client speaks for.
    pub closed spec fn token(&self) -> Seq<char> {
        self.token@
    }

    pub fn new(token_value: String) -> (r: TelegramClient)
        ensures
            r.token() == token_value@,
    {
        TelegramClient { token: token_value }
    }

    /// The address of `method`.
    pub fn api_url(&self, method: &str) -> (r: String)
        ensures
            r@ == api_url_spec(self.token(), method@),
    {
        let mut url = String::from_str("https://api.telegram.org/bot");
        url.append(self.token.as_str());
        url.append("/");
        url.append(method);
        url
    }

    /// The address of the file stored at `path`.
    pub fn file_api_url(&self, path: &str) -> (r: String)
        ensures
            r@ == file_api_url_spec(self.token(), path@),
    {
        let mut url = String::from_str("https://api.telegram.org/file/bot");
        url.append(self.token.as_str());
        url.append("/");
        url.append(path);
        url
    }

    /// The request for the updates whose identifier is `update_id` or greater.
    pub fn get_updates(&self, update_id: i32) -> (r: HttpRequest)
        ensures
            r@ == plain_request(
                Verb::Get,
                api_url_spec(self.token(), "getUpdates?offset="@ + decimal(update_id as int)),
            ),
    {
        let digits = i64_to_decimal(update_id as i64);
        let method = join2("getUpdates?offset=", digits.as_str());
        HttpRequest::plain(Verb::Get, self.api_url(method.as_str()))
    }

    /// What an exchange with the platform yielded: the result inside the
    /// envelope of the answer, as it stands, when the exchange came through
    /// with a status that reports success and a body of the expected shape; a
    /// transport failure when nothing came back or the status reports a
    /// failure; a decoding failure when the body is malformed.
    pub fn result_of<T>(exchange: Exchange<TelegramResponse<T>>) -> (r: Result<T, BotError>)
        ensures
            match classified(exchange) {
                Ok(response) => r == Ok::<T, BotError>(response.result),
                Err(e) => r is Err && r->Err_0@ == e,
            },
    {
        match received(exchange) {
            Ok(response) => Ok(response.result),
            Err(e) => Err(e),
        }
    }

    /// The request for the place of the file `file_id`.
    pub fn async_get_file(&self, file_id: &str) -> (r: HttpRequest)
        ensures
            r@ == plain_request(
                Verb::Get,
                api_url_spec(self.token(), "getFile?file_id="@ + file_id@),
            ),
    {
        let method = join2("getFile?file_id=", file_id);
        HttpRequest::plain(Verb::Get, self.api_url(method.as_str()))
    }

    /// The request that delivers the file at `path` to the chat `chat_id` as a
    /// video: a multipart form whose one part is named `video`.
    pub fn async_send_file(&self, chat_id: &str, path: String) -> (r: HttpRequest)
        ensures
            r@ == (HttpRequestView {
                verb: Verb::Post,
                url: api_url_spec(self.token(), "sendVideo?chat_id="@ + chat_id@),
                headers: Seq::empty(),
                body: BodyView::FilePart { field: "video"@, path: path@ },
            }),
    {
        let method = join2("sendVideo?chat_id=", chat_id);
        let r = HttpRequest {
            verb: Verb::Post,
            url: self.api_url(method.as_str()),
            headers: Vec::new(),
            body: Body::FilePart { field: String::from_str("video"), path },
        };
        assert(r.headers.deep_view() =~= Seq::<HeaderView>::empty());
        r
    }

    /// The request that sends `message`.  Every message can be written as
    /// JSON, so there always is one.
    pub fn async_send_message(&self, message: &SendMessage) -> (r: Result<HttpRequest, BotError>)
        ensures
            r matches Ok(request) && request@ == send_message_request(self.token(), message@),
    {
        let chat_id = match json_quote(message.chat_id.as_str()) {
            Ok(quoted) => Some(quoted),
            Err(_) => None,
        };
        let text = match json_quote(message.text.as_str()) {
            Ok(quoted) => Some(quoted),
            Err(_) => None,
        };
        match message_body(chat_id, text, message.reply_to_message_id) {
            Ok(body) => {
                let mut headers: Vec<Header> = Vec::new();
                headers.push(
                    Header {
                        name: String::from_str("content-type"),
                        value: String::from_str("application/json"),
                    },
                );
                let request = HttpRequest {
                    verb: Verb::Post,
                    url: self.api_url("sendMessage"),
                    headers,
                    body: Body::Text(body),
                };
                assert(request.headers.deep_view() =~= seq![
                    HeaderView { name: "content-type"@, value: "application/json"@ },
                ]);
                Ok(request)
            },
            Err(e) => Err(e),
        }
    }

    /// The same request as [`TelegramClient::async_send_message`], for callers
    /// that wait for the answer.
    pub fn send_message(&self, message: &SendMessage) -> (r: Result<HttpRequest, BotError>)
        ensures
            r matches Ok(request) && request@ == send_message_request(self.token(), message@),
    {
        self.async_send_message(message)
    }

    /// The request for the content of the file stored at `file_path`.
    pub fn async_donwload_file(&self, file_path: &str) -> (r: HttpRequest)
        ensures
            r@ == plain_request(Verb::Get, file_api_url_spec(self.token(), file_path@)),
    {
        HttpRequest::plain(Verb::Get, self.file_api_url(file_path))
    }
}

} // verus!
