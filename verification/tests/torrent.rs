use relay_bot::error::{BotError, ErrorKind};
use relay_bot::handlers::torrent::{
    Attempt, DaemonReply, Response, ResponseArguments, SessionHeader, TorrentHandler,
    TorrentState, TransmissionClient, Verdict,
};
use relay_bot::handlers::{Effect, Event, Step};
use relay_bot::http::{Body, Header, HttpRequest, Verb};
use relay_bot::telegram_api::{Chat, Document, File, Message, Origin, SendMessage};

fn handler() -> TorrentHandler {
    TorrentHandler::new(TransmissionClient::new("http://daemon:9091/rpc".to_string()))
}

fn document_message(file_name: &str) -> Message {
    Message {
        message_id: 8,
        from: None,
        text: None,
        document: Some(Document {
            file_id: "FILE1".to_string(),
            file_name: file_name.to_string(),
            mime_type: "application/x-bittorrent".to_string(),
        }),
        chat: Chat { id: 42 },
    }
}

fn origin() -> Origin {
    Origin { chat_id: 42, message_id: 8 }
}

fn added(name: &str) -> Response {
    Response {
        result: "success".to_string(),
        arguments: ResponseArguments::TorrentAdded { id: Some(1), name: name.to_string() },
    }
}

fn reply(status: u16, session: SessionHeader, response: Option<Response>) -> DaemonReply {
    DaemonReply { status, session, response }
}

const HELLO_BODY: &str = "{\"method\":\"torrent-add\",\"arguments\":{\"metainfo\":\"aGVsbG8=\"}}";

#[test]
fn torrent_file_is_located_first() {
    assert_eq!(handler().name(), "TransmissionClient");
    assert_eq!(
        handler().process(&document_message("x.torrent")),
        Step {
            state: TorrentState::Locating(origin()),
            effect: Effect::GetFile { file_id: "FILE1".to_string() },
        }
    );
}

#[test]
fn other_documents_are_ignored_by_the_torrent_handler() {
    for name in ["x.txt", "torrent", "x.torrent.zip", ""] {
        assert_eq!(
            handler().process(&document_message(name)),
            Step { state: TorrentState::Finished, effect: Effect::Finish }
        );
    }
    let mut message = document_message("x.torrent");
    message.document = None;
    message.text = Some("x.torrent".to_string());
    assert_eq!(handler().process(&message).effect, Effect::Finish);
}

#[test]
fn request_body_carries_the_file_as_base64() {
    assert_eq!(TransmissionClient::torrent_add(b"hello"), Ok(HELLO_BODY.to_string()));
    assert_eq!(
        TransmissionClient::torrent_add(&[]),
        Ok("{\"method\":\"torrent-add\",\"arguments\":{\"metainfo\":\"\"}}".to_string())
    );
    assert_eq!(
        TransmissionClient::torrent_add(&[0xfb, 0xff, 0xfe]),
        Ok("{\"method\":\"torrent-add\",\"arguments\":{\"metainfo\":\"+//+\"}}".to_string())
    );
}

#[test]
fn request_body_for_an_unwritable_literal_is_a_failure() {
    assert_eq!(
        TransmissionClient::request_body(None),
        Err(BotError::new(ErrorKind::Decode, "Failed to serialize request"))
    );
    assert_eq!(
        TransmissionClient::request_body(Some("\"QQ==\"".to_string())),
        Ok("{\"method\":\"torrent-add\",\"arguments\":{\"metainfo\":\"QQ==\"}}".to_string())
    );
}

#[test]
fn requests_to_the_daemon() {
    let client = TransmissionClient::new("http://daemon:9091/rpc".to_string());
    assert_eq!(
        client.request("{}", None),
        HttpRequest {
            verb: Verb::Post,
            url: "http://daemon:9091/rpc".to_string(),
            headers: vec![],
            body: Body::Text("{}".to_string()),
        }
    );
    assert_eq!(
        client.request("{}", Some("TOKEN")),
        HttpRequest {
            verb: Verb::Post,
            url: "http://daemon:9091/rpc".to_string(),
            headers: vec![Header {
                name: "X-Transmission-Session-Id".to_string(),
                value: "TOKEN".to_string(),
            }],
            body: Body::Text("{}".to_string()),
        }
    );
}

#[test]
fn conflict_with_a_token_asks_for_one_retry() {
    let first = reply(409, SessionHeader::Token("TOKEN".to_string()), None);
    assert_eq!(
        TransmissionClient::req_with_sessions_id_loop(Attempt::First, first.clone()),
        Verdict::NeedsRetry { token: "TOKEN".to_string() }
    );
    assert_eq!(
        TransmissionClient::req_with_sessions_id_loop(Attempt::Retry, first),
        Verdict::Failure(BotError::new(
            ErrorKind::Transport,
            "transmission api answered with a failure status"
        ))
    );
}

#[test]
fn every_other_answer_is_final() {
    let ok = reply(200, SessionHeader::Token("T".to_string()), Some(added("Foo")));
    assert_eq!(
        TransmissionClient::req_with_sessions_id_loop(Attempt::First, ok.clone()),
        Verdict::Success(added("Foo"))
    );
    assert_eq!(
        TransmissionClient::req_with_sessions_id_loop(Attempt::Retry, ok),
        Verdict::Success(added("Foo"))
    );
    assert_eq!(
        TransmissionClient::req_with_sessions_id_loop(
            Attempt::First,
            reply(409, SessionHeader::Absent, None)
        ),
        Verdict::Failure(BotError::new(
            ErrorKind::Transport,
            "transmission api answered with a failure status"
        ))
    );
    assert_eq!(
        TransmissionClient::req_with_sessions_id_loop(
            Attempt::First,
            reply(409, SessionHeader::Unreadable, None)
        ),
        Verdict::Failure(BotError::new(ErrorKind::Decode, "session id is not text"))
    );
    assert_eq!(
        TransmissionClient::req_with_sessions_id_loop(
            Attempt::First,
            reply(204, SessionHeader::Absent, None)
        ),
        Verdict::Failure(BotError::new(ErrorKind::Decode, "Failed to parse result for request"))
    );
    assert_eq!(
        TransmissionClient::req_with_sessions_id_loop(
            Attempt::First,
            reply(500, SessionHeader::Absent, Some(added("Foo")))
        ),
        Verdict::Failure(BotError::new(
            ErrorKind::Transport,
            "transmission api answered with a failure status"
        ))
    );
    assert_eq!(
        TransmissionClient::req_with_sessions_id_loop(
            Attempt::First,
            reply(300, SessionHeader::Absent, Some(added("Foo")))
        ),
        Verdict::Failure(BotError::new(
            ErrorKind::Transport,
            "transmission api answered with a failure status"
        ))
    );
}

#[test]
fn added_torrent_is_announced_to_the_chat() {
    let h = handler();
    let step = h.process(&document_message("x.torrent"));
    let step = h.resume(
        step.state,
        Event::FileInfo(File {
            file_id: "FILE1".to_string(),
            file_unique_id: "U1".to_string(),
            file_size: Some(5),
            file_path: "documents/x.torrent".to_string(),
        }),
    );
    assert_eq!(
        step,
        Step {
            state: TorrentState::Fetching(origin()),
            effect: Effect::DownloadFile { file_path: "documents/x.torrent".to_string() },
        }
    );
    let step = h.resume(step.state, Event::Content(b"hello".to_vec()));
    assert_eq!(
        step,
        Step {
            state: TorrentState::Posting {
                origin: origin(),
                body: HELLO_BODY.to_string(),
                attempt: Attempt::First,
            },
            effect: Effect::PostTorrent(HttpRequest {
                verb: Verb::Post,
                url: "http://daemon:9091/rpc".to_string(),
                headers: vec![],
                body: Body::Text(HELLO_BODY.to_string()),
            }),
        }
    );
    let step = h.resume(
        step.state,
        Event::DaemonReply(reply(200, SessionHeader::Absent, Some(added("Foo")))),
    );
    assert_eq!(
        step,
        Step {
            state: TorrentState::Replying,
            effect: Effect::SendText(SendMessage {
                chat_id: "42".to_string(),
                text: "Foo успешно добавлен".to_string(),
                reply_to_message_id: Some(8),
            }),
        }
    );
    let step = h.resume(step.state, Event::Completed);
    assert_eq!(step, Step { state: TorrentState::Finished, effect: Effect::Finish });
}

#[test]
fn answers_of_the_daemon_are_known_by_their_tag() {
    assert_eq!(
        ResponseArguments::tagged("torrent-added", None, "Foo".to_string()),
        Some(ResponseArguments::TorrentAdded { id: None, name: "Foo".to_string() })
    );
    assert_eq!(
        ResponseArguments::tagged("torrent-duplicate", Some(4), "Foo".to_string()),
        Some(ResponseArguments::TorrentDuplicate { id: Some(4), name: "Foo".to_string() })
    );
    assert_eq!(ResponseArguments::tagged("torrent-removed", Some(4), "Foo".to_string()), None);
    assert_eq!(ResponseArguments::tagged("", None, "Foo".to_string()), None);
}

#[test]
fn tagged_answer_without_a_number_is_announced() {
    let response = Response {
        result: "success".to_string(),
        arguments: ResponseArguments::tagged("torrent-added", None, "Foo".to_string()).unwrap(),
    };
    let step = handler().resume(
        TorrentState::Posting {
            origin: origin(),
            body: HELLO_BODY.to_string(),
            attempt: Attempt::First,
        },
        Event::DaemonReply(reply(200, SessionHeader::Absent, Some(response))),
    );
    assert_eq!(
        step.effect,
        Effect::SendText(SendMessage {
            chat_id: "42".to_string(),
            text: "Foo успешно добавлен".to_string(),
            reply_to_message_id: Some(8),
        })
    );
}

#[test]
fn duplicate_torrent_is_announced_as_such() {
    let duplicate = Response {
        result: "success".to_string(),
        arguments: ResponseArguments::TorrentDuplicate { id: Some(3), name: "Bar".to_string() },
    };
    assert_eq!(
        TorrentHandler::process_success(origin(), duplicate),
        Effect::SendText(SendMessage {
            chat_id: "42".to_string(),
            text: "Bar уже был добавлен ранее".to_string(),
            reply_to_message_id: Some(8),
        })
    );
}

#[test]
fn conflict_is_met_by_sending_the_same_body_with_the_token() {
    let h = handler();
    let posting = TorrentState::Posting {
        origin: origin(),
        body: HELLO_BODY.to_string(),
        attempt: Attempt::First,
    };
    let step = h.resume(
        posting,
        Event::DaemonReply(reply(409, SessionHeader::Token("S1".to_string()), None)),
    );
    assert_eq!(
        step,
        Step {
            state: TorrentState::Posting {
                origin: origin(),
                body: HELLO_BODY.to_string(),
                attempt: Attempt::Retry,
            },
            effect: Effect::PostTorrent(HttpRequest {
                verb: Verb::Post,
                url: "http://daemon:9091/rpc".to_string(),
                headers: vec![Header {
                    name: "X-Transmission-Session-Id".to_string(),
                    value: "S1".to_string(),
                }],
                body: Body::Text(HELLO_BODY.to_string()),
            }),
        }
    );
    let again = h.resume(
        step.state,
        Event::DaemonReply(reply(409, SessionHeader::Token("S2".to_string()), None)),
    );
    assert_eq!(
        again,
        Step {
            state: TorrentState::Finished,
            effect: Effect::Fail(BotError::new(
                ErrorKind::Transport,
                "transmission api answered with a failure status"
            )),
        }
    );
}

#[test]
fn failures_end_the_torrent_handling() {
    let h = handler();
    let failure = BotError::new(ErrorKind::Transport, "down");
    for state in [
        TorrentState::Locating(origin()),
        TorrentState::Fetching(origin()),
        TorrentState::Posting { origin: origin(), body: "{}".to_string(), attempt: Attempt::First },
        TorrentState::Replying,
    ] {
        assert_eq!(
            h.resume(state, Event::Failed(failure.clone())),
            Step { state: TorrentState::Finished, effect: Effect::Fail(failure.clone()) }
        );
    }
    assert_eq!(
        h.resume(TorrentState::Locating(origin()), Event::Completed).effect,
        Effect::Fail(BotError::new(ErrorKind::Validation, "unexpected event"))
    );
    assert_eq!(
        h.resume(TorrentState::Finished, Event::Failed(failure)).effect,
        Effect::Fail(BotError::new(ErrorKind::Validation, "unexpected event"))
    );
}
