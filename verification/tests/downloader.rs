use relay_bot::error::{BotError, ErrorKind};
use relay_bot::handlers::downloader::{DownloadStage, DownloadState, DownloaderHandler};
use relay_bot::handlers::{after_handler, Effect, Event, Step};
use relay_bot::telegram_api::{Chat, Message, SendMessage, Update};

fn handler() -> DownloaderHandler {
    DownloaderHandler::new(
        "/tmp".to_string(),
        "socks5://proxy:1080".to_string(),
        "/usr/bin/yt-dlp".to_string(),
        "/etc/cookies.txt".to_string(),
    )
}

fn text_message(text: &str) -> Message {
    Message {
        message_id: 9,
        from: None,
        text: Some(text.to_string()),
        document: None,
        chat: Chat { id: 42 },
    }
}

const SHORT: &str = "https://www.youtube.com/shorts/AbC-123_x";
const REEL: &str = "https://www.instagram.com/reel/Cxyz123/?igshid=1";

fn finished() -> DownloadState {
    DownloadState {
        stage: DownloadStage::Finished,
        chat_id: 0,
        url: String::new(),
        dir: String::new(),
        path: String::new(),
        failure: None,
    }
}

fn at(stage: DownloadStage, failure: Option<BotError>) -> DownloadState {
    DownloadState {
        stage,
        chat_id: 42,
        url: SHORT.to_string(),
        dir: "/tmp/tmp_9".to_string(),
        path: "/tmp/tmp_9/AbC-123_x.mp4".to_string(),
        failure,
    }
}

fn remove_dir() -> Effect {
    Effect::RemoveDir { name: "/tmp/tmp_9".to_string() }
}

#[test]
fn identifier_is_found_in_the_link() {
    assert_eq!(handler().name(), "Downloader");
    assert_eq!(handler().extract_id(SHORT), Ok("AbC-123_x".to_string()));
    assert_eq!(handler().extract_id(REEL), Ok("Cxyz123".to_string()));
    assert_eq!(
        handler().extract_id("https://www.youtube.com/shorts/"),
        Ok(String::new())
    );
}

#[test]
fn link_of_an_unknown_kind_has_no_identifier() {
    assert_eq!(
        handler().extract_id("https://example.com/shorts/abc"),
        Err(BotError::new(ErrorKind::NotFound, "Didn't find id regex for url"))
    );
    assert_eq!(
        DownloaderHandler::id_from_capture(None),
        Err(BotError::new(ErrorKind::NotFound, "Can't parse video id from url"))
    );
    assert_eq!(DownloaderHandler::id_from_capture(Some("x".to_string())), Ok("x".to_string()));
}

#[test]
fn arguments_of_the_download_tool() {
    assert_eq!(
        handler().download(SHORT, "/tmp/tmp_9/AbC-123_x.mp4"),
        vec![
            "-o".to_string(),
            "/tmp/tmp_9/AbC-123_x.mp4".to_string(),
            "--proxy".to_string(),
            "socks5://proxy:1080".to_string(),
            "--cookies".to_string(),
            "/etc/cookies.txt".to_string(),
            SHORT.to_string(),
        ]
    );
}

#[test]
fn outcome_of_a_run_of_the_tool() {
    assert_eq!(DownloaderHandler::download_outcome(Some(0), "done".to_string()), Ok(()));
    assert_eq!(
        DownloaderHandler::download_outcome(Some(1), "ERROR: no video".to_string()),
        Err(BotError { kind: ErrorKind::Subprocess, detail: "ERROR: no video".to_string() })
    );
    assert_eq!(
        DownloaderHandler::download_outcome(None, "killed".to_string()),
        Err(BotError { kind: ErrorKind::Subprocess, detail: "killed".to_string() })
    );
}

#[test]
fn short_video_is_downloaded_sent_and_cleaned_up() {
    let h = handler();
    let step = h.process(&text_message(SHORT));
    assert_eq!(
        step,
        Step {
            state: at(DownloadStage::Creating, None),
            effect: Effect::CreateDir { name: "/tmp/tmp_9".to_string() },
        }
    );
    let step = h.resume(step.state, Event::Completed);
    assert_eq!(
        step,
        Step {
            state: at(DownloadStage::Downloading, None),
            effect: Effect::RunExtractor {
                program: "/usr/bin/yt-dlp".to_string(),
                args: h.download(SHORT, "/tmp/tmp_9/AbC-123_x.mp4"),
                clear_proxy: false,
            },
        }
    );
    let step = h.resume(step.state, Event::Exited { code: Some(0), output: String::new() });
    assert_eq!(
        step,
        Step {
            state: at(DownloadStage::Sending, None),
            effect: Effect::SendVideo {
                chat_id: "42".to_string(),
                path: "/tmp/tmp_9/AbC-123_x.mp4".to_string(),
            },
        }
    );
    let step = h.resume(step.state, Event::Completed);
    assert_eq!(step, Step { state: at(DownloadStage::Cleaning, None), effect: remove_dir() });
    let step = h.resume(step.state, Event::Completed);
    assert_eq!(step, Step { state: finished(), effect: Effect::Finish });
}

#[test]
fn failing_tool_sends_no_file_and_the_directory_is_removed() {
    let h = handler();
    let tool_failure = BotError { kind: ErrorKind::Subprocess, detail: "exit 1".to_string() };
    let step = h.resume(
        at(DownloadStage::Downloading, None),
        Event::Exited { code: Some(1), output: "exit 1".to_string() },
    );
    assert_eq!(
        step,
        Step {
            state: at(DownloadStage::Cleaning, Some(tool_failure.clone())),
            effect: remove_dir(),
        }
    );
    let end = h.resume(step.state, Event::Completed);
    assert_eq!(end, Step { state: finished(), effect: Effect::Fail(tool_failure.clone()) });

    let update = Update { update_id: 1, message: Some(text_message(SHORT)) };
    let apology = after_handler(&update, &h.name(), &Err(tool_failure));
    assert_eq!(
        apology,
        Some(SendMessage {
            chat_id: "42".to_string(),
            text: "что-то пошло не так во время обработки сообщения модулем Downloader"
                .to_string(),
            reply_to_message_id: Some(9),
        })
    );
}

#[test]
fn first_failure_is_the_one_reported() {
    let h = handler();
    let first = BotError::new(ErrorKind::Transport, "upload failed");
    let second = BotError::new(ErrorKind::Transport, "cannot remove");
    let step = h.resume(at(DownloadStage::Sending, None), Event::Failed(first.clone()));
    assert_eq!(
        step,
        Step { state: at(DownloadStage::Cleaning, Some(first.clone())), effect: remove_dir() }
    );
    assert_eq!(
        h.resume(step.state, Event::Failed(second.clone())).effect,
        Effect::Fail(first)
    );
    assert_eq!(
        h.resume(at(DownloadStage::Cleaning, None), Event::Failed(second.clone())).effect,
        Effect::Fail(second)
    );
}

#[test]
fn directory_that_was_not_created_is_not_removed() {
    let h = handler();
    let failure = BotError::new(ErrorKind::Transport, "read-only file system");
    assert_eq!(
        h.resume(at(DownloadStage::Creating, None), Event::Failed(failure.clone())),
        Step { state: finished(), effect: Effect::Fail(failure) }
    );
}

#[test]
fn other_messages_are_ignored_by_the_downloader() {
    let h = handler();
    for text in ["ping", "https://www.youtube.com/watch?v=abc", "http://example.com/a.mp3", ""] {
        assert_eq!(
            h.process(&text_message(text)),
            Step { state: finished(), effect: Effect::Finish }
        );
    }
    assert_eq!(h.process(&text_message(REEL)).state.path, "/tmp/tmp_9/Cxyz123.mp4");
}
