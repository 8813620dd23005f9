use relay_bot::handlers::downloader::DownloaderHandler;
use relay_bot::handlers::healthcheck::{HealthCheckHandler, HealthCheckState};
use relay_bot::handlers::torrent::{TorrentHandler, TransmissionClient};
use relay_bot::handlers::youtube2rss::metadata::MetadataStorage;
use relay_bot::handlers::youtube2rss::s3_storage::S3Storage;
use relay_bot::handlers::youtube2rss::youtube_sdk::YoutubeSdk;
use relay_bot::handlers::youtube2rss::PodcastHandler;
use relay_bot::handlers::{Effect, Event, HandlerKind, Handlers, Job};
use relay_bot::telegram_api::{Chat, Document, Message};

fn handlers() -> Handlers {
    Handlers {
        healthcheck: HealthCheckHandler::new(),
        torrent: TorrentHandler::new(TransmissionClient::new("http://daemon/rpc".to_string())),
        podcast: PodcastHandler::new(
            "youtube-dl".to_string(),
            "/tmp".to_string(),
            YoutubeSdk::new("KEY".to_string()),
            S3Storage::new("bucket".to_string()),
            MetadataStorage::new(S3Storage::new("bucket".to_string())),
        ),
        downloader: DownloaderHandler::new(
            "/tmp".to_string(),
            "socks5://p".to_string(),
            "yt-dlp".to_string(),
            "/cookies".to_string(),
        ),
    }
}

const KINDS: [HandlerKind; 4] = [
    HandlerKind::HealthCheck,
    HandlerKind::Torrent,
    HandlerKind::Podcast,
    HandlerKind::Downloader,
];

fn message(text: Option<&str>, file_name: Option<&str>) -> Message {
    Message {
        message_id: 1,
        from: None,
        text: text.map(|t| t.to_string()),
        document: file_name.map(|n| Document {
            file_id: "F".to_string(),
            file_name: n.to_string(),
            mime_type: "x".to_string(),
        }),
        chat: Chat { id: 1 },
    }
}

#[test]
fn message_that_triggers_nothing_is_ignored_by_every_handler() {
    let h = handlers();
    for m in [
        message(None, None),
        message(Some("hello there"), None),
        message(Some(""), Some("notes.txt")),
        message(Some("pin"), Some("torrent")),
    ] {
        for kind in KINDS {
            assert_eq!(h.process(kind, &m).effect, Effect::Finish);
        }
    }
}

#[test]
fn only_the_triggered_handler_reacts() {
    let h = handlers();
    let ping = message(Some("ping"), None);
    assert!(matches!(h.process(HandlerKind::HealthCheck, &ping).effect, Effect::SendText(_)));
    assert_eq!(h.process(HandlerKind::Torrent, &ping).effect, Effect::Finish);
    assert_eq!(h.process(HandlerKind::Podcast, &ping).effect, Effect::Finish);
    assert_eq!(h.process(HandlerKind::Downloader, &ping).effect, Effect::Finish);
    let torrent = message(None, Some("x.torrent"));
    assert!(matches!(h.process(HandlerKind::Torrent, &torrent).effect, Effect::GetFile { .. }));
    assert_eq!(h.process(HandlerKind::HealthCheck, &torrent).effect, Effect::Finish);
}

#[test]
fn names_of_the_handlers() {
    let h = handlers();
    assert_eq!(h.name(HandlerKind::HealthCheck), "HealthCheck");
    assert_eq!(h.name(HandlerKind::Torrent), "TransmissionClient");
    assert_eq!(h.name(HandlerKind::Podcast), "Youtube2Rss");
    assert_eq!(h.name(HandlerKind::Downloader), "Downloader");
}

#[test]
fn job_goes_on_with_its_own_handler() {
    let h = handlers();
    let step = h.process(HandlerKind::HealthCheck, &message(Some("ping"), None));
    assert_eq!(step.state, Job::HealthCheck(HealthCheckState::Replying));
    let end = h.resume(step.state, Event::Completed);
    assert_eq!(end.state, Job::HealthCheck(HealthCheckState::Finished));
    assert_eq!(end.effect, Effect::Finish);
}
