use std::collections::VecDeque;

use relay_bot::error::{BotError, ErrorKind};
use relay_bot::handlers::youtube2rss::metadata::{MetadataStorage, Timestamp, VideoMetadata};
use relay_bot::handlers::youtube2rss::s3_storage::{Fetched, ObjectRef, S3Storage};
use relay_bot::handlers::youtube2rss::youtube_sdk::{Snippet, YoutubeSdk};
use relay_bot::handlers::youtube2rss::{
    data_path, feed_entry, generate_rss, metadata_path, rss_path, FeedItem, PodcastHandler,
    PodcastStage, PodcastState,
};
use relay_bot::handlers::{Effect, Event, Step};
use relay_bot::http::{Body, HttpRequest, Verb};
use relay_bot::telegram_api::{Chat, Message, Origin, SendMessage, User};

fn handler() -> PodcastHandler {
    PodcastHandler::new(
        "youtube-dl".to_string(),
        "/tmp".to_string(),
        YoutubeSdk::new("KEY".to_string()),
        S3Storage::new("bucket".to_string()),
        MetadataStorage::new(S3Storage::new("bucket".to_string())),
    )
}

fn sender() -> User {
    User {
        id: 1,
        is_bot: false,
        first_name: "bob".to_string(),
        last_name: None,
        username: None,
    }
}

fn text_message(text: &str, from: Option<User>) -> Message {
    Message {
        message_id: 5,
        from,
        text: Some(text.to_string()),
        document: None,
        chat: Chat { id: 42 },
    }
}

fn origin() -> Origin {
    Origin { chat_id: 42, message_id: 5 }
}

fn record(name: &str, secs: u64) -> VideoMetadata {
    VideoMetadata {
        file_size: 1,
        file_url: "u".to_string(),
        video_id: "v".to_string(),
        created_at: Timestamp { secs, nanos: 3 },
        name: name.to_string(),
        original_link: "o".to_string(),
        mime_type: "m".to_string(),
    }
}

fn finished() -> PodcastState {
    PodcastState {
        stage: PodcastStage::Finished,
        origin: Origin { chat_id: 0, message_id: 0 },
        sender: None,
        username: String::new(),
        url: String::new(),
        local_path: String::new(),
        key: String::new(),
        record: VideoMetadata::blank(),
        list: VecDeque::new(),
        failure: None,
    }
}

const WATCH: &str = "https://www.youtube.com/watch?v=1BVPmUuZSlU&t=10";

fn video_record() -> VideoMetadata {
    VideoMetadata {
        file_size: 0,
        file_url: "https://storage.yandexcloud.net/bucket/bob/audio/1BVPmUuZSlU.m4a".to_string(),
        video_id: "1BVPmUuZSlU".to_string(),
        created_at: Timestamp { secs: 0, nanos: 0 },
        name: String::new(),
        original_link: WATCH.to_string(),
        mime_type: "audio/m4a".to_string(),
    }
}

fn video_state(stage: PodcastStage, record: VideoMetadata) -> PodcastState {
    PodcastState {
        stage,
        origin: origin(),
        sender: None,
        username: "bob".to_string(),
        url: WATCH.to_string(),
        local_path: "/tmp/51BVPmUuZSlU.m4a".to_string(),
        key: "bob/audio/1BVPmUuZSlU.m4a".to_string(),
        record,
        list: VecDeque::new(),
        failure: None,
    }
}

const ONE_RECORD: [u8; 17] = [
    0x91, 0x97, 0x01, 0xa1, b'u', 0xa1, b'v', 0x92, 0x02, 0x03, 0xa1, b'n', 0xa1, b'o', 0xa1, b'm',
    0x00,
];

#[test]
fn storage_keys_of_a_user() {
    assert_eq!(metadata_path("bob"), "bob/metadata.mp");
    assert_eq!(data_path("bob"), "bob/audio");
    assert_eq!(rss_path("bob"), "bob/feed.xml");
}

#[test]
fn public_address_of_a_stored_object() {
    let storage = S3Storage::new("bucket".to_string());
    assert_eq!(
        storage.get_public_url("bob/feed.xml"),
        "https://storage.yandexcloud.net/bucket/bob/feed.xml"
    );
    assert_eq!(S3Storage::region_name(), "ru-central1");
    assert_eq!(S3Storage::endpoint(), "storage.yandexcloud.net");
    let object = ObjectRef { bucket: "bucket".to_string(), key: "k".to_string() };
    assert_eq!(storage.download_object("k"), object);
    assert_eq!(storage.upload_object("k"), object);
    assert_eq!(storage.upload_file("k".to_string()), object);
}

#[test]
fn request_for_the_details_of_a_video() {
    let sdk = YoutubeSdk::new("KEY".to_string());
    assert_eq!(
        sdk.get_video_info("abc"),
        HttpRequest {
            verb: Verb::Get,
            url: "https://www.googleapis.com/youtube/v3/videos?part=snippet&id=abc&key=KEY"
                .to_string(),
            headers: vec![],
            body: Body::Empty,
        }
    );
}

#[test]
fn first_item_of_an_answer_is_the_video() {
    let snippet = |title: &str| Snippet {
        published_at: "2020".to_string(),
        channel_id: "c".to_string(),
        title: title.to_string(),
        description: "d".to_string(),
    };
    assert_eq!(YoutubeSdk::video_info(vec![]), None);
    assert_eq!(YoutubeSdk::video_info(vec![snippet("a")]), Some(snippet("a")));
    assert_eq!(YoutubeSdk::video_info(vec![snippet("a"), snippet("b")]), Some(snippet("a")));
}

#[test]
fn identifier_is_found_in_a_link_to_a_video() {
    let h = handler();
    assert_eq!(h.name(), "Youtube2Rss");
    assert_eq!(h.extract_id(WATCH), Ok("1BVPmUuZSlU".to_string()));
    assert_eq!(h.extract_id("https://youtu.be/abc_DEF"), Ok("abc_DEF".to_string()));
    assert_eq!(
        h.extract_id("https://www.youtube.com/watch"),
        Err(BotError::new(ErrorKind::NotFound, "Can't parse video id from youtube url"))
    );
}

#[test]
fn list_is_written_as_message_pack() {
    let mut list = VecDeque::new();
    list.push_back(record("n", 2));
    assert_eq!(MetadataStorage::update_metadata(&list), Ok(ONE_RECORD[..16].to_vec()));
    assert_eq!(MetadataStorage::update_metadata(&VecDeque::new()), Ok(vec![0x90]));
}

#[test]
fn list_is_read_from_message_pack() {
    let mut list = VecDeque::new();
    list.push_back(record("n", 2));
    assert_eq!(
        MetadataStorage::load_metadata(Fetched::Found(ONE_RECORD[..16].to_vec())),
        Ok(list)
    );
    assert_eq!(MetadataStorage::load_metadata(Fetched::NoSuchKey), Ok(VecDeque::new()));
    assert_eq!(
        MetadataStorage::load_metadata(Fetched::Found(vec![])),
        Err(BotError::new(ErrorKind::Decode, "Can't load metadata from the path"))
    );
    assert_eq!(
        MetadataStorage::load_metadata(Fetched::Found(vec![0x91, 0x92, 0x01, 0x02])),
        Err(BotError::new(ErrorKind::Decode, "Can't load metadata from the path"))
    );
    assert_eq!(
        MetadataStorage::load_metadata(Fetched::Failed("access denied".to_string())),
        Err(BotError { kind: ErrorKind::Transport, detail: "access denied".to_string() })
    );
}

#[test]
fn list_survives_writing_and_reading() {
    let mut list = VecDeque::new();
    list.push_back(record("newest", u64::MAX));
    list.push_back(record("привет \"мир\"", 1_600_000_000));
    list.push_back(record("", 0));
    list.push_back(record("newest", u64::MAX));
    let bytes = MetadataStorage::update_metadata(&list).unwrap();
    assert_eq!(MetadataStorage::load_metadata(Fetched::Found(bytes.clone())), Ok(list.clone()));
    let again = MetadataStorage::update_metadata(&list).unwrap();
    assert_eq!(again, bytes);
}

#[test]
fn new_record_goes_in_front_and_nothing_is_merged() {
    let list = MetadataStorage::add_metadata(VecDeque::new(), record("a", 1));
    let list = MetadataStorage::add_metadata(list, record("b", 2));
    let list = MetadataStorage::add_metadata(list, record("a", 1));
    assert_eq!(list.len(), 3);
    assert_eq!(list[0], record("a", 1));
    assert_eq!(list[1], record("b", 2));
    assert_eq!(list[2], record("a", 1));
}

#[test]
fn additions_made_one_at_a_time_are_all_kept() {
    let mut list = VecDeque::new();
    for i in 0..20u64 {
        list = MetadataStorage::add_metadata(list, record("x", i));
        assert_eq!(list.len() as u64, i + 1);
        assert_eq!(list[0].created_at.secs, i);
    }
    for i in 0..20u64 {
        assert_eq!(list[i as usize].created_at.secs, 19 - i);
    }
}

#[test]
fn feed_entry_of_a_record() {
    assert_eq!(
        feed_entry(&record("n", 2)),
        Some(FeedItem {
            title: "n".to_string(),
            pub_date: "Thu, 1 Jan 1970 00:00:02 +0000".to_string(),
            url: "u".to_string(),
            length: "1".to_string(),
            mime_type: "m".to_string(),
        })
    );
    assert_eq!(
        feed_entry(&record("n", 1_057_056_757)).unwrap().pub_date,
        "Tue, 1 Jul 2003 10:52:37 +0000"
    );
    assert_eq!(
        feed_entry(&record("n", 253_402_300_799)).unwrap().pub_date,
        "Fri, 31 Dec 9999 23:59:59 +0000"
    );
    assert_eq!(feed_entry(&record("n", 253_402_300_800)), None);
    let mut late = record("n", 2);
    late.created_at.nanos = 1_000_000_000;
    assert_eq!(feed_entry(&late), None);
}

#[test]
fn feed_document_of_a_list() {
    let mut list = VecDeque::new();
    list.push_back(record("n", 2));
    assert_eq!(
        generate_rss("bob", &list),
        Ok(concat_feed(&[
            "<item><title>n</title><enclosure url=\"u\" length=\"1\" type=\"m\"/>",
            "<pubDate>Thu, 1 Jan 1970 00:00:02 +0000</pubDate></item>",
        ]))
    );
    assert_eq!(generate_rss("bob", &VecDeque::new()), Ok(concat_feed(&[])));
    assert_eq!(PodcastHandler::generate_rss("bob", &list), generate_rss("bob", &list));
}

fn concat_feed(items: &[&str]) -> String {
    let mut xml = String::from(
        "<?xml version=\"1.0\" encoding=\"utf-8\"?><rss version=\"2.0\"><channel><title>Куточок bob</title><link></link><description></description>",
    );
    for item in items {
        xml.push_str(item);
    }
    xml.push_str("</channel></rss>");
    xml
}

#[test]
fn feed_has_an_entry_for_each_record_newest_first() {
    let list = MetadataStorage::add_metadata(VecDeque::new(), record("old", 1));
    let list = MetadataStorage::add_metadata(list, record("middle", 2));
    let list = MetadataStorage::add_metadata(list, record("new & <shiny>", 3));
    let xml = generate_rss("bob", &list).unwrap();
    assert_eq!(xml.matches("<item>").count(), list.len());
    let first = xml.find("<item>").unwrap();
    let first_title = &xml[first..];
    assert!(first_title.starts_with("<item><title>new &amp; &lt;shiny&gt;</title>"));
    assert!(xml.find("middle").unwrap() < xml.find("old").unwrap());
}

#[test]
fn list_with_an_undatable_record_has_no_feed() {
    let mut list = VecDeque::new();
    list.push_back(record("fine", 2));
    list.push_back(record("too late", 253_402_300_800));
    assert_eq!(
        generate_rss("bob", &list),
        Err(BotError::new(ErrorKind::Validation, "date cannot be represented by RFC 2822"))
    );
}

#[test]
fn link_to_a_video_starts_the_download_tool() {
    let h = handler();
    let step = h.process(&text_message(WATCH, Some(sender())));
    assert_eq!(
        step,
        Step {
            state: video_state(PodcastStage::Extracting, video_record()),
            effect: Effect::RunExtractor {
                program: "youtube-dl".to_string(),
                args: vec![
                    "-f".to_string(),
                    "bestaudio[ext=m4a]".to_string(),
                    "-o".to_string(),
                    "/tmp/5%(id)s.%(ext)s".to_string(),
                    WATCH.to_string(),
                ],
                clear_proxy: true,
            },
        }
    );
    assert_eq!(
        h.download(WATCH, "/tmp/5%(id)s.%(ext)s"),
        vec![
            "-f".to_string(),
            "bestaudio[ext=m4a]".to_string(),
            "-o".to_string(),
            "/tmp/5%(id)s.%(ext)s".to_string(),
            WATCH.to_string(),
        ]
    );
}

#[test]
fn message_without_sender_cannot_extend_a_feed() {
    let h = handler();
    let no_sender = BotError::new(
        ErrorKind::Validation,
        "Empty user of message. Can't manage podcasts for empty user",
    );
    assert_eq!(
        h.process(&text_message(WATCH, None)),
        Step { state: finished(), effect: Effect::Fail(no_sender.clone()) }
    );
    assert_eq!(
        h.process(&text_message("http://host/a.mp3", None)),
        Step { state: finished(), effect: Effect::Fail(no_sender) }
    );
}

#[test]
fn video_becomes_an_episode_of_the_feed() {
    let h = handler();
    let step = h.process(&text_message(WATCH, Some(sender())));
    let step = h.resume(step.state, Event::Exited { code: Some(0), output: String::new() });
    assert_eq!(
        step,
        Step {
            state: video_state(PodcastStage::Uploading, video_record()),
            effect: Effect::UploadFile {
                path: "/tmp/51BVPmUuZSlU.m4a".to_string(),
                key: "bob/audio/1BVPmUuZSlU.m4a".to_string(),
            },
        }
    );
    let step = h.resume(step.state, Event::Completed);
    assert_eq!(step.effect, Effect::FileSize { path: "/tmp/51BVPmUuZSlU.m4a".to_string() });
    let step = h.resume(step.state, Event::Size(1234));
    assert_eq!(step.effect, Effect::LookupVideo { video_id: "1BVPmUuZSlU".to_string() });
    let step = h.resume(
        step.state,
        Event::VideoInfo(Some(Snippet {
            published_at: "2020-01-01".to_string(),
            channel_id: "ch".to_string(),
            title: "A talk".to_string(),
            description: "d".to_string(),
        })),
    );
    assert_eq!(step.effect, Effect::Now);
    let step = h.resume(step.state, Event::Time(Timestamp { secs: 2, nanos: 0 }));
    assert_eq!(step.effect, Effect::Lock { user: "bob".to_string() });
    let mut full = video_record();
    full.file_size = 1234;
    full.name = "A talk".to_string();
    full.created_at = Timestamp { secs: 2, nanos: 0 };
    assert_eq!(step.state, video_state(PodcastStage::Locking, full.clone()));
    let step = h.resume(step.state, Event::Completed);
    assert_eq!(step.effect, Effect::LoadObject { key: "bob/metadata.mp".to_string() });

    let mut stored = VecDeque::new();
    stored.push_back(record("older", 1));
    let stored_bytes = MetadataStorage::update_metadata(&stored).unwrap();
    let step = h.resume(step.state, Event::Object(Some(stored_bytes)));
    let mut expected = VecDeque::new();
    expected.push_back(full.clone());
    expected.push_back(record("older", 1));
    assert_eq!(step.state.stage, PodcastStage::StoringList);
    assert_eq!(step.state.list, expected);
    assert_eq!(
        step.effect,
        Effect::UploadBytes {
            key: "bob/metadata.mp".to_string(),
            bytes: MetadataStorage::update_metadata(&expected).unwrap(),
        }
    );
    let step = h.resume(step.state, Event::Completed);
    assert_eq!(step.state.stage, PodcastStage::StoringFeed);
    assert_eq!(
        step.effect,
        Effect::UploadBytes {
            key: "bob/feed.xml".to_string(),
            bytes: generate_rss("bob", &expected).unwrap().into_bytes(),
        }
    );
    let step = h.resume(step.state, Event::Completed);
    assert_eq!(step.state.stage, PodcastStage::Unlocking);
    assert_eq!(step.effect, Effect::Unlock { user: "bob".to_string() });
    let step = h.resume(step.state, Event::Completed);
    assert_eq!(step.state.stage, PodcastStage::Replying);
    assert_eq!(
        step.effect,
        Effect::SendText(SendMessage {
            chat_id: "42".to_string(),
            text: "RSS фид успешно обновлен и доступен по адресу: https://storage.yandexcloud.net/bucket/bob/feed.xml".to_string(),
            reply_to_message_id: Some(5),
        })
    );
    let step = h.resume(step.state, Event::Completed);
    assert_eq!(step, Step { state: finished(), effect: Effect::Finish });
}

#[test]
fn first_episode_of_a_user_starts_a_new_list() {
    let h = handler();
    let loading = video_state(PodcastStage::Loading, record("n", 2));
    let step = h.resume(loading, Event::Object(None));
    assert_eq!(step.state.list.len(), 1);
    assert_eq!(
        step.effect,
        Effect::UploadBytes { key: "bob/metadata.mp".to_string(), bytes: ONE_RECORD[..16].to_vec() }
    );
}

#[test]
fn failing_tool_ends_the_making_of_an_episode() {
    let h = handler();
    let step = h.resume(
        video_state(PodcastStage::Extracting, video_record()),
        Event::Exited { code: Some(1), output: "ERROR".to_string() },
    );
    assert_eq!(
        step,
        Step {
            state: finished(),
            effect: Effect::Fail(BotError {
                kind: ErrorKind::Subprocess,
                detail: "ERROR".to_string(),
            }),
        }
    );
}

#[test]
fn unknown_video_is_a_failure() {
    let h = handler();
    let step = h.resume(
        video_state(PodcastStage::LookingUp, video_record()),
        Event::VideoInfo(None),
    );
    assert_eq!(
        step,
        Step {
            state: finished(),
            effect: Effect::Fail(BotError::new(ErrorKind::NotFound, "Received empty video info")),
        }
    );
}

#[test]
fn lock_is_given_back_after_a_failure_under_it() {
    let h = handler();
    let failure = BotError::new(ErrorKind::Transport, "storage is down");
    for stage in [PodcastStage::Loading, PodcastStage::StoringList, PodcastStage::StoringFeed] {
        let step = h.resume(
            video_state(stage, video_record()),
            Event::Failed(failure.clone()),
        );
        assert_eq!(step.effect, Effect::Unlock { user: "bob".to_string() });
        assert_eq!(step.state.stage, PodcastStage::Unlocking);
        assert_eq!(step.state.failure, Some(failure.clone()));
        let end = h.resume(step.state, Event::Completed);
        assert_eq!(end, Step { state: finished(), effect: Effect::Fail(failure.clone()) });
    }
    let step = h.resume(
        video_state(PodcastStage::Loading, video_record()),
        Event::Object(Some(vec![0xc1])),
    );
    assert_eq!(step.effect, Effect::Unlock { user: "bob".to_string() });
    assert_eq!(
        step.state.failure,
        Some(BotError::new(ErrorKind::Decode, "Can't load metadata from the path"))
    );
}

#[test]
fn link_to_an_mp3_file_is_fetched() {
    let h = handler();
    let step = h.process(&text_message("http://host/dir/song.mp3", Some(sender())));
    assert_eq!(step.effect, Effect::FetchUrl { url: "http://host/dir/song.mp3".to_string() });
    assert_eq!(step.state.stage, PodcastStage::FetchingAudio);
    assert_eq!(step.state.key, "bob/audio/song.mp3.mp3");
    assert_eq!(
        step.state.record,
        VideoMetadata {
            file_size: 0,
            file_url: "https://storage.yandexcloud.net/bucket/bob/audio/song.mp3.mp3".to_string(),
            video_id: String::new(),
            created_at: Timestamp { secs: 0, nanos: 0 },
            name: "song.mp3".to_string(),
            original_link: "http://host/dir/song.mp3".to_string(),
            mime_type: "audio/mp3".to_string(),
        }
    );
    let step = h.resume(step.state, Event::Content(vec![1, 2, 3]));
    assert_eq!(
        step.effect,
        Effect::UploadBytes { key: "bob/audio/song.mp3.mp3".to_string(), bytes: vec![1, 2, 3] }
    );
    assert_eq!(step.state.record.file_size, 3);
    let step = h.resume(step.state, Event::Completed);
    assert_eq!(step.effect, Effect::Now);
    assert_eq!(step.state.stage, PodcastStage::Dating);
}

#[test]
fn other_links_are_asked_for_their_content_type() {
    let h = handler();
    let step = h.process(&text_message("https://host/stream", Some(sender())));
    assert_eq!(step.effect, Effect::ProbeContentType { url: "https://host/stream".to_string() });
    assert_eq!(step.state.stage, PodcastStage::Probing);
    let audio = h.resume(step.state.clone(), Event::ContentType(Some("audio/mpeg".to_string())));
    assert_eq!(audio.effect, Effect::FetchUrl { url: "https://host/stream".to_string() });
    assert_eq!(audio.state.key, "bob/audio/stream.mp3");
    let page = h.resume(step.state.clone(), Event::ContentType(Some("text/html".to_string())));
    assert_eq!(page, Step { state: finished(), effect: Effect::Finish });
    let unknown = h.resume(step.state, Event::ContentType(None));
    assert_eq!(unknown, Step { state: finished(), effect: Effect::Finish });
    assert!(PodcastHandler::is_audio(&Some("audio/mpeg".to_string())));
    assert!(!PodcastHandler::is_audio(&Some("audio/mpeg; charset=x".to_string())));
    assert!(!PodcastHandler::is_audio(&None));
}

#[test]
fn other_messages_are_ignored_by_the_podcast_handler() {
    let h = handler();
    for text in ["ping", "ftp://host/a.mp3", "", "see https://youtu.be/abc"] {
        assert_eq!(
            h.process(&text_message(text, Some(sender()))),
            Step { state: finished(), effect: Effect::Finish }
        );
    }
}

#[test]
fn answer_that_tells_where_the_feed_is() {
    assert_eq!(
        PodcastHandler::send_success_message(origin(), "https://x/feed.xml"),
        SendMessage {
            chat_id: "42".to_string(),
            text: "RSS фид успешно обновлен и доступен по адресу: https://x/feed.xml".to_string(),
            reply_to_message_id: Some(5),
        }
    );
}

fn under_way(h: &PodcastHandler, name: &str, secs: u64) -> Step<PodcastState> {
    let mut state = video_state(PodcastStage::Dating, record(name, 0));
    state.username = "bob".to_string();
    h.resume(state, Event::Time(Timestamp { secs, nanos: 3 }))
}

fn through_the_lock(
    h: &PodcastHandler,
    asking: Step<PodcastState>,
    object: &mut Option<Vec<u8>>,
    held: &mut bool,
) -> Step<PodcastState> {
    assert_eq!(asking.effect, Effect::Lock { user: "bob".to_string() });
    assert!(!*held);
    *held = true;
    let mut step = h.resume(asking.state, Event::Completed);
    loop {
        let event = match step.effect.clone() {
            Effect::LoadObject { key } => {
                assert_eq!(key, "bob/metadata.mp");
                Event::Object(object.clone())
            }
            Effect::UploadBytes { key, bytes } => {
                if key == "bob/metadata.mp" {
                    *object = Some(bytes);
                }
                Event::Completed
            }
            Effect::Unlock { user } => {
                assert_eq!(user, "bob");
                *held = false;
                return h.resume(step.state, Event::Completed);
            }
            other => panic!("unexpected effect under the lock: {:?}", other),
        };
        step = h.resume(step.state, event);
    }
}

#[test]
fn handlings_for_one_user_that_overlap_lose_nothing() {
    let h = handler();
    let mut object = None;
    let mut held = false;
    let first = under_way(&h, "first", 1);
    let second = under_way(&h, "second", 2);
    let third = under_way(&h, "third", 3);
    let second = through_the_lock(&h, second, &mut object, &mut held);
    let first = through_the_lock(&h, first, &mut object, &mut held);
    let third = through_the_lock(&h, third, &mut object, &mut held);
    for step in [first, second, third] {
        assert!(matches!(step.effect, Effect::SendText(_)));
    }
    let stored = MetadataStorage::load_metadata(Fetched::Found(object.unwrap())).unwrap();
    let names: Vec<&str> = stored.iter().map(|r| r.name.as_str()).collect();
    assert_eq!(names, vec!["third", "first", "second"]);
}
