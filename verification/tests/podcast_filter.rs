use relay_bot::error::{BotError, ErrorKind};
use relay_bot::handlers::podcast_filter::{FilterPlan, PodcastFilter};
use relay_bot::handlers::youtube2rss::s3_storage::ObjectRef;
use relay_bot::telegram_api::{Chat, Message};

fn filter() -> PodcastFilter {
    PodcastFilter::new("youtube-dl".to_string(), "/tmp".to_string(), "bucket".to_string())
}

#[test]
fn test_download() {
    let filter = filter();
    let result = filter
        .download("https://www.youtube.com/watch?v=1BVPmUuZSlU", "/tmp/%(id)s.%(ext)s");
    assert_eq!(
        result,
        vec![
            "-x".to_string(),
            "--audio-format".to_string(),
            "mp3".to_string(),
            "-o".to_string(),
            "/tmp/%(id)s.%(ext)s".to_string(),
            "https://www.youtube.com/watch?v=1BVPmUuZSlU".to_string(),
        ]
    );
}

#[test]
fn process_url_test() {
    let filter = filter();
    let plan = filter.process_url("https://www.youtube.com/watch?v=1BVPmUuZSlU").unwrap();
    assert_eq!(
        plan,
        FilterPlan {
            program: "youtube-dl".to_string(),
            args: filter
                .download("https://www.youtube.com/watch?v=1BVPmUuZSlU", "/tmp/%(id)s.%(ext)s"),
            file: "/tmp/1BVPmUuZSlU.mp3".to_string(),
            bucket: "bucket".to_string(),
            key: "data/1BVPmUuZSlU.mp3".to_string(),
        }
    );
}

#[test]
fn filter_finds_the_identifier() {
    assert_eq!(filter().extract_id("watch?v=abc123&x=1"), Ok("abc123".to_string()));
    assert_eq!(filter().extract_id("watch?v=ab-c"), Ok("ab".to_string()));
    assert_eq!(
        filter().extract_id("watch"),
        Err(BotError::new(ErrorKind::NotFound, "Can't parse video id from youtube url"))
    );
    assert_eq!(
        filter().upload_file("data/a.mp3".to_string()),
        ObjectRef { bucket: "bucket".to_string(), key: "data/a.mp3".to_string() }
    );
}

#[test]
fn filter_reacts_to_links_to_videos_only() {
    let message = |text: &str| Message {
        message_id: 1,
        from: None,
        text: Some(text.to_string()),
        document: None,
        chat: Chat { id: 1 },
    };
    assert_eq!(filter().process(&message("ping")), None);
    assert_eq!(filter().process(&message("https://youtu.be/abc")), None);
    assert!(matches!(
        filter().process(&message("https://www.youtube.com/watch?v=abc")),
        Some(Ok(_))
    ));
    assert!(matches!(
        filter().process(&message("https://www.youtube.com/watch")),
        Some(Err(_))
    ));
}
