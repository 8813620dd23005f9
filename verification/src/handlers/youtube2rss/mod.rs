//! Turning links to videos and audio files into the episodes of a per-user
//! podcast feed.

pub mod metadata;
pub mod s3_storage;
pub mod sharing;
pub mod youtube_sdk;

use std::collections::VecDeque;
use vstd::prelude::*;
use crate::error::{BotError, BotErrorView, ErrorKind, text_or_failure};
use crate::handlers::{Effect, EffectView, Event, EventView, Step, conclude, conclusion, unexpected, unexpected_event};
use crate::handlers::downloader::{tool_failure, tool_succeeded};
use crate::handlers::youtube2rss::metadata::{MetadataStorage, Timestamp, VideoMetadata, VideoMetadataView, blank_record, list_from_object, prepend, unwritable_list};
use crate::handlers::youtube2rss::s3_storage::{Fetched, S3Storage, public_url};
use crate::handlers::youtube2rss::youtube_sdk::YoutubeSdk;
use crate::outside::{msgpack_of_episodes, regex_capture, regex_named_group, render_channel, rfc2822, rfc2822_utc, rss_document};
use crate::telegram_api::{Message, MessageView, Origin, SendMessage, User, answer, origin_of};
use crate::text::{decimal, ends_with, i64_to_decimal, join2, join_path, last_segment, last_segment_of, path_join, same_text, starts_with, u64_to_decimal};

verus! {

/// The key of the stored episode list of `user`.
pub fn metadata_path(user: &str) -> (r: String)
    ensures
        r@ == user@ + "/metadata.mp"@,
{
    join2(user, "/metadata.mp")
}

/// The key prefix of the audio files of `user`.
pub fn data_path(user: &str) -> (r: String)
    ensures
        r@ == user@ + "/audio"@,
{
    join2(user, "/audio")
}

/// The key of the feed document of `user`.
pub fn rss_path(user: &str) -> (r: String)
    ensures
        r@ == user@ + "/feed.xml"@,
{
    join2(user, "/feed.xml")
}

/// One entry of a feed.
#[derive(Clone, Debug, PartialEq, Eq)]
pub struct FeedItem {
    pub title: String,
    pub pub_date: String,
    pub url: String,
    pub length: String,
    pub mime_type: String,
}

pub struct FeedItemView {
    pub title: Seq<char>,
    pub pub_date: Seq<char>,
    pub url: Seq<char>,
    pub length: Seq<char>,
    pub mime_type: Seq<char>,
}

impl DeepView for FeedItem {
    type V = FeedItemView;

    open spec fn deep_view(&self) -> FeedItemView {
        FeedItemView {
            title: self.title@,
            pub_date: self.pub_date@,
            url: self.url@,
            length: self.length@,
            mime_type: self.mime_type@,
        }
    }
}

impl View for FeedItem {
    type V = FeedItemView;

    open spec fn view(&self) -> FeedItemView {
        self.deep_view()
    }
}

/// The last second that can be written as a date with a year of four digits:
/// the end of the year 9999.
pub const LAST_DATABLE_SECOND: u64 = 253_402_300_799;

/// Whether a moment can be written as the date of a feed entry.
pub open spec fn datable(t: Timestamp) -> bool {
    t.secs <= LAST_DATABLE_SECOND && t.nanos < 1_000_000_000
}

/// The feed entry of a record: its name as the title, its moment of creation
/// as the date, and the stored file as the enclosure, with its address, its
/// size in decimal and its type.
pub open spec fn feed_item(m: VideoMetadataView) -> FeedItemView {
    FeedItemView {
        title: m.name,
        pub_date: rfc2822_utc(m.created_at.secs as int, m.created_at.nanos as int),
        url: m.file_url,
        length: decimal(m.file_size as int),
        mime_type: m.mime_type,
    }
}

/// The entries of the feed of a list: one per record, in the order of the
/// list.
pub open spec fn feed_items(list: Seq<VideoMetadataView>) -> Seq<FeedItemView> {
    Seq::new(list.len(), |i: int| feed_item(list[i]))
}

/// The title of the feed of `user`.
pub open spec fn feed_title(user: Seq<char>) -> Seq<char> {
    "Куточок "@ + user
}

/// Whether every record of a list can be dated.
pub open spec fn all_datable(list: Seq<VideoMetadataView>) -> bool {
    forall|i: int| 0 <= i < list.len() ==> datable(#[trigger] list[i].created_at)
}

/// The failure for a list with a record that cannot be dated.
pub open spec fn undatable_record() -> BotErrorView {
    BotErrorView {
        kind: ErrorKind::Validation,
        detail: "date cannot be represented by RFC 2822"@,
    }
}

/// The feed document of `user` for a list of records, or the failure to date
/// one of them.
pub open spec fn feed_document(user: Seq<char>, list: Seq<VideoMetadataView>) -> Result<
    Seq<char>,
    BotErrorView,
> {
    if all_datable(list) {
        Ok(rss_document(feed_title(user), feed_items(list)))
    } else {
        Err(undatable_record())
    }
}

/// Builds the feed entry of a record, or nothing for a record that cannot be
/// dated.
pub fn feed_entry(item: &VideoMetadata) -> (r: Option<FeedItem>)
    ensures
        r.deep_view() == if datable(item.created_at) {
            Some(feed_item(item@))
        } else {
            None
        },
{
    if item.created_at.secs > LAST_DATABLE_SECOND || item.created_at.nanos >= 1_000_000_000 {
        return None;
    }
    match rfc2822(item.created_at.secs, item.created_at.nanos) {
        Some(pub_date) => Some(
            FeedItem {
                title: item.name.clone(),
                pub_date,
                url: item.file_url.clone(),
                length: u64_to_decimal(item.file_size),
                mime_type: item.mime_type.clone(),
            },
        ),
        None => None,
    }
}

/// Generates the feed document of `user` from the list of records: an entry
/// for each record, in the order of the list.  A list with a record that
/// cannot be dated yields a failure instead.
pub fn generate_rss(user: &str, metadata: &VecDeque<VideoMetadata>) -> (r: Result<String, BotError>)
    ensures
        text_or_failure(r) == feed_document(
            user@,
            metadata.deep_view(),
        ),
{
    let mut items: Vec<FeedItem> = Vec::new();
    let n = metadata.len();
    let mut i: usize = 0;
    while i < n
        invariant
            i <= n,
            n == metadata@.len(),
            items@.len() == i,
            forall|k: int| 0 <= k < i ==> datable(#[trigger] metadata.deep_view()[k].created_at),
            forall|k: int| 0 <= k < i ==> (#[trigger] items@[k])@ == feed_item(metadata@[k]@),
        decreases n - i,
    {
        assert(metadata.deep_view()[i as int] == metadata@[i as int]@);
        match feed_entry(&metadata[i]) {
            Some(entry) => {
                items.push(entry);
            },
            None => {
                assert(!datable(metadata.deep_view()[i as int].created_at));
                return Err(
                    BotError::new(
                        ErrorKind::Validation,
                        "date cannot be represented by RFC 2822",
                    ),
                );
            },
        }
        i += 1;
        assert forall|k: int| 0 <= k < i implies datable(
            #[trigger] metadata.deep_view()[k].created_at,
        ) by {
            assert(metadata.deep_view()[k] == metadata@[k]@);
        }
    }
    let title = join2("Куточок ", user);
    assert(items.deep_view() =~= feed_items(metadata.deep_view())) by {
        assert forall|k: int| 0 <= k < n implies items.deep_view()[k] == feed_items(
            metadata.deep_view(),
        )[k] by {
            assert(items.deep_view()[k] == items@[k]@);
            assert(metadata.deep_view()[k] == metadata@[k]@);
        }
    }
    Ok(render_channel(title.as_str(), &items))
}

/// After a record is put in front of a list, the feed has exactly as many
/// entries as the list has records, and its first entry is the entry of the
/// record just added.
pub proof fn lemma_feed_follows_the_list(list: Seq<VideoMetadataView>, record: VideoMetadataView)
    ensures
        feed_items(prepend(list, record)).len() == prepend(list, record).len(),
        prepend(list, record).len() == list.len() + 1,
        feed_items(prepend(list, record))[0] == feed_item(record),
        forall|i: int|
            0 <= i < list.len() ==> #[trigger] feed_items(prepend(list, record))[i + 1]
                == feed_item(list[i]),
{
}

/// A feed can be made of every list whose records can all be dated, and it is
/// the document of one entry per record; of a list with a record that cannot
/// be dated no feed is made.
pub proof fn lemma_feed_is_made_of_datable_lists(user: Seq<char>, list: Seq<VideoMetadataView>)
    ensures
        all_datable(list) ==> feed_document(user, list) == Ok::<Seq<char>, BotErrorView>(
            rss_document(feed_title(user), feed_items(list)),
        ) && feed_items(list).len() == list.len(),
        !all_datable(list) ==> feed_document(user, list) == Err::<Seq<char>, BotErrorView>(
            undatable_record(),
        ),
{
}

/// Records put in front of a list one after another are all kept: the list
/// grows by one with each, none of the earlier records is lost or moved
/// relative to the others, and the record added last comes first.
pub open spec fn prepend_all(list: Seq<VideoMetadataView>, records: Seq<VideoMetadataView>) -> Seq<
    VideoMetadataView,
>
    decreases records.len(),
{
    if records.len() == 0 {
        list
    } else {
        prepend(prepend_all(list, records.drop_last()), records.last())
    }
}

/// When additions to one list are made one at a time, none is lost: after as
/// many additions as there are records, the list is longer by that number, the
/// records it had are still at its end, and each added record is in it.
pub proof fn lemma_no_addition_is_lost(list: Seq<VideoMetadataView>, records: Seq<VideoMetadataView>)
    ensures
        prepend_all(list, records).len() == list.len() + records.len(),
        forall|i: int|
            0 <= i < list.len() ==> #[trigger] prepend_all(list, records)[records.len() + i]
                == list[i],
        forall|j: int|
            0 <= j < records.len() ==> #[trigger] prepend_all(list, records)[records.len() - 1
                - j] == records[j],
    decreases records.len(),
{
    if records.len() > 0 {
        lemma_no_addition_is_lost(list, records.drop_last());
        let before = prepend_all(list, records.drop_last());
        let after = prepend_all(list, records);
        assert(after == prepend(before, records.last()));
        assert forall|i: int| 0 <= i < list.len() implies #[trigger] after[records.len() + i]
            == list[i] by {
            assert(after[records.len() + i] == before[records.drop_last().len() + i]);
        }
        assert forall|j: int| 0 <= j < records.len() implies #[trigger] after[records.len() - 1
            - j] == records[j] by {
            if j < records.len() - 1 {
                assert(after[records.len() - 1 - j] == before[records.drop_last().len() - 1
                    - j]);
                assert(records.drop_last()[j] == records[j]);
            }
        }
    }
}

/// How far the making of an episode has come.
#[derive(Clone, Copy, Debug, PartialEq, Eq, Structural)]
pub enum PodcastStage {
    /// Asking what kind of content is behind a link.
    Probing,
    /// The download tool is running.
    Extracting,
    /// The downloaded file is on its way to storage.
    Uploading,
    /// Asking for the size of the downloaded file.
    Measuring,
    /// Asking the video service for the title.
    LookingUp,
    /// Fetching the audio file behind a link.
    FetchingAudio,
    /// The fetched audio is on its way to storage.
    UploadingAudio,
    /// Reading the clock.
    Dating,
    /// Waiting for the lock on the stored lists.
    Locking,
    /// Under the lock: reading the stored list.
    Loading,
    /// Under the lock: the new list is on its way to storage.
    StoringList,
    /// Under the lock: the new feed is on its way to storage.
    StoringFeed,
    /// Giving the lock back.
    Unlocking,
    /// The answer to the chat is on its way.
    Replying,
    /// Nothing is left to do.
    Finished,
}

/// Where the podcast handler stands with a message.
#[derive(Clone, Debug, PartialEq, Eq)]
pub struct PodcastState {
    pub stage: PodcastStage,
    pub origin: Origin,
    /// The first name of the sender, while it is not known yet whether the
    /// message is for this handler.
    pub sender: Option<String>,
    /// The user whose feed is extended.
    pub username: String,
    pub url: String,
    /// The downloaded file.
    pub local_path: String,
    /// The key of the audio in storage.
    pub key: String,
    /// The record of the new episode, as far as it is known.
    pub record: VideoMetadata,
    /// The list of the user with the new episode in front, once it is made.
    pub list: VecDeque<VideoMetadata>,
    /// The failure to report once the lock is given back, if there is one.
    pub failure: Option<BotError>,
}

pub struct PodcastStateView {
    pub stage: PodcastStage,
    pub origin: Origin,
    pub sender: Option<Seq<char>>,
    pub username: Seq<char>,
    pub url: Seq<char>,
    pub local_path: Seq<char>,
    pub key: Seq<char>,
    pub record: VideoMetadataView,
    pub list: Seq<VideoMetadataView>,
    pub failure: Option<BotErrorView>,
}

impl DeepView for PodcastState {
    type V = PodcastStateView;

    open spec fn deep_view(&self) -> PodcastStateView {
        PodcastStateView {
            stage: self.stage,
            origin: self.origin,
            sender: self.sender.deep_view(),
            username: self.username@,
            url: self.url@,
            local_path: self.local_path@,
            key: self.key@,
            record: self.record@,
            list: self.list.deep_view(),
            failure: self.failure.deep_view(),
        }
    }
}

impl View for PodcastState {
    type V = PodcastStateView;

    open spec fn view(&self) -> PodcastStateView {
        self.deep_view()
    }
}

/// The state of a handling that has ended.
pub open spec fn podcast_finished() -> PodcastStateView {
    PodcastStateView {
        stage: PodcastStage::Finished,
        origin: Origin { chat_id: 0, message_id: 0 },
        sender: None,
        username: Seq::empty(),
        url: Seq::empty(),
        local_path: Seq::empty(),
        key: Seq::empty(),
        record: blank_record(),
        list: Seq::empty(),
        failure: None,
    }
}

/// The configuration of the podcast handler, as its steps read it.
pub struct PodcastView {
    pub youtube_extractor: Seq<char>,
    pub tmp_dir: Seq<char>,
    /// The bucket that takes the audio and the feed.
    pub bucket: Seq<char>,
    /// The key of the video service.
    pub api_key: Seq<char>,
    /// The bucket that holds the lists.
    pub list_bucket: Seq<char>,
}

/// Whether a text begins like a link to a video.
pub open spec fn youtube_link(t: Seq<char>) -> bool {
    "https://www.youtube.com/watch"@.is_prefix_of(t) || "https://youtu.be/"@.is_prefix_of(t)
}

/// Whether the podcast handler reacts to a message: its text begins like a
/// link to a video, or like a link at all.  A link of the second kind is first
/// asked for its content type, unless it ends in `.mp3`.
pub open spec fn podcast_trigger(m: MessageView) -> bool {
    m.text matches Some(t) && (youtube_link(t) || "http"@.is_prefix_of(t))
}

/// The expression that finds the identifier in a link to a video.
pub open spec fn podcast_id_pattern() -> Seq<char> {
    "(v=|youtu.be/)(?P<id>[^&]*)"@
}

/// The failure for a link to a video without an identifier.
pub open spec fn no_id_in_youtube_url() -> BotErrorView {
    BotErrorView { kind: ErrorKind::NotFound, detail: "Can't parse video id from youtube url"@ }
}

/// The failure for a message without a sender.
pub open spec fn no_sender() -> BotErrorView {
    BotErrorView {
        kind: ErrorKind::Validation,
        detail: "Empty user of message. Can't manage podcasts for empty user"@,
    }
}

/// The failure for a video the video service knows nothing of.
pub open spec fn no_video_info() -> BotErrorView {
    BotErrorView { kind: ErrorKind::NotFound, detail: "Received empty video info"@ }
}

/// The failure for an expression that the regex engine refuses.
pub open spec fn podcast_pattern_refused() -> BotErrorView {
    BotErrorView { kind: ErrorKind::Validation, detail: "Failed to compile video id Regex"@ }
}

/// The identifier of the video behind a link: what the group `id` of the
/// expression holds.  A link in which the expression finds nothing and an
/// expression that the regex engine refuses are failures.
pub open spec fn podcast_video_id(url: Seq<char>) -> Result<Seq<char>, BotErrorView> {
    match regex_named_group(podcast_id_pattern(), "id"@, url) {
        Some(Some(id)) => Ok(id),
        Some(None) => Err(no_id_in_youtube_url()),
        None => Err(podcast_pattern_refused()),
    }
}

/// The arguments of the download tool: the audio format, the template of the
/// output path, and the link.
pub open spec fn extractor_args(template: Seq<char>, url: Seq<char>) -> Seq<Seq<char>> {
    seq!["-f"@, "bestaudio[ext=m4a]"@, "-o"@, template, url]
}

/// The template of the output path for the message `message_id`: the tool
/// fills in the identifier and the extension.
pub open spec fn output_template(tmp_dir: Seq<char>, message_id: int) -> Seq<char> {
    path_join(tmp_dir, decimal(message_id) + "%(id)s.%(ext)s"@)
}

/// The file the tool writes for the message `message_id`.
pub open spec fn downloaded_file(
    tmp_dir: Seq<char>,
    message_id: int,
    video_id: Seq<char>,
    extension: Seq<char>,
) -> Seq<char> {
    path_join(tmp_dir, decimal(message_id) + video_id + "."@ + extension)
}

/// The storage key of the audio `name` of `user`, with its extension.
pub open spec fn audio_key(user: Seq<char>, name: Seq<char>, extension: Seq<char>) -> Seq<char> {
    user + "/audio"@ + "/"@ + name + "."@ + extension
}

/// The text that tells a chat where its feed is.
pub open spec fn success_text(rss_feed_url: Seq<char>) -> Seq<char> {
    "RSS фид успешно обновлен и доступен по адресу: "@ + rss_feed_url
}

/// The first step for a link to a video: the run of the download tool.  A
/// message without a sender and a link without an identifier are failures.
pub open spec fn video_start(
    h: PodcastView,
    origin: Origin,
    sender: Option<Seq<char>>,
    url: Seq<char>,
    extension: Seq<char>,
) -> (PodcastStateView, EffectView) {
    match sender {
        None => (podcast_finished(), EffectView::Fail(no_sender())),
        Some(user) => match podcast_video_id(url) {
            Err(e) => (podcast_finished(), EffectView::Fail(e)),
            Ok(video_id) => video_start_with(h, origin, user, url, extension, video_id),
        },
    }
}

/// The run of the download tool for the video `video_id` behind `url`, on
/// behalf of `user`.
pub open spec fn video_start_with(
    h: PodcastView,
    origin: Origin,
    user: Seq<char>,
    url: Seq<char>,
    extension: Seq<char>,
    video_id: Seq<char>,
) -> (PodcastStateView, EffectView) {
    let key = audio_key(user, video_id, extension);
    (
        PodcastStateView {
            stage: PodcastStage::Extracting,
            origin,
            sender: None,
            username: user,
            url,
            local_path: downloaded_file(h.tmp_dir, origin.message_id as int, video_id, extension),
            key,
            record: VideoMetadataView {
                file_url: public_url(h.bucket, key),
                video_id,
                original_link: url,
                mime_type: "audio/"@ + extension,
                ..blank_record()
            },
            list: Seq::empty(),
            failure: None,
        },
        EffectView::RunExtractor {
            program: h.youtube_extractor,
            args: extractor_args(output_template(h.tmp_dir, origin.message_id as int), url),
            clear_proxy: true,
        },
    )
}

/// The first step for a link to an audio file: fetching it.  A message without
/// a sender is a failure.
pub open spec fn audio_start(
    h: PodcastView,
    origin: Origin,
    sender: Option<Seq<char>>,
    url: Seq<char>,
) -> (PodcastStateView, EffectView) {
    match sender {
        None => (podcast_finished(), EffectView::Fail(no_sender())),
        Some(user) => {
            let file_name = last_segment(url);
            let key = audio_key(user, file_name, "mp3"@);
            (
                PodcastStateView {
                    stage: PodcastStage::FetchingAudio,
                    origin,
                    sender: None,
                    username: user,
                    url,
                    local_path: Seq::empty(),
                    key,
                    record: VideoMetadataView {
                        file_url: public_url(h.bucket, key),
                        name: file_name,
                        original_link: url,
                        mime_type: "audio/mp3"@,
                        ..blank_record()
                    },
                    list: Seq::empty(),
                    failure: None,
                },
                EffectView::FetchUrl { url },
            )
        },
    }
}

/// The first name of the sender of a message.
pub open spec fn sender_name(m: MessageView) -> Option<Seq<char>> {
    match m.from {
        Some(user) => Some(user.first_name),
        None => None,
    }
}

/// The first step of the podcast handler on a message.
pub open spec fn podcast_start(h: PodcastView, m: MessageView) -> (PodcastStateView, EffectView) {
    match m.text {
        None => (podcast_finished(), EffectView::Finish),
        Some(t) => if youtube_link(t) {
            video_start(h, origin_of(m), sender_name(m), t, "m4a"@)
        } else if "http"@.is_prefix_of(t) {
            if ".mp3"@.is_suffix_of(t) {
                audio_start(h, origin_of(m), sender_name(m), t)
            } else {
                (
                    PodcastStateView {
                        stage: PodcastStage::Probing,
                        origin: origin_of(m),
                        sender: sender_name(m),
                        url: t,
                        ..podcast_finished()
                    },
                    EffectView::ProbeContentType { url: t },
                )
            }
        } else {
            (podcast_finished(), EffectView::Finish)
        },
    }
}

/// The step that gives the lock back and keeps `failure` for the end.
pub open spec fn podcast_release(s: PodcastStateView, failure: Option<BotErrorView>) -> (
    PodcastStateView,
    EffectView,
) {
    (
        PodcastStateView { stage: PodcastStage::Unlocking, failure, ..s },
        EffectView::Unlock { user: s.username },
    )
}

/// The step that ends the handling with a failure.
pub open spec fn podcast_fail(e: BotErrorView) -> (PodcastStateView, EffectView) {
    (podcast_finished(), EffectView::Fail(e))
}

/// The failure that an event stands for when it is not the awaited one.
pub open spec fn failure_of(event: EventView) -> BotErrorView {
    match event {
        EventView::Failed(e) => e,
        _ => unexpected_event(),
    }
}

/// The step under the lock that follows the read of the stored list: the
/// record goes in front of the list, and the new list is sent to storage.
pub open spec fn podcast_after_load(s: PodcastStateView, object: Option<Seq<u8>>) -> (
    PodcastStateView,
    EffectView,
) {
    match list_from_object(object) {
        Err(e) => podcast_release(s, Some(e)),
        Ok(list) => {
            let list = prepend(list, s.record);
            (
                PodcastStateView { stage: PodcastStage::StoringList, list, ..s },
                EffectView::UploadBytes {
                    key: s.username + "/metadata.mp"@,
                    bytes: msgpack_of_episodes(list),
                },
            )
        },
    }
}

/// The step under the lock that follows the storing of the list: the feed is
/// made anew from the whole list and sent to storage.
pub open spec fn podcast_after_list(s: PodcastStateView) -> (PodcastStateView, EffectView) {
    match feed_document(s.username, s.list) {
        Err(e) => podcast_release(s, Some(e)),
        Ok(xml) => (
            PodcastStateView { stage: PodcastStage::StoringFeed, ..s },
            EffectView::UploadBytes {
                key: s.username + "/feed.xml"@,
                bytes: vstd::utf8::encode_utf8(xml),
            },
        ),
    }
}

/// The step that follows the return of the lock: the failure kept for it, if
/// there is one, and otherwise the answer that tells the chat where the feed
/// is.
pub open spec fn podcast_after_unlock(h: PodcastView, s: PodcastStateView, event: EventView) -> (
    PodcastStateView,
    EffectView,
) {
    match s.failure {
        Some(e) => podcast_fail(e),
        None => match event {
            EventView::Completed => (
                PodcastStateView { stage: PodcastStage::Replying, ..s },
                EffectView::SendText(
                    answer(
                        s.origin,
                        success_text(public_url(h.bucket, s.username + "/feed.xml"@)),
                    ),
                ),
            ),
            _ => podcast_fail(failure_of(event)),
        },
    }
}

/// The step of the podcast handler from a state on an event.  Before the lock
/// is taken and after it is given back, a failed effect ends the handling with
/// that failure.  Under the lock a failure is kept, and the lock is given back
/// first.
pub open spec fn podcast_resume(h: PodcastView, s: PodcastStateView, event: EventView) -> (
    PodcastStateView,
    EffectView,
) {
    match s.stage {
        PodcastStage::Finished => podcast_fail(unexpected_event()),
        PodcastStage::Replying => (podcast_finished(), conclusion(event)),
        PodcastStage::Probing => match event {
            EventView::ContentType(content_type) => if content_type == Some("audio/mpeg"@) {
                audio_start(h, s.origin, s.sender, s.url)
            } else {
                (podcast_finished(), EffectView::Finish)
            },
            _ => podcast_fail(failure_of(event)),
        },
        PodcastStage::Extracting => match event {
            EventView::Exited { code, output } => if tool_succeeded(code) {
                (
                    PodcastStateView { stage: PodcastStage::Uploading, ..s },
                    EffectView::UploadFile { path: s.local_path, key: s.key },
                )
            } else {
                podcast_fail(tool_failure(output))
            },
            _ => podcast_fail(failure_of(event)),
        },
        PodcastStage::Uploading => match event {
            EventView::Completed => (
                PodcastStateView { stage: PodcastStage::Measuring, ..s },
                EffectView::FileSize { path: s.local_path },
            ),
            _ => podcast_fail(failure_of(event)),
        },
        PodcastStage::Measuring => match event {
            EventView::Size(size) => (
                PodcastStateView {
                    stage: PodcastStage::LookingUp,
                    record: VideoMetadataView { file_size: size as nat, ..s.record },
                    ..s
                },
                EffectView::LookupVideo { video_id: s.record.video_id },
            ),
            _ => podcast_fail(failure_of(event)),
        },
        PodcastStage::LookingUp => match event {
            EventView::VideoInfo(Some(info)) => (
                PodcastStateView {
                    stage: PodcastStage::Dating,
                    record: VideoMetadataView { name: info.title, ..s.record },
                    ..s
                },
                EffectView::Now,
            ),
            EventView::VideoInfo(None) => podcast_fail(no_video_info()),
            _ => podcast_fail(failure_of(event)),
        },
        PodcastStage::FetchingAudio => match event {
            EventView::Content(bytes) => (
                PodcastStateView {
                    stage: PodcastStage::UploadingAudio,
                    record: VideoMetadataView { file_size: bytes.len(), ..s.record },
                    ..s
                },
                EffectView::UploadBytes { key: s.key, bytes },
            ),
            _ => podcast_fail(failure_of(event)),
        },
        PodcastStage::UploadingAudio => match event {
            EventView::Completed => (
                PodcastStateView { stage: PodcastStage::Dating, ..s },
                EffectView::Now,
            ),
            _ => podcast_fail(failure_of(event)),
        },
        PodcastStage::Dating => match event {
            EventView::Time(moment) => (
                PodcastStateView {
                    stage: PodcastStage::Locking,
                    record: VideoMetadataView { created_at: moment, ..s.record },
                    ..s
                },
                EffectView::Lock { user: s.username },
            ),
            _ => podcast_fail(failure_of(event)),
        },
        PodcastStage::Locking => match event {
            EventView::Completed => (
                PodcastStateView { stage: PodcastStage::Loading, ..s },
                EffectView::LoadObject { key: s.username + "/metadata.mp"@ },
            ),
            _ => podcast_fail(failure_of(event)),
        },
        PodcastStage::Loading => match event {
            EventView::Object(object) => podcast_after_load(s, object),
            _ => podcast_release(s, Some(failure_of(event))),
        },
        PodcastStage::StoringList => match event {
            EventView::Completed => podcast_after_list(s),
            _ => podcast_release(s, Some(failure_of(event))),
        },
        PodcastStage::StoringFeed => match event {
            EventView::Completed => podcast_release(s, None),
            _ => podcast_release(s, Some(failure_of(event))),
        },
        PodcastStage::Unlocking => podcast_after_unlock(h, s, event),
    }
}

/// The podcast handler and its configuration.
#[derive(Clone, Debug, PartialEq, Eq)]
pub struct PodcastHandler {
    pub youtube_extractor: String,
    pub youtube_sdk: YoutubeSdk,
    pub tmp_dir: String,
    pub s3_client: S3Storage,
    pub metadata: MetadataStorage,
}

impl DeepView for PodcastHandler {
    type V = PodcastView;

    open spec fn deep_view(&self) -> PodcastView {
        PodcastView {
            youtube_extractor: self.youtube_extractor@,
            tmp_dir: self.tmp_dir@,
            bucket: self.s3_client.bucket(),
            api_key: self.youtube_sdk.api_key(),
            list_bucket: self.metadata.s3_storage.bucket(),
        }
    }
}

impl View for PodcastHandler {
    type V = PodcastView;

    open spec fn view(&self) -> PodcastView {
        self.deep_view()
    }
}

/// The first name of a sender, if there is a sender.
pub open spec fn first_name_of(user: Option<&User>) -> Option<Seq<char>> {
    match user {
        Some(u) => Some(u.first_name@),
        None => None,
    }
}

fn finished() -> (r: PodcastState)
    ensures
        r@ == podcast_finished(),
{
    let list: VecDeque<VideoMetadata> = VecDeque::new();
    assert(list.deep_view() =~= Seq::<VideoMetadataView>::empty());
    PodcastState {
        stage: PodcastStage::Finished,
        origin: Origin { chat_id: 0, message_id: 0 },
        sender: None,
        username: String::new(),
        url: String::new(),
        local_path: String::new(),
        key: String::new(),
        record: VideoMetadata::blank(),
        list,
        failure: None,
    }
}

fn fail(e: BotError) -> (r: Step<PodcastState>)
    ensures
        (r.state@, r.effect@) == podcast_fail(e@),
{
    Step { state: finished(), effect: Effect::Fail(e) }
}

fn failure_from(event: Event) -> (r: BotError)
    ensures
        r@ == failure_of(event@),
{
    match event {
        Event::Failed(e) => e,
        _ => unexpected(),
    }
}

fn release(state: PodcastState, failure: Option<BotError>) -> (r: Step<PodcastState>)
    ensures
        (r.state@, r.effect@) == podcast_release(state@, failure.deep_view()),
{
    let mut state = state;
    let user = state.username.clone();
    state.stage = PodcastStage::Unlocking;
    state.failure = failure;
    Step { state, effect: Effect::Unlock { user } }
}

impl PodcastHandler {
    pub fn new(
        youtube_extractor: String,
        tmp_dir: String,
        youtube_sdk: YoutubeSdk,
        s3_client: S3Storage,
        metadata: MetadataStorage,
    ) -> (r: PodcastHandler)
        ensures
            r@ == (PodcastView {
                youtube_extractor: youtube_extractor@,
                tmp_dir: tmp_dir@,
                bucket: s3_client.bucket(),
                api_key: youtube_sdk.api_key(),
                list_bucket: metadata.s3_storage.bucket(),
            }),
            r.youtube_sdk == youtube_sdk,
            r.metadata == metadata,
    {
        PodcastHandler { youtube_extractor, youtube_sdk, tmp_dir, s3_client, metadata }
    }

    pub fn name(&self) -> (r: String)
        ensures
            r@ == "Youtube2Rss"@,
    {
        String::from_str("Youtube2Rss")
    }

    /// Generates the feed document of `user` from the list of records.
    pub fn generate_rss(user: &str, metadata: &VecDeque<VideoMetadata>) -> (r: Result<
        String,
        BotError,
    >)
        ensures
            text_or_failure(r) == feed_document(user@, metadata.deep_view()),
    {
        generate_rss(user, metadata)
    }

    /// Makes the identifier of a video out of what the expression captured in
    /// the link: `None` for the capture stands for no identifier.
    pub fn id_from_capture(capture: Option<String>) -> (r: Result<String, BotError>)
        ensures
            text_or_failure(r) == match capture {
                Some(id) => Ok::<Seq<char>, BotErrorView>(id@),
                None => Err(no_id_in_youtube_url()),
            },
    {
        match capture {
            Some(id) => Ok(id),
            None => Err(
                BotError::new(ErrorKind::NotFound, "Can't parse video id from youtube url"),
            ),
        }
    }

    /// Finds the identifier of the video in a link.
    pub fn extract_id(&self, s: &str) -> (r: Result<String, BotError>)
        ensures
            text_or_failure(r) == podcast_video_id(s@),
    {
        match regex_capture("(v=|youtu.be/)(?P<id>[^&]*)", "id", s) {
            Ok(capture) => Self::id_from_capture(capture),
            Err(_) => Err(BotError::new(ErrorKind::Validation, "Failed to compile video id Regex")),
        }
    }

    /// The arguments with which the tool downloads the audio of `url` to the
    /// path the template `path` describes.
    pub fn download(&self, url: &str, path: &str) -> (r: Vec<String>)
        ensures
            r.deep_view() == extractor_args(path@, url@),
    {
        let mut args: Vec<String> = Vec::new();
        args.push(String::from_str("-f"));
        args.push(String::from_str("bestaudio[ext=m4a]"));
        args.push(String::from_str("-o"));
        args.push(String::from_str(path));
        args.push(String::from_str(url));
        assert(args.deep_view() =~= extractor_args(path@, url@));
        args
    }

    /// Builds the answer that tells the chat where its feed is.
    pub fn send_success_message(origin: Origin, rss_feed_url: &str) -> (r: SendMessage)
        ensures
            r@ == answer(origin, success_text(rss_feed_url@)),
    {
        origin.reply(join2("RSS фид успешно обновлен и доступен по адресу: ", rss_feed_url))
    }

    /// Whether a server announced audio: the content type `audio/mpeg`.
    pub fn is_audio(content_type: &Option<String>) -> (r: bool)
        ensures
            r == (content_type.deep_view() == Some("audio/mpeg"@)),
    {
        match content_type {
            Some(t) => same_text(t.as_str(), "audio/mpeg"),
            None => false,
        }
    }

    /// Starts the making of an episode from a link to a video, given the
    /// identifier found in the link.
    pub fn video_job(
        &self,
        origin: Origin,
        user: &str,
        url: &str,
        extension: &str,
        video_id: Result<String, BotError>,
    ) -> (r: Step<PodcastState>)
        ensures
            (r.state@, r.effect@) == match text_or_failure(video_id) {
                Err(e) => podcast_fail(e),
                Ok(id) => video_start_with(self@, origin, user@, url@, extension@, id),
            },
    {
        match video_id {
            Err(e) => fail(e),
            Ok(id) => {
                let digits = i64_to_decimal(origin.message_id);
                let template_name = join2(digits.as_str(), "%(id)s.%(ext)s");
                let template = join_path(self.tmp_dir.as_str(), template_name.as_str());
                let mut file_name = digits;
                file_name.append(id.as_str());
                file_name.append(".");
                file_name.append(extension);
                let local_path = join_path(self.tmp_dir.as_str(), file_name.as_str());
                let mut key = data_path(user);
                key.append("/");
                key.append(id.as_str());
                key.append(".");
                key.append(extension);
                let mut record = VideoMetadata::blank();
                record.file_url = self.s3_client.get_public_url(key.as_str());
                record.video_id = id;
                record.original_link = String::from_str(url);
                record.mime_type = join2("audio/", extension);
                let args = self.download(url, template.as_str());
                let list: VecDeque<VideoMetadata> = VecDeque::new();
                assert(list.deep_view() =~= Seq::<VideoMetadataView>::empty());
                Step {
                    state: PodcastState {
                        stage: PodcastStage::Extracting,
                        origin,
                        sender: None,
                        username: String::from_str(user),
                        url: String::from_str(url),
                        local_path,
                        key,
                        record,
                        list,
                        failure: None,
                    },
                    effect: Effect::RunExtractor {
                        program: self.youtube_extractor.clone(),
                        args,
                        clear_proxy: true,
                    },
                }
            },
        }
    }

    /// Starts the making of an episode from a link to a video.
    pub fn process_url(&self, url: &str, user: Option<&User>, origin: Origin, extension: &str) -> (r:
        Step<PodcastState>)
        ensures
            (r.state@, r.effect@) == video_start(
                self@,
                origin,
                first_name_of(user),
                url@,
                extension@,
            ),
    {
        match user {
            None => fail(
                BotError::new(
                    ErrorKind::Validation,
                    "Empty user of message. Can't manage podcasts for empty user",
                ),
            ),
            Some(u) => {
                let video_id = self.extract_id(url);
                self.video_job(origin, u.first_name.as_str(), url, extension, video_id)
            },
        }
    }

    /// Starts the making of an episode from a link to an audio file.
    pub fn process_mp3(&self, user: Option<&str>, url: String, origin: Origin) -> (r: Step<
        PodcastState,
    >)
        ensures
            (r.state@, r.effect@) == audio_start(
                self@,
                origin,
                match user {
                    Some(name) => Some(name@),
                    None => None,
                },
                url@,
            ),
    {
        match user {
            None => fail(
                BotError::new(
                    ErrorKind::Validation,
                    "Empty user of message. Can't manage podcasts for empty user",
                ),
            ),
            Some(name) => {
                let file_name = last_segment_of(url.as_str());
                let mut key = data_path(name);
                key.append("/");
                key.append(file_name.as_str());
                key.append(".");
                key.append("mp3");
                let mut record = VideoMetadata::blank();
                record.file_url = self.s3_client.get_public_url(key.as_str());
                record.name = file_name;
                record.original_link = url.clone();
                record.mime_type = String::from_str("audio/mp3");
                let list: VecDeque<VideoMetadata> = VecDeque::new();
                assert(list.deep_view() =~= Seq::<VideoMetadataView>::empty());
                Step {
                    effect: Effect::FetchUrl { url: url.clone() },
                    state: PodcastState {
                        stage: PodcastStage::FetchingAudio,
                        origin,
                        sender: None,
                        username: String::from_str(name),
                        url,
                        local_path: String::new(),
                        key,
                        record,
                        list,
                        failure: None,
                    },
                }
            },
        }
    }

    /// Looks at a message and says what to do first.
    pub fn process(&self, m: &Message) -> (r: Step<PodcastState>)
        ensures
            (r.state@, r.effect@) == podcast_start(self@, m@),
    {
        match &m.text {
            None => Step { state: finished(), effect: Effect::Finish },
            Some(s) => {
                let text = s.as_str();
                if starts_with(text, "https://www.youtube.com/watch") || starts_with(
                    text,
                    "https://youtu.be/",
                ) {
                    self.process_url(text, m.from.as_ref(), m.origin(), "m4a")
                } else if starts_with(text, "http") {
                    let sender = match &m.from {
                        Some(u) => Some(u.first_name.clone()),
                        None => None,
                    };
                    if ends_with(text, ".mp3") {
                        let name = match &sender {
                            Some(n) => Some(n.as_str()),
                            None => None,
                        };
                        self.process_mp3(name, s.clone(), m.origin())
                    } else {
                        let mut state = finished();
                        state.stage = PodcastStage::Probing;
                        state.origin = m.origin();
                        state.sender = sender;
                        state.url = s.clone();
                        Step { state, effect: Effect::ProbeContentType { url: s.clone() } }
                    }
                } else {
                    Step { state: finished(), effect: Effect::Finish }
                }
            },
        }
    }
}

impl PodcastHandler {
    /// Puts the record of the new episode in front of the list of the user and
    /// writes the new list as bytes for storage.  `written` is the outcome of
    /// the writing.
    pub fn store_list(
        state: PodcastState,
        list: VecDeque<VideoMetadata>,
        written: Result<Vec<u8>, BotError>,
    ) -> (r: Step<PodcastState>)
        ensures
            (r.state@, r.effect@) == match written {
                Ok(bytes) => (
                    PodcastStateView {
                        stage: PodcastStage::StoringList,
                        list: list.deep_view(),
                        ..state@
                    },
                    EffectView::UploadBytes { key: state@.username + "/metadata.mp"@, bytes: bytes@ },
                ),
                Err(e) => podcast_release(state@, Some(e@)),
            },
    {
        match written {
            Ok(bytes) => {
                let key = metadata_path(state.username.as_str());
                let mut state = state;
                state.stage = PodcastStage::StoringList;
                state.list = list;
                Step { state, effect: Effect::UploadBytes { key, bytes } }
            },
            Err(e) => release(state, Some(e)),
        }
    }

    /// Takes the report of the last effect and says what to do next.  The step
    /// is the one of [`podcast_resume`].  The one exception is the step that
    /// writes the list of the user as bytes, after the stored list has been
    /// read: when the writing fails, the lock is given back and the handling
    /// ends with that failure.
    pub fn resume(&self, state: PodcastState, event: Event) -> (r: Step<PodcastState>)
        ensures
            (r.state@, r.effect@) == podcast_resume(self@, state@, event@) || (writes_list(
                state@,
                event@,
            ) && (r.state@, r.effect@) == podcast_release(state@, Some(unwritable_list()))),
    {
        let mut state = state;
        match state.stage {
            PodcastStage::Finished => fail(unexpected()),
            PodcastStage::Replying => Step { state: finished(), effect: conclude(event) },
            PodcastStage::Probing => match event {
                Event::ContentType(content_type) => {
                    if Self::is_audio(&content_type) {
                        let name = match &state.sender {
                            Some(n) => Some(n.as_str()),
                            None => None,
                        };
                        self.process_mp3(name, state.url.clone(), state.origin)
                    } else {
                        Step { state: finished(), effect: Effect::Finish }
                    }
                },
                other => fail(failure_from(other)),
            },
            PodcastStage::Extracting => match event {
                Event::Exited { code, output } => match code {
                    Some(0) => {
                        let effect = Effect::UploadFile {
                            path: state.local_path.clone(),
                            key: state.key.clone(),
                        };
                        state.stage = PodcastStage::Uploading;
                        Step { state, effect }
                    },
                    _ => fail(BotError { kind: ErrorKind::Subprocess, detail: output }),
                },
                other => fail(failure_from(other)),
            },
            PodcastStage::Uploading => match event {
                Event::Completed => {
                    let effect = Effect::FileSize { path: state.local_path.clone() };
                    state.stage = PodcastStage::Measuring;
                    Step { state, effect }
                },
                other => fail(failure_from(other)),
            },
            PodcastStage::Measuring => match event {
                Event::Size(size) => {
                    let effect = Effect::LookupVideo { video_id: state.record.video_id.clone() };
                    state.stage = PodcastStage::LookingUp;
                    state.record.file_size = size;
                    Step { state, effect }
                },
                other => fail(failure_from(other)),
            },
            PodcastStage::LookingUp => match event {
                Event::VideoInfo(Some(info)) => {
                    state.stage = PodcastStage::Dating;
                    state.record.name = info.title;
                    Step { state, effect: Effect::Now }
                },
                Event::VideoInfo(None) => fail(
                    BotError::new(ErrorKind::NotFound, "Received empty video info"),
                ),
                other => fail(failure_from(other)),
            },
            PodcastStage::FetchingAudio => match event {
                Event::Content(bytes) => {
                    let effect_key = state.key.clone();
                    state.stage = PodcastStage::UploadingAudio;
                    state.record.file_size = bytes.len() as u64;
                    Step { state, effect: Effect::UploadBytes { key: effect_key, bytes } }
                },
                other => fail(failure_from(other)),
            },
            PodcastStage::UploadingAudio => match event {
                Event::Completed => {
                    state.stage = PodcastStage::Dating;
                    Step { state, effect: Effect::Now }
                },
                other => fail(failure_from(other)),
            },
            PodcastStage::Dating => match event {
                Event::Time(moment) => {
                    let user = state.username.clone();
                    state.stage = PodcastStage::Locking;
                    state.record.created_at = moment;
                    Step { state, effect: Effect::Lock { user } }
                },
                other => fail(failure_from(other)),
            },
            PodcastStage::Locking => match event {
                Event::Completed => {
                    let key = metadata_path(state.username.as_str());
                    state.stage = PodcastStage::Loading;
                    Step { state, effect: Effect::LoadObject { key } }
                },
                other => fail(failure_from(other)),
            },
            PodcastStage::Loading => match event {
                Event::Object(object) => {
                    let fetched = match object {
                        Some(bytes) => Fetched::Found(bytes),
                        None => Fetched::NoSuchKey,
                    };
                    match MetadataStorage::load_metadata(fetched) {
                        Err(e) => release(state, Some(e)),
                        Ok(list) => {
                            let list = MetadataStorage::add_metadata(
                                list,
                                state.record.duplicate(),
                            );
                            let written = MetadataStorage::update_metadata(&list);
                            Self::store_list(state, list, written)
                        },
                    }
                },
                other => {
                    let e = failure_from(other);
                    release(state, Some(e))
                },
            },
            PodcastStage::StoringList => match event {
                Event::Completed => {
                    match generate_rss(state.username.as_str(), &state.list) {
                        Err(e) => release(state, Some(e)),
                        Ok(xml) => {
                            let key = rss_path(state.username.as_str());
                            let bytes = xml.as_str().as_bytes_vec();
                            state.stage = PodcastStage::StoringFeed;
                            Step { state, effect: Effect::UploadBytes { key, bytes } }
                        },
                    }
                },
                other => {
                    let e = failure_from(other);
                    release(state, Some(e))
                },
            },
            PodcastStage::StoringFeed => match event {
                Event::Completed => release(state, None),
                other => {
                    let e = failure_from(other);
                    release(state, Some(e))
                },
            },
            PodcastStage::Unlocking => {
                let kept = state.failure.take();
                match kept {
                    Some(e) => fail(e),
                    None => match event {
                        Event::Completed => {
                            let feed = rss_path(state.username.as_str());
                            let address = self.s3_client.get_public_url(feed.as_str());
                            let message = Self::send_success_message(
                                state.origin,
                                address.as_str(),
                            );
                            state.stage = PodcastStage::Replying;
                            Step { state, effect: Effect::SendText(message) }
                        },
                        other => fail(failure_from(other)),
                    },
                }
            },
        }
    }
}

/// Whether a step writes the list of the user as bytes: the stored list has
/// just been read, and what was read is a list.
pub open spec fn writes_list(s: PodcastStateView, event: EventView) -> bool {
    &&& s.stage == PodcastStage::Loading
    &&& event matches EventView::Object(object)
    &&& list_from_object(object) is Ok
}

/// Whether the lock on the stored lists is held in a stage.
pub open spec fn under_lock(stage: PodcastStage) -> bool {
    stage == PodcastStage::Loading || stage == PodcastStage::StoringList || stage
        == PodcastStage::StoringFeed
}

/// The lock is always given back: under the lock, every event leads either to
/// the next step under the lock or to the return of the lock, never to the end
/// of the handling and never to the answer.
pub proof fn lemma_lock_is_always_released(h: PodcastView, s: PodcastStateView, event: EventView)
    requires
        under_lock(s.stage),
    ensures
        ({
            let (next, effect) = podcast_resume(h, s, event);
            ||| (under_lock(next.stage) && effect is UploadBytes)
            ||| (next.stage == PodcastStage::Unlocking && effect == EffectView::Unlock {
                user: s.username,
            })
        }),
{
}

/// The stored list is read and written under the lock only.  A read of the
/// list is asked for in answer to the taking of the lock and nowhere else; the
/// lock that is asked for is the one of the user whose list is then read; and
/// the steps under the lock are entered through the taking of the lock alone.
pub proof fn lemma_list_is_touched_under_lock_only(
    h: PodcastView,
    s: PodcastStateView,
    event: EventView,
)
    ensures
        podcast_resume(h, s, event).1 is LoadObject ==> s.stage == PodcastStage::Locking
            && event is Completed && podcast_resume(h, s, event).0.stage == PodcastStage::Loading
            && podcast_resume(h, s, event).1 == (EffectView::LoadObject {
            key: s.username + "/metadata.mp"@,
        }),
        podcast_resume(h, s, event).1 is Lock ==> podcast_resume(h, s, event).0.stage
            == PodcastStage::Locking && podcast_resume(h, s, event).1 == (EffectView::Lock {
            user: podcast_resume(h, s, event).0.username,
        }),
        under_lock(podcast_resume(h, s, event).0.stage) ==> under_lock(s.stage) || s.stage
            == PodcastStage::Locking,
        under_lock(s.stage) || s.stage == PodcastStage::Locking ==> podcast_resume(
            h,
            s,
            event,
        ).0.username == s.username || podcast_resume(h, s, event).0.stage
            == PodcastStage::Finished,
{
}

/// The chat is told of the feed only once the feed is stored and the lock is
/// given back: the answer follows the return of the lock without a failure,
/// and a return of the lock without a failure follows the storing of the feed.
pub proof fn lemma_answer_follows_the_stored_feed(h: PodcastView, s: PodcastStateView, event: EventView)
    ensures
        podcast_resume(h, s, event).1 is SendText ==> s.stage == PodcastStage::Unlocking
            && s.failure is None,
        podcast_resume(h, s, event).0.stage == PodcastStage::Unlocking && podcast_resume(
            h,
            s,
            event,
        ).0.failure is None ==> s.stage == PodcastStage::StoringFeed && event is Completed,
{
}

/// The number of effects a handling can still ask for, at most, from a stage.
pub open spec fn podcast_steps_left(stage: PodcastStage) -> nat {
    match stage {
        PodcastStage::Probing => 12,
        PodcastStage::Extracting => 11,
        PodcastStage::Uploading => 10,
        PodcastStage::Measuring => 9,
        PodcastStage::LookingUp => 8,
        PodcastStage::FetchingAudio => 9,
        PodcastStage::UploadingAudio => 8,
        PodcastStage::Dating => 7,
        PodcastStage::Locking => 6,
        PodcastStage::Loading => 5,
        PodcastStage::StoringList => 4,
        PodcastStage::StoringFeed => 3,
        PodcastStage::Unlocking => 2,
        PodcastStage::Replying => 1,
        PodcastStage::Finished => 0,
    }
}

/// Every handling comes to an end: each step either ends it, leaving nothing
/// to resume, or leaves fewer steps to go than there were.
pub proof fn lemma_podcast_handling_ends(h: PodcastView, s: PodcastStateView, event: EventView)
    ensures
        ({
            let (next, effect) = podcast_resume(h, s, event);
            if effect.is_final() {
                next.stage == PodcastStage::Finished
            } else {
                podcast_steps_left(next.stage) < podcast_steps_left(s.stage)
            }
        }),
{
}

/// Under the lock the list grows by exactly the new record: what is sent to
/// storage after the read is the list that was read with the record in front.
pub proof fn lemma_stored_list_is_the_read_list_extended(
    s: PodcastStateView,
    object: Option<Seq<u8>>,
    list: Seq<VideoMetadataView>,
)
    requires
        list_from_object(object) == Ok::<Seq<VideoMetadataView>, BotErrorView>(list),
    ensures
        podcast_after_load(s, object).0.list == prepend(list, s.record),
        podcast_after_load(s, object).0.list.len() == list.len() + 1,
        podcast_after_load(s, object).1 == (EffectView::UploadBytes {
            key: s.username + "/metadata.mp"@,
            bytes: msgpack_of_episodes(prepend(list, s.record)),
        }),
{
}

} // verus!
