//! The feature handlers and what they have in common.
//!
//! A handler never performs outside work itself.  It is a state machine: given
//! a message it answers with the first [`Effect`] to perform, and given the
//! [`Event`] that reports how an effect ended it answers with the next one,
//! until it reaches [`Effect::Finish`] or [`Effect::Fail`].

pub mod downloader;
pub mod healthcheck;
pub mod podcast_filter;
pub mod torrent;
pub mod youtube2rss;

use vstd::prelude::*;
use crate::error::{BotError, BotErrorView, ErrorKind};
use crate::telegram_api::{File, FileView, Message, MessageView, SendMessage, SendMessageView, Update, UpdateView, reply_to};
use crate::text::join2;
use crate::handlers::downloader::{DownloadState, DownloadStateView, DownloaderHandler, downloader_resume, downloader_start, downloader_trigger};
use crate::handlers::healthcheck::{HealthCheckHandler, HealthCheckState, healthcheck_resume, healthcheck_start, healthcheck_trigger};
use crate::handlers::torrent::{DaemonReply, DaemonReplyView, TorrentHandler, TorrentState, TorrentStateView, torrent_resume, torrent_start, torrent_trigger};
use crate::handlers::youtube2rss::metadata::unwritable_list;
use crate::handlers::youtube2rss::{PodcastHandler, PodcastState, PodcastStateView, podcast_release, podcast_resume, podcast_start, podcast_trigger, writes_list};
use crate::handlers::youtube2rss::metadata::Timestamp;
use crate::handlers::youtube2rss::youtube_sdk::{Snippet, SnippetView};
use crate::http::{HttpRequest, HttpRequestView};

verus! {

/// The handlers of this bot.
#[derive(Clone, Copy, Debug, PartialEq, Eq, Structural)]
pub enum HandlerKind {
    HealthCheck,
    Torrent,
    Podcast,
    Downloader,
}

/// Outside work that a handler asks for.
#[derive(Clone, Debug, PartialEq, Eq)]
pub enum Effect {
    /// Nothing more: the handler is done with the message.
    Finish,
    /// Nothing more: the handler gives up on the message with this failure.
    Fail(BotError),
    /// Send a text message to a chat.
    SendText(SendMessage),
    /// Ask the platform where it keeps a file.
    GetFile { file_id: String },
    /// Fetch the content of a file kept by the platform.
    DownloadFile { file_path: String },
    /// Send a request to the torrent daemon and report its answer.
    PostTorrent(HttpRequest),
    /// Create a directory of this name under the temporary directory.
    CreateDir { name: String },
    /// Remove a directory under the temporary directory, with what it holds.
    RemoveDir { name: String },
    /// Run the download tool with these arguments and wait for it to end.
    /// With `clear_proxy` the tool runs with an empty `https_proxy` variable.
    RunExtractor { program: String, args: Vec<String>, clear_proxy: bool },
    /// Deliver a file under the temporary directory to a chat, as a video.
    SendVideo { chat_id: String, path: String },
    /// Ask for the content type that a server announces for an address.
    ProbeContentType { url: String },
    /// Fetch the bytes behind an address.
    FetchUrl { url: String },
    /// Put a file under the temporary directory into object storage.
    UploadFile { path: String, key: String },
    /// Put bytes into object storage.
    UploadBytes { key: String, bytes: Vec<u8> },
    /// Read an object from storage.
    LoadObject { key: String },
    /// Ask for the size of a file under the temporary directory.
    FileSize { path: String },
    /// Ask the video service for the details of a video.
    LookupVideo { video_id: String },
    /// Read the clock.
    Now,
    /// Take the lock that guards the stored episode list of a user, waiting
    /// for it if need be.
    Lock { user: String },
    /// Give the lock of a user back.
    Unlock { user: String },
}

pub enum EffectView {
    Finish,
    Fail(BotErrorView),
    SendText(SendMessageView),
    GetFile { file_id: Seq<char> },
    DownloadFile { file_path: Seq<char> },
    PostTorrent(HttpRequestView),
    CreateDir { name: Seq<char> },
    RemoveDir { name: Seq<char> },
    RunExtractor { program: Seq<char>, args: Seq<Seq<char>>, clear_proxy: bool },
    SendVideo { chat_id: Seq<char>, path: Seq<char> },
    ProbeContentType { url: Seq<char> },
    FetchUrl { url: Seq<char> },
    UploadFile { path: Seq<char>, key: Seq<char> },
    UploadBytes { key: Seq<char>, bytes: Seq<u8> },
    LoadObject { key: Seq<char> },
    FileSize { path: Seq<char> },
    LookupVideo { video_id: Seq<char> },
    Now,
    Lock { user: Seq<char> },
    Unlock { user: Seq<char> },
}

impl DeepView for Effect {
    type V = EffectView;

    open spec fn deep_view(&self) -> EffectView {
        match self {
            Effect::Finish => EffectView::Finish,
            Effect::Fail(e) => EffectView::Fail(e@),
            Effect::SendText(m) => EffectView::SendText(m@),
            Effect::GetFile { file_id } => EffectView::GetFile { file_id: file_id@ },
            Effect::DownloadFile { file_path } => EffectView::DownloadFile { file_path: file_path@ },
            Effect::PostTorrent(request) => EffectView::PostTorrent(request@),
            Effect::CreateDir { name } => EffectView::CreateDir { name: name@ },
            Effect::RemoveDir { name } => EffectView::RemoveDir { name: name@ },
            Effect::RunExtractor { program, args, clear_proxy } => EffectView::RunExtractor {
                program: program@,
                args: args.deep_view(),
                clear_proxy: *clear_proxy,
            },
            Effect::SendVideo { chat_id, path } => EffectView::SendVideo {
                chat_id: chat_id@,
                path: path@,
            },
            Effect::ProbeContentType { url } => EffectView::ProbeContentType { url: url@ },
            Effect::FetchUrl { url } => EffectView::FetchUrl { url: url@ },
            Effect::UploadFile { path, key } => EffectView::UploadFile { path: path@, key: key@ },
            Effect::UploadBytes { key, bytes } => EffectView::UploadBytes { key: key@, bytes: bytes@ },
            Effect::LoadObject { key } => EffectView::LoadObject { key: key@ },
            Effect::FileSize { path } => EffectView::FileSize { path: path@ },
            Effect::LookupVideo { video_id } => EffectView::LookupVideo { video_id: video_id@ },
            Effect::Now => EffectView::Now,
            Effect::Lock { user } => EffectView::Lock { user: user@ },
            Effect::Unlock { user } => EffectView::Unlock { user: user@ },
        }
    }
}

impl View for Effect {
    type V = EffectView;

    open spec fn view(&self) -> EffectView {
        self.deep_view()
    }
}

impl EffectView {
    /// Whether nothing is left to perform after this.
    pub open spec fn is_final(self) -> bool {
        self is Finish || self is Fail
    }

    /// Whether this asks for anything outside the library: a reply or a call
    /// of an adapter.
    pub open spec fn is_outside_work(self) -> bool {
        !(self is Finish || self is Fail)
    }
}

/// How an effect ended.
#[derive(Clone, Debug, PartialEq, Eq)]
pub enum Event {
    /// The effect could not be performed.
    Failed(BotError),
    /// The effect was performed and has nothing to report.
    Completed,
    /// The platform said where it keeps a file.
    FileInfo(File),
    /// The bytes that were asked for.
    Content(Vec<u8>),
    /// The torrent daemon answered.
    DaemonReply(DaemonReply),
    /// The download tool ended: its exit code, if it has one, and what it
    /// printed.
    Exited { code: Option<i32>, output: String },
    /// The content type a server announced, if it announced one.
    ContentType(Option<String>),
    /// The bytes of a stored object, or `None` when there is no such object.
    Object(Option<Vec<u8>>),
    /// The size of a file, in bytes.
    Size(u64),
    /// The details of a video, or `None` when the service knows of none.
    VideoInfo(Option<Snippet>),
    /// The time on the clock.
    Time(Timestamp),
}

pub enum EventView {
    Failed(BotErrorView),
    Completed,
    FileInfo(FileView),
    Content(Seq<u8>),
    DaemonReply(DaemonReplyView),
    Exited { code: Option<i32>, output: Seq<char> },
    ContentType(Option<Seq<char>>),
    Object(Option<Seq<u8>>),
    Size(u64),
    VideoInfo(Option<SnippetView>),
    Time(Timestamp),
}

impl DeepView for Event {
    type V = EventView;

    open spec fn deep_view(&self) -> EventView {
        match self {
            Event::Failed(e) => EventView::Failed(e@),
            Event::Completed => EventView::Completed,
            Event::FileInfo(file) => EventView::FileInfo(file@),
            Event::Content(bytes) => EventView::Content(bytes@),
            Event::DaemonReply(reply) => EventView::DaemonReply(reply@),
            Event::Exited { code, output } => EventView::Exited { code: *code, output: output@ },
            Event::ContentType(t) => EventView::ContentType(t.deep_view()),
            Event::Object(bytes) => EventView::Object(
                match bytes {
                    Some(b) => Some(b@),
                    None => None,
                },
            ),
            Event::Size(n) => EventView::Size(*n),
            Event::VideoInfo(info) => EventView::VideoInfo(info.deep_view()),
            Event::Time(t) => EventView::Time(*t),
        }
    }
}

impl View for Event {
    type V = EventView;

    open spec fn view(&self) -> EventView {
        self.deep_view()
    }
}

/// The last step of a handler that has only its reply left: done once the
/// reply is sent, failed if it could not be sent.
pub open spec fn conclusion(event: EventView) -> EffectView {
    match event {
        EventView::Completed => EffectView::Finish,
        EventView::Failed(e) => EffectView::Fail(e),
        _ => EffectView::Fail(unexpected_event()),
    }
}

/// Ends a handler whose reply was on its way.
pub fn conclude(event: Event) -> (r: Effect)
    ensures
        r@ == conclusion(event@),
{
    match event {
        Event::Completed => Effect::Finish,
        Event::Failed(e) => Effect::Fail(e),
        _ => Effect::Fail(unexpected()),
    }
}

/// A handler's answer: the state it is in now and what to perform next.
#[derive(Clone, Debug, PartialEq, Eq)]
pub struct Step<S> {
    pub state: S,
    pub effect: Effect,
}

/// The failure reported when a handler is handed an event that does not answer
/// what it asked for.
pub open spec fn unexpected_event() -> BotErrorView {
    BotErrorView { kind: ErrorKind::Validation, detail: "unexpected event"@ }
}

/// The failure for an event that does not answer what was asked.
pub fn unexpected() -> (r: BotError)
    ensures
        r@ == unexpected_event(),
{
    BotError::new(ErrorKind::Validation, "unexpected event")
}

/// Acknowledges that a handler has been given an update.  Nothing is recorded.
pub fn ack_update(_handler_name: &str, _update_id: &i32) {
}

/// The text that tells a chat that the handler `handler_name` failed.
pub open spec fn apology_text(handler_name: Seq<char>) -> Seq<char> {
    "что-то пошло не так во время обработки сообщения модулем "@ + handler_name
}

/// The apology owed for a failure of `handler_name` on `update`: a reply to
/// the message of the update, or nothing when the update carries no message.
pub open spec fn apology_for(update: UpdateView, handler_name: Seq<char>) -> Option<SendMessageView> {
    match update.message {
        Some(message) => Some(reply_to(message, apology_text(handler_name))),
        None => None,
    }
}

/// Builds the apology for a failure of `handler_name` on `update`.
pub fn send_error_message(update: &Update, handler_name: &str) -> (r: Option<SendMessage>)
    ensures
        r.deep_view() == apology_for(update@, handler_name@),
{
    match &update.message {
        Some(message) => {
            let text = join2(
                "что-то пошло не так во время обработки сообщения модулем ",
                handler_name,
            );
            Some(message.reply(text))
        },
        None => None,
    }
}

/// What the dispatch loop owes the chat once a handler is done with an update:
/// nothing after a success, the apology after a failure.
pub open spec fn notice_after(
    update: UpdateView,
    handler_name: Seq<char>,
    failed: bool,
) -> Option<SendMessageView> {
    if failed {
        apology_for(update, handler_name)
    } else {
        None
    }
}

/// Decides what to tell the chat once a handler is done with an update.
pub fn after_handler(update: &Update, handler_name: &str, outcome: &Result<(), BotError>) -> (r:
    Option<SendMessage>)
    ensures
        r.deep_view() == notice_after(update@, handler_name@, outcome is Err),
{
    match outcome {
        Ok(_) => None,
        Err(_) => send_error_message(update, handler_name),
    }
}

/// The handlers that the dispatch loop runs one after another on each update.
pub fn init_sync_handlers_loop() -> (r: Vec<HandlerKind>)
    ensures
        r@ == seq![HandlerKind::Podcast],
{
    let mut handlers: Vec<HandlerKind> = Vec::new();
    handlers.push(HandlerKind::Podcast);
    assert(handlers@ =~= seq![HandlerKind::Podcast]);
    handlers
}

/// The handlers that the dispatch loop runs side by side on each update.
pub fn init_async_handlers_loop() -> (r: Vec<HandlerKind>)
    ensures
        r@ == seq![HandlerKind::HealthCheck, HandlerKind::Torrent, HandlerKind::Downloader],
{
    let mut handlers: Vec<HandlerKind> = Vec::new();
    handlers.push(HandlerKind::HealthCheck);
    handlers.push(HandlerKind::Torrent);
    handlers.push(HandlerKind::Downloader);
    assert(handlers@ =~= seq![
        HandlerKind::HealthCheck,
        HandlerKind::Torrent,
        HandlerKind::Downloader,
    ]);
    handlers
}

/// The handlers of the bot, made once at startup.
#[derive(Clone, Debug, PartialEq, Eq)]
pub struct Handlers {
    pub healthcheck: HealthCheckHandler,
    pub torrent: TorrentHandler,
    pub podcast: PodcastHandler,
    pub downloader: DownloaderHandler,
}

/// The state of one handler at work on one message.
#[derive(Clone, Debug, PartialEq, Eq)]
pub enum Job {
    HealthCheck(HealthCheckState),
    Torrent(TorrentState),
    Podcast(PodcastState),
    Downloader(DownloadState),
}

pub enum JobView {
    HealthCheck(HealthCheckState),
    Torrent(TorrentStateView),
    Podcast(PodcastStateView),
    Downloader(DownloadStateView),
}

impl DeepView for Job {
    type V = JobView;

    open spec fn deep_view(&self) -> JobView {
        match self {
            Job::HealthCheck(state) => JobView::HealthCheck(*state),
            Job::Torrent(state) => JobView::Torrent(state@),
            Job::Podcast(state) => JobView::Podcast(state@),
            Job::Downloader(state) => JobView::Downloader(state@),
        }
    }
}

impl View for Job {
    type V = JobView;

    open spec fn view(&self) -> JobView {
        self.deep_view()
    }
}

/// Whether a message triggers the handler of a kind.
pub open spec fn triggers(kind: HandlerKind, m: MessageView) -> bool {
    match kind {
        HandlerKind::HealthCheck => healthcheck_trigger(m),
        HandlerKind::Torrent => torrent_trigger(m),
        HandlerKind::Podcast => podcast_trigger(m),
        HandlerKind::Downloader => downloader_trigger(m),
    }
}

impl Handlers {
    /// The first step of the handler of a kind on a message, when nothing
    /// outside the library interferes.
    pub open spec fn first_step(&self, kind: HandlerKind, m: MessageView) -> (JobView, EffectView) {
        match kind {
            HandlerKind::HealthCheck => {
                let (state, effect) = healthcheck_start(m);
                (JobView::HealthCheck(state), effect)
            },
            HandlerKind::Torrent => {
                let (state, effect) = torrent_start(m);
                (JobView::Torrent(state), effect)
            },
            HandlerKind::Podcast => {
                let (state, effect) = podcast_start(self.podcast@, m);
                (JobView::Podcast(state), effect)
            },
            HandlerKind::Downloader => {
                let (state, effect) = downloader_start(self.downloader@, m);
                (JobView::Downloader(state), effect)
            },
        }
    }

    /// The name of the handler of a kind, as the log and the apologies give
    /// it.
    pub open spec fn name_of(kind: HandlerKind) -> Seq<char> {
        match kind {
            HandlerKind::HealthCheck => "HealthCheck"@,
            HandlerKind::Torrent => "TransmissionClient"@,
            HandlerKind::Podcast => "Youtube2Rss"@,
            HandlerKind::Downloader => "Downloader"@,
        }
    }

    pub fn name(&self, kind: HandlerKind) -> (r: String)
        ensures
            r@ == Self::name_of(kind),
    {
        match kind {
            HandlerKind::HealthCheck => self.healthcheck.name(),
            HandlerKind::Torrent => self.torrent.name(),
            HandlerKind::Podcast => self.podcast.name(),
            HandlerKind::Downloader => self.downloader.name(),
        }
    }

    /// Hands a message to the handler of a kind and says what to do first.  A
    /// message that does not trigger the handler asks for nothing.
    pub fn process(&self, kind: HandlerKind, m: &Message) -> (r: Step<Job>)
        ensures
            (r.state@, r.effect@) == self.first_step(kind, m@),
            !triggers(kind, m@) ==> r.effect@ == EffectView::Finish,
    {
        match kind {
            HandlerKind::HealthCheck => {
                let step = self.healthcheck.process(m);
                Step { state: Job::HealthCheck(step.state), effect: step.effect }
            },
            HandlerKind::Torrent => {
                let step = self.torrent.process(m);
                Step { state: Job::Torrent(step.state), effect: step.effect }
            },
            HandlerKind::Podcast => {
                let step = self.podcast.process(m);
                Step { state: Job::Podcast(step.state), effect: step.effect }
            },
            HandlerKind::Downloader => {
                let step = self.downloader.process(m);
                Step { state: Job::Downloader(step.state), effect: step.effect }
            },
        }
    }

    /// The step of a handler at work from its state on an event, when nothing
    /// outside the library interferes.
    pub open spec fn next_step(&self, job: JobView, event: EventView) -> (JobView, EffectView) {
        match job {
            JobView::HealthCheck(state) => {
                let (state, effect) = healthcheck_resume(state, event);
                (JobView::HealthCheck(state), effect)
            },
            JobView::Torrent(state) => {
                let (state, effect) = torrent_resume(
                    self.torrent.transmission_client.address(),
                    state,
                    event,
                );
                (JobView::Torrent(state), effect)
            },
            JobView::Podcast(state) => {
                let (state, effect) = podcast_resume(self.podcast@, state, event);
                (JobView::Podcast(state), effect)
            },
            JobView::Downloader(state) => {
                let (state, effect) = downloader_resume(self.downloader@, state, event);
                (JobView::Downloader(state), effect)
            },
        }
    }

    /// The step the podcast handler takes instead of the regular one when
    /// the list could not be written as bytes: it gives the lock back and
    /// keeps the failure for the end.
    pub open spec fn unwritable_step(state: PodcastStateView) -> (JobView, EffectView) {
        let (state, effect) = podcast_release(state, Some(unwritable_list()));
        (JobView::Podcast(state), effect)
    }

    /// Hands the report of the last effect to the handler at work and says
    /// what to do next.  The step is the one of [`Handlers::next_step`].  The
    /// one exception is the step of the podcast handler that writes the list
    /// of a user as bytes, after the stored list has been read, which may fail
    /// in the writing.
    pub fn resume(&self, job: Job, event: Event) -> (r: Step<Job>)
        ensures
            (r.state@, r.effect@) == self.next_step(job@, event@) || (job@ matches JobView::Podcast(
                state,
            ) && writes_list(state, event@) && (r.state@, r.effect@) == Self::unwritable_step(
                state,
            )),
    {
        match job {
            Job::HealthCheck(state) => {
                let step = self.healthcheck.resume(state, event);
                Step { state: Job::HealthCheck(step.state), effect: step.effect }
            },
            Job::Torrent(state) => {
                let step = self.torrent.resume(state, event);
                Step { state: Job::Torrent(step.state), effect: step.effect }
            },
            Job::Podcast(state) => {
                let step = self.podcast.resume(state, event);
                Step { state: Job::Podcast(step.state), effect: step.effect }
            },
            Job::Downloader(state) => {
                let step = self.downloader.resume(state, event);
                Step { state: Job::Downloader(step.state), effect: step.effect }
            },
        }
    }
}

/// A message that triggers no handler is ignored by every handler: the first
/// step of each is the end of its handling, with no reply and no call of any
/// adapter.
pub proof fn lemma_unmatched_message_is_ignored(handlers: Handlers, kind: HandlerKind, m: MessageView)
    requires
        !triggers(HandlerKind::HealthCheck, m),
        !triggers(HandlerKind::Torrent, m),
        !triggers(HandlerKind::Podcast, m),
        !triggers(HandlerKind::Downloader, m),
    ensures
        handlers.first_step(kind, m).1 == EffectView::Finish,
        !handlers.first_step(kind, m).1.is_outside_work(),
{
}

/// Each handler decides for itself: a message that does not trigger a handler
/// is ignored by that handler, whatever the other handlers make of it.
pub proof fn lemma_handler_ignores_what_does_not_trigger_it(
    handlers: Handlers,
    kind: HandlerKind,
    m: MessageView,
)
    requires
        !triggers(kind, m),
    ensures
        handlers.first_step(kind, m).1 == EffectView::Finish,
{
}

} // verus!
