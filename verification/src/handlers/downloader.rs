//! Short-video download: a link to a reel or a short is fetched with the
//! download tool into a directory of its own and sent back to the chat as a
//! video.  The directory is removed again however the handling ends.

use vstd::prelude::*;
use crate::error::{BotError, BotErrorView, ErrorKind, text_or_failure};
use crate::handlers::{Effect, EffectView, Event, EventView, Step, unexpected, unexpected_event};
use crate::outside::{regex_capture, regex_named_group};
use crate::telegram_api::{Message, MessageView};
use crate::text::{decimal, i64_to_decimal, join2, join_path, path_join, starts_with};

verus! {

/// How the links to reels begin.
pub open spec fn instagram_url_start() -> Seq<char> {
    "https://www.instagram.com/reel/"@
}

/// How the links to shorts begin.
pub open spec fn yt_url_start() -> Seq<char> {
    "https://www.youtube.com/shorts/"@
}

/// The expression that finds the identifier in a link to a reel.
pub open spec fn instagram_id_pattern() -> Seq<char> {
    "(v=|reel/)(?P<id>[^/]*)"@
}

/// The expression that finds the identifier in a link to a short.
pub open spec fn yt_id_pattern() -> Seq<char> {
    "(v=|shorts/)(?P<id>[^/]*)"@
}

/// Whether the downloader reacts to a message: its text begins like a link to
/// a reel or to a short.
pub open spec fn downloader_trigger(m: MessageView) -> bool {
    m.text matches Some(t) && (instagram_url_start().is_prefix_of(t) || yt_url_start().is_prefix_of(
        t,
    ))
}

/// The expression for a link, by the way the link begins.
pub open spec fn id_pattern_for(url: Seq<char>) -> Option<Seq<char>> {
    if instagram_url_start().is_prefix_of(url) {
        Some(instagram_id_pattern())
    } else if yt_url_start().is_prefix_of(url) {
        Some(yt_id_pattern())
    } else {
        None
    }
}

/// The failure for a link of neither known kind.
pub open spec fn no_pattern_for_url() -> BotErrorView {
    BotErrorView { kind: ErrorKind::NotFound, detail: "Didn't find id regex for url"@ }
}

/// The failure for a link in which the expression finds no identifier.
pub open spec fn no_id_in_url() -> BotErrorView {
    BotErrorView { kind: ErrorKind::NotFound, detail: "Can't parse video id from url"@ }
}

/// The failure for an expression that the regex engine refuses.
pub open spec fn pattern_refused() -> BotErrorView {
    BotErrorView { kind: ErrorKind::Validation, detail: "Failed to compile video id Regex"@ }
}

/// The identifier of the video behind a link: what the group `id` of the
/// expression for the link holds.  A link of neither known kind, a link in
/// which the expression finds nothing, and an expression that the regex engine
/// refuses are failures.
pub open spec fn downloader_video_id(url: Seq<char>) -> Result<Seq<char>, BotErrorView> {
    match id_pattern_for(url) {
        None => Err(no_pattern_for_url()),
        Some(pattern) => match regex_named_group(pattern, "id"@, url) {
            Some(Some(id)) => Ok(id),
            Some(None) => Err(no_id_in_url()),
            None => Err(pattern_refused()),
        },
    }
}

/// The name of the directory made for the message `message_id`.
pub open spec fn download_dir_name(message_id: int) -> Seq<char> {
    "tmp_"@ + decimal(message_id)
}

/// The name of the file the video `video_id` is downloaded to.
pub open spec fn download_file_name(video_id: Seq<char>) -> Seq<char> {
    video_id + ".mp4"@
}

/// The arguments of the download tool: where to write, the proxy, the cookie
/// jar, and the link.
pub open spec fn download_args(
    path: Seq<char>,
    socks_proxy_url: Seq<char>,
    cookies_path: Seq<char>,
    url: Seq<char>,
) -> Seq<Seq<char>> {
    seq!["-o"@, path, "--proxy"@, socks_proxy_url, "--cookies"@, cookies_path, url]
}

/// The failure for a run of the tool that did not end in success, with what
/// the tool printed.
pub open spec fn tool_failure(output: Seq<char>) -> BotErrorView {
    BotErrorView { kind: ErrorKind::Subprocess, detail: output }
}

/// Whether a run of the tool ended in success: with the exit code zero.
pub open spec fn tool_succeeded(code: Option<i32>) -> bool {
    code == Some(0i32)
}

/// How far a download has come.
#[derive(Clone, Copy, Debug, PartialEq, Eq, Structural)]
pub enum DownloadStage {
    /// The directory is being created.
    Creating,
    /// The tool is running.
    Downloading,
    /// The video is on its way to the chat.
    Sending,
    /// The directory is being removed.
    Cleaning,
    /// Nothing is left to do.
    Finished,
}

/// Where the downloader stands with a message.
#[derive(Clone, Debug, PartialEq, Eq)]
pub struct DownloadState {
    pub stage: DownloadStage,
    pub chat_id: i64,
    pub url: String,
    /// The directory of this download, under the temporary directory.
    pub dir: String,
    /// The file the video is written to.
    pub path: String,
    /// The failure to report once the directory is removed, if there is one.
    pub failure: Option<BotError>,
}

pub struct DownloadStateView {
    pub stage: DownloadStage,
    pub chat_id: int,
    pub url: Seq<char>,
    pub dir: Seq<char>,
    pub path: Seq<char>,
    pub failure: Option<BotErrorView>,
}

impl DeepView for DownloadState {
    type V = DownloadStateView;

    open spec fn deep_view(&self) -> DownloadStateView {
        DownloadStateView {
            stage: self.stage,
            chat_id: self.chat_id as int,
            url: self.url@,
            dir: self.dir@,
            path: self.path@,
            failure: self.failure.deep_view(),
        }
    }
}

impl View for DownloadState {
    type V = DownloadStateView;

    open spec fn view(&self) -> DownloadStateView {
        self.deep_view()
    }
}

/// The state of a handling that has ended.
pub open spec fn download_finished() -> DownloadStateView {
    DownloadStateView {
        stage: DownloadStage::Finished,
        chat_id: 0,
        url: Seq::empty(),
        dir: Seq::empty(),
        path: Seq::empty(),
        failure: None,
    }
}

/// The configuration of the downloader, as its steps read it.
pub struct DownloaderView {
    pub tmp_dir: Seq<char>,
    pub socks_proxy_url: Seq<char>,
    pub yt_dlp_path: Seq<char>,
    pub cookies_path: Seq<char>,
}

/// The first step on a message: nothing for a message that does not trigger
/// the downloader, a failure for a link without an identifier, and otherwise
/// the creation of the directory for this message.
pub open spec fn downloader_start(h: DownloaderView, m: MessageView) -> (DownloadStateView, EffectView) {
    if !downloader_trigger(m) {
        (download_finished(), EffectView::Finish)
    } else {
        let url = m.text->0;
        match downloader_video_id(url) {
            Err(e) => (download_finished(), EffectView::Fail(e)),
            Ok(video_id) => {
                let dir = path_join(h.tmp_dir, download_dir_name(m.message_id));
                (
                    DownloadStateView {
                        stage: DownloadStage::Creating,
                        chat_id: m.chat_id,
                        url,
                        dir,
                        path: path_join(dir, download_file_name(video_id)),
                        failure: None,
                    },
                    EffectView::CreateDir { name: dir },
                )
            },
        }
    }
}

/// The step that removes the directory and keeps `failure` for the end.
pub open spec fn download_cleanup(s: DownloadStateView, failure: Option<BotErrorView>) -> (
    DownloadStateView,
    EffectView,
) {
    (
        DownloadStateView { stage: DownloadStage::Cleaning, failure, ..s },
        EffectView::RemoveDir { name: s.dir },
    )
}

/// The end of a handling: success when nothing failed, and otherwise the first
/// failure met.
pub open spec fn download_end(first: Option<BotErrorView>, last: Option<BotErrorView>) -> EffectView {
    match first {
        Some(e) => EffectView::Fail(e),
        None => match last {
            Some(e) => EffectView::Fail(e),
            None => EffectView::Finish,
        },
    }
}

/// The step of the downloader from a state on an event.
pub open spec fn downloader_resume(h: DownloaderView, s: DownloadStateView, event: EventView) -> (
    DownloadStateView,
    EffectView,
) {
    match s.stage {
        DownloadStage::Finished => (download_finished(), EffectView::Fail(unexpected_event())),
        DownloadStage::Creating => match event {
            EventView::Completed => (
                DownloadStateView { stage: DownloadStage::Downloading, ..s },
                EffectView::RunExtractor {
                    program: h.yt_dlp_path,
                    args: download_args(s.path, h.socks_proxy_url, h.cookies_path, s.url),
                    clear_proxy: false,
                },
            ),
            EventView::Failed(e) => (download_finished(), EffectView::Fail(e)),
            _ => (download_finished(), EffectView::Fail(unexpected_event())),
        },
        DownloadStage::Downloading => match event {
            EventView::Exited { code, output } => if tool_succeeded(code) {
                (
                    DownloadStateView { stage: DownloadStage::Sending, ..s },
                    EffectView::SendVideo { chat_id: decimal(s.chat_id), path: s.path },
                )
            } else {
                download_cleanup(s, Some(tool_failure(output)))
            },
            EventView::Failed(e) => download_cleanup(s, Some(e)),
            _ => download_cleanup(s, Some(unexpected_event())),
        },
        DownloadStage::Sending => match event {
            EventView::Completed => download_cleanup(s, None),
            EventView::Failed(e) => download_cleanup(s, Some(e)),
            _ => download_cleanup(s, Some(unexpected_event())),
        },
        DownloadStage::Cleaning => match event {
            EventView::Completed => (download_finished(), download_end(s.failure, None)),
            EventView::Failed(e) => (download_finished(), download_end(s.failure, Some(e))),
            _ => (download_finished(), download_end(s.failure, Some(unexpected_event()))),
        },
    }
}

/// The downloader and its configuration.
#[derive(Clone, Debug, PartialEq, Eq)]
pub struct DownloaderHandler {
    pub tmp_dir: String,
    pub socks_proxy_url: String,
    pub yt_dlp_path: String,
    pub cookies_path: String,
}

impl DeepView for DownloaderHandler {
    type V = DownloaderView;

    open spec fn deep_view(&self) -> DownloaderView {
        DownloaderView {
            tmp_dir: self.tmp_dir@,
            socks_proxy_url: self.socks_proxy_url@,
            yt_dlp_path: self.yt_dlp_path@,
            cookies_path: self.cookies_path@,
        }
    }
}

impl View for DownloaderHandler {
    type V = DownloaderView;

    open spec fn view(&self) -> DownloaderView {
        self.deep_view()
    }
}

fn finished() -> (r: DownloadState)
    ensures
        r@ == download_finished(),
{
    DownloadState {
        stage: DownloadStage::Finished,
        chat_id: 0,
        url: String::new(),
        dir: String::new(),
        path: String::new(),
        failure: None,
    }
}

impl DownloaderHandler {
    pub fn new(tmp_dir: String, socks_proxy_url: String, yt_dlp_path: String, cookies_path: String) -> (r:
        DownloaderHandler)
        ensures
            r@ == (DownloaderView {
                tmp_dir: tmp_dir@,
                socks_proxy_url: socks_proxy_url@,
                yt_dlp_path: yt_dlp_path@,
                cookies_path: cookies_path@,
            }),
    {
        DownloaderHandler { tmp_dir, socks_proxy_url, yt_dlp_path, cookies_path }
    }

    pub fn name(&self) -> (r: String)
        ensures
            r@ == "Downloader"@,
    {
        String::from_str("Downloader")
    }

    /// Makes the identifier of a video out of what the expression captured in
    /// the link: `None` for the capture stands for no identifier.
    pub fn id_from_capture(capture: Option<String>) -> (r: Result<String, BotError>)
        ensures
            text_or_failure(r) == match capture {
                Some(id) => Ok::<Seq<char>, BotErrorView>(id@),
                None => Err(no_id_in_url()),
            },
    {
        match capture {
            Some(id) => Ok(id),
            None => Err(BotError::new(ErrorKind::NotFound, "Can't parse video id from url")),
        }
    }

    /// Finds the identifier of the video in a link.
    pub fn extract_id(&self, s: &str) -> (r: Result<String, BotError>)
        ensures
            text_or_failure(r) == downloader_video_id(s@),
    {
        let pattern = if starts_with(s, "https://www.instagram.com/reel/") {
            "(v=|reel/)(?P<id>[^/]*)"
        } else if starts_with(s, "https://www.youtube.com/shorts/") {
            "(v=|shorts/)(?P<id>[^/]*)"
        } else {
            return Err(BotError::new(ErrorKind::NotFound, "Didn't find id regex for url"));
        };
        match regex_capture(pattern, "id", s) {
            Ok(capture) => Self::id_from_capture(capture),
            Err(_) => Err(BotError::new(ErrorKind::Validation, "Failed to compile video id Regex")),
        }
    }

    /// The arguments with which the tool downloads `url` to `path`.
    pub fn download(&self, url: &str, path: &str) -> (r: Vec<String>)
        ensures
            r.deep_view() == download_args(path@, self@.socks_proxy_url, self@.cookies_path, url@),
    {
        let mut args: Vec<String> = Vec::new();
        args.push(String::from_str("-o"));
        args.push(String::from_str(path));
        args.push(String::from_str("--proxy"));
        args.push(self.socks_proxy_url.clone());
        args.push(String::from_str("--cookies"));
        args.push(self.cookies_path.clone());
        args.push(String::from_str(url));
        assert(args.deep_view() =~= download_args(
            path@,
            self@.socks_proxy_url,
            self@.cookies_path,
            url@,
        ));
        args
    }

    /// Judges a run of the tool: success for the exit code zero, and otherwise
    /// a failure that carries what the tool printed.
    pub fn download_outcome(code: Option<i32>, output: String) -> (r: Result<(), BotError>)
        ensures
            tool_succeeded(code) ==> r is Ok,
            !tool_succeeded(code) ==> r is Err && r->Err_0@ == tool_failure(output@),
    {
        match code {
            Some(0) => Ok(()),
            _ => Err(BotError { kind: ErrorKind::Subprocess, detail: output }),
        }
    }

    /// Starts the download for a link, given the identifier found in it.
    pub fn process_url(&self, chat_id: i64, message_id: i64, url: &str, video_id: Result<
        String,
        BotError,
    >) -> (r: Step<DownloadState>)
        ensures
            (r.state@, r.effect@) == match text_or_failure(video_id) {
                Err(e) => (download_finished(), EffectView::Fail(e)),
                Ok(id) => {
                    let dir = path_join(self@.tmp_dir, download_dir_name(message_id as int));
                    (
                        DownloadStateView {
                            stage: DownloadStage::Creating,
                            chat_id: chat_id as int,
                            url: url@,
                            dir,
                            path: path_join(dir, download_file_name(id)),
                            failure: None,
                        },
                        EffectView::CreateDir { name: dir },
                    )
                },
            },
    {
        match video_id {
            Err(e) => Step { state: finished(), effect: Effect::Fail(e) },
            Ok(id) => {
                let digits = i64_to_decimal(message_id);
                let dir_name = join2("tmp_", digits.as_str());
                let dir = join_path(self.tmp_dir.as_str(), dir_name.as_str());
                let file_name = join2(id.as_str(), ".mp4");
                let path = join_path(dir.as_str(), file_name.as_str());
                Step {
                    state: DownloadState {
                        stage: DownloadStage::Creating,
                        chat_id,
                        url: String::from_str(url),
                        dir: dir.clone(),
                        path,
                        failure: None,
                    },
                    effect: Effect::CreateDir { name: dir },
                }
            },
        }
    }

    /// Looks at a message and says what to do first.
    pub fn process(&self, m: &Message) -> (r: Step<DownloadState>)
        ensures
            (r.state@, r.effect@) == downloader_start(self@, m@),
    {
        match &m.text {
            Some(t) => {
                if starts_with(t.as_str(), "https://www.instagram.com/reel/") || starts_with(
                    t.as_str(),
                    "https://www.youtube.com/shorts/",
                ) {
                    let video_id = self.extract_id(t.as_str());
                    return self.process_url(m.chat.id, m.message_id, t.as_str(), video_id);
                }
            },
            None => {},
        }
        Step { state: finished(), effect: Effect::Finish }
    }

    /// Takes the report of the last effect and says what to do next.
    pub fn resume(&self, state: DownloadState, event: Event) -> (r: Step<DownloadState>)
        ensures
            (r.state@, r.effect@) == downloader_resume(self@, state@, event@),
    {
        let DownloadState { stage, chat_id, url, dir, path, failure } = state;
        match stage {
            DownloadStage::Finished => Step { state: finished(), effect: Effect::Fail(unexpected()) },
            DownloadStage::Creating => match event {
                Event::Completed => {
                    let args = self.download(url.as_str(), path.as_str());
                    Step {
                        state: DownloadState {
                            stage: DownloadStage::Downloading,
                            chat_id,
                            url,
                            dir,
                            path,
                            failure,
                        },
                        effect: Effect::RunExtractor {
                            program: self.yt_dlp_path.clone(),
                            args,
                            clear_proxy: false,
                        },
                    }
                },
                Event::Failed(e) => Step { state: finished(), effect: Effect::Fail(e) },
                _ => Step { state: finished(), effect: Effect::Fail(unexpected()) },
            },
            DownloadStage::Downloading => {
                let verdict = match event {
                    Event::Exited { code, output } => Self::download_outcome(code, output),
                    Event::Failed(e) => Err(e),
                    _ => Err(unexpected()),
                };
                match verdict {
                    Ok(_) => Step {
                        effect: Effect::SendVideo {
                            chat_id: i64_to_decimal(chat_id),
                            path: path.clone(),
                        },
                        state: DownloadState {
                            stage: DownloadStage::Sending,
                            chat_id,
                            url,
                            dir,
                            path,
                            failure,
                        },
                    },
                    Err(e) => Step {
                        effect: Effect::RemoveDir { name: dir.clone() },
                        state: DownloadState {
                            stage: DownloadStage::Cleaning,
                            chat_id,
                            url,
                            dir,
                            path,
                            failure: Some(e),
                        },
                    },
                }
            },
            DownloadStage::Sending => {
                let failure = match event {
                    Event::Completed => None,
                    Event::Failed(e) => Some(e),
                    _ => Some(unexpected()),
                };
                Step {
                    effect: Effect::RemoveDir { name: dir.clone() },
                    state: DownloadState {
                        stage: DownloadStage::Cleaning,
                        chat_id,
                        url,
                        dir,
                        path,
                        failure,
                    },
                }
            },
            DownloadStage::Cleaning => {
                let last = match event {
                    Event::Completed => None,
                    Event::Failed(e) => Some(e),
                    _ => Some(unexpected()),
                };
                let effect = match failure {
                    Some(e) => Effect::Fail(e),
                    None => match last {
                        Some(e) => Effect::Fail(e),
                        None => Effect::Finish,
                    },
                };
                Step { state: finished(), effect }
            },
        }
    }
}

/// Once the directory of a download exists, the handling cannot end without
/// asking for its removal: from the run of the tool and from the delivery of
/// the video, every event leads either onward or to the removal of that very
/// directory, never straight to the end.
pub proof fn lemma_directory_is_always_removed(
    h: DownloaderView,
    s: DownloadStateView,
    event: EventView,
)
    requires
        s.stage == DownloadStage::Downloading || s.stage == DownloadStage::Sending,
    ensures
        ({
            let (next, effect) = downloader_resume(h, s, event);
            ||| (s.stage == DownloadStage::Downloading && next.stage == DownloadStage::Sending
                && effect is SendVideo && next.dir == s.dir)
            ||| (next.stage == DownloadStage::Cleaning && effect == EffectView::RemoveDir {
                name: s.dir,
            })
        }),
{
}

/// When the tool ends without success no video is sent: the directory is
/// removed, and whatever the removal reports, the handling then ends with the
/// failure of the tool and what it printed.
pub proof fn lemma_failed_tool_sends_nothing(
    h: DownloaderView,
    s: DownloadStateView,
    code: Option<i32>,
    output: Seq<char>,
    removal: EventView,
)
    requires
        s.stage == DownloadStage::Downloading,
        !tool_succeeded(code),
    ensures
        ({
            let (cleaning, first) = downloader_resume(h, s, EventView::Exited { code, output });
            let (end, last) = downloader_resume(h, cleaning, removal);
            &&& first == EffectView::RemoveDir { name: s.dir }
            &&& last == EffectView::Fail(tool_failure(output))
            &&& end.stage == DownloadStage::Finished
        }),
{
}

/// The number of effects a download can still ask for, at most, from a stage.
pub open spec fn download_steps_left(stage: DownloadStage) -> nat {
    match stage {
        DownloadStage::Creating => 4,
        DownloadStage::Downloading => 3,
        DownloadStage::Sending => 2,
        DownloadStage::Cleaning => 1,
        DownloadStage::Finished => 0,
    }
}

/// Every download comes to an end: each step either ends the handling,
/// leaving nothing to resume, or leaves fewer steps to go than there were.
pub proof fn lemma_download_ends(h: DownloaderView, s: DownloadStateView, event: EventView)
    ensures
        ({
            let (next, effect) = downloader_resume(h, s, event);
            if effect.is_final() {
                next.stage == DownloadStage::Finished
            } else {
                download_steps_left(next.stage) < download_steps_left(s.stage)
            }
        }),
{
}

} // verus!
