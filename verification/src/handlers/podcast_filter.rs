//! The plain form of the podcast feature: a link to a video is downloaded as
//! an mp3 file and put into storage, without a feed and without an answer.

use vstd::prelude::*;
use crate::error::{BotError, BotErrorView, ErrorKind, text_or_failure};
use crate::handlers::youtube2rss::s3_storage::ObjectRef;
use crate::outside::{regex_capture, regex_named_group};
use crate::telegram_api::{Message, MessageView};
use crate::text::{join2, join3, join_path, path_join, starts_with};

verus! {

/// The filter and its configuration.
#[derive(Clone, Debug, PartialEq, Eq)]
pub struct PodcastFilter {
    pub youtube_extractor: String,
    pub tmp_dir: String,
    pub bucket_name: String,
}

pub struct PodcastFilterView {
    pub youtube_extractor: Seq<char>,
    pub tmp_dir: Seq<char>,
    pub bucket_name: Seq<char>,
}

impl DeepView for PodcastFilter {
    type V = PodcastFilterView;

    open spec fn deep_view(&self) -> PodcastFilterView {
        PodcastFilterView {
            youtube_extractor: self.youtube_extractor@,
            tmp_dir: self.tmp_dir@,
            bucket_name: self.bucket_name@,
        }
    }
}

impl View for PodcastFilter {
    type V = PodcastFilterView;

    open spec fn view(&self) -> PodcastFilterView {
        self.deep_view()
    }
}

/// What the filter asks for: a run of the download tool, then the upload of
/// the file the tool wrote.
#[derive(Clone, Debug, PartialEq, Eq)]
pub struct FilterPlan {
    pub program: String,
    pub args: Vec<String>,
    /// The file the tool writes.
    pub file: String,
    /// Where the file goes.
    pub bucket: String,
    pub key: String,
}

pub struct FilterPlanView {
    pub program: Seq<char>,
    pub args: Seq<Seq<char>>,
    pub file: Seq<char>,
    pub bucket: Seq<char>,
    pub key: Seq<char>,
}

impl DeepView for FilterPlan {
    type V = FilterPlanView;

    open spec fn deep_view(&self) -> FilterPlanView {
        FilterPlanView {
            program: self.program@,
            args: self.args.deep_view(),
            file: self.file@,
            bucket: self.bucket@,
            key: self.key@,
        }
    }
}

impl View for FilterPlan {
    type V = FilterPlanView;

    open spec fn view(&self) -> FilterPlanView {
        self.deep_view()
    }
}

/// Whether the filter reacts to a message: its text begins like a link to a
/// video.
pub open spec fn filter_trigger(m: MessageView) -> bool {
    m.text matches Some(t) && "https://www.youtube.com/watch"@.is_prefix_of(t)
}

/// The expression that finds the identifier in a link.
pub open spec fn filter_id_pattern() -> Seq<char> {
    "v=(?P<id>[[:alnum:]]*)"@
}

/// The failure for a link without an identifier.
pub open spec fn filter_no_id() -> BotErrorView {
    BotErrorView { kind: ErrorKind::NotFound, detail: "Can't parse video id from youtube url"@ }
}

/// The failure for an expression that the regex engine refuses.
pub open spec fn filter_pattern_refused() -> BotErrorView {
    BotErrorView { kind: ErrorKind::Validation, detail: "Can't compile video id Regex"@ }
}

/// The arguments of the download tool: extract the audio as mp3 to `path`.
pub open spec fn filter_args(path: Seq<char>, url: Seq<char>) -> Seq<Seq<char>> {
    seq!["-x"@, "--audio-format"@, "mp3"@, "-o"@, path, url]
}

/// The plan for the video `video_id` behind `url`.
pub open spec fn filter_plan(h: PodcastFilterView, url: Seq<char>, video_id: Seq<char>) -> FilterPlanView {
    FilterPlanView {
        program: h.youtube_extractor,
        args: filter_args(path_join(h.tmp_dir, "%(id)s.%(ext)s"@), url),
        file: path_join(h.tmp_dir, video_id + ".mp3"@),
        bucket: h.bucket_name,
        key: "data/"@ + video_id + ".mp3"@,
    }
}

/// The value of a plan or a failure.
pub open spec fn plan_or_failure(r: Result<FilterPlan, BotError>) -> Result<
    FilterPlanView,
    BotErrorView,
> {
    match r {
        Ok(plan) => Ok(plan@),
        Err(e) => Err(e@),
    }
}

/// The identifier of the video behind a link: what the group `id` of the
/// expression holds.  A link in which the expression finds nothing and an
/// expression that the regex engine refuses are failures.
pub open spec fn filter_video_id(url: Seq<char>) -> Result<Seq<char>, BotErrorView> {
    match regex_named_group(filter_id_pattern(), "id"@, url) {
        Some(Some(id)) => Ok(id),
        Some(None) => Err(filter_no_id()),
        None => Err(filter_pattern_refused()),
    }
}

/// What the filter makes of a link.
pub open spec fn filter_process_url(h: PodcastFilterView, url: Seq<char>) -> Result<
    FilterPlanView,
    BotErrorView,
> {
    match filter_video_id(url) {
        Ok(id) => Ok(filter_plan(h, url, id)),
        Err(e) => Err(e),
    }
}

impl PodcastFilter {
    pub fn new(youtube_extractor: String, tmp_dir: String, bucket_name: String) -> (r: PodcastFilter)
        ensures
            r@ == (PodcastFilterView {
                youtube_extractor: youtube_extractor@,
                tmp_dir: tmp_dir@,
                bucket_name: bucket_name@,
            }),
    {
        PodcastFilter { youtube_extractor, tmp_dir, bucket_name }
    }

    /// The arguments with which the tool downloads `url` to `path`.
    pub fn download(&self, url: &str, path: &str) -> (r: Vec<String>)
        ensures
            r.deep_view() == filter_args(path@, url@),
    {
        let mut args: Vec<String> = Vec::new();
        args.push(String::from_str("-x"));
        args.push(String::from_str("--audio-format"));
        args.push(String::from_str("mp3"));
        args.push(String::from_str("-o"));
        args.push(String::from_str(path));
        args.push(String::from_str(url));
        assert(args.deep_view() =~= filter_args(path@, url@));
        args
    }

    /// Makes the identifier of a video out of what the expression captured in
    /// the link: `None` for the capture stands for no identifier.
    pub fn id_from_capture(capture: Option<String>) -> (r: Result<String, BotError>)
        ensures
            text_or_failure(r) == match capture {
                Some(id) => Ok::<Seq<char>, BotErrorView>(id@),
                None => Err(filter_no_id()),
            },
    {
        match capture {
            Some(id) => Ok(id),
            None => Err(
                BotError::new(ErrorKind::NotFound, "Can't parse video id from youtube url"),
            ),
        }
    }

    /// Finds the identifier of the video in a link.
    pub fn extract_id(&self, s: &str) -> (r: Result<String, BotError>)
        ensures
            text_or_failure(r) == filter_video_id(s@),
    {
        match regex_capture("v=(?P<id>[[:alnum:]]*)", "id", s) {
            Ok(capture) => Self::id_from_capture(capture),
            Err(_) => Err(BotError::new(ErrorKind::Validation, "Can't compile video id Regex")),
        }
    }

    /// The object that the file of the video goes to.
    pub fn upload_file(&self, s3_path: String) -> (r: ObjectRef)
        ensures
            r.bucket@ == self@.bucket_name,
            r.key@ == s3_path@,
    {
        ObjectRef { bucket: self.bucket_name.clone(), key: s3_path }
    }

    /// Builds the plan for a link, given the identifier found in it.
    pub fn plan(&self, url: &str, video_id: Result<String, BotError>) -> (r: Result<
        FilterPlan,
        BotError,
    >)
        ensures
            plan_or_failure(r) == match text_or_failure(video_id) {
                Ok(id) => Ok::<FilterPlanView, BotErrorView>(filter_plan(self@, url@, id)),
                Err(e) => Err(e),
            },
    {
        match video_id {
            Err(e) => Err(e),
            Ok(id) => {
                let template = join_path(self.tmp_dir.as_str(), "%(id)s.%(ext)s");
                let file_name = join2(id.as_str(), ".mp3");
                let target = self.upload_file(join3("data/", id.as_str(), ".mp3"));
                Ok(
                    FilterPlan {
                        program: self.youtube_extractor.clone(),
                        args: self.download(url, template.as_str()),
                        file: join_path(self.tmp_dir.as_str(), file_name.as_str()),
                        bucket: target.bucket,
                        key: target.key,
                    },
                )
            },
        }
    }

    /// Says what to do for a link.
    pub fn process_url(&self, url: &str) -> (r: Result<FilterPlan, BotError>)
        ensures
            plan_or_failure(r) == filter_process_url(self@, url@),
    {
        let video_id = self.extract_id(url);
        self.plan(url, video_id)
    }

    /// Looks at a message: nothing for one that does not trigger the filter,
    /// and otherwise what [`PodcastFilter::process_url`] says of its text.
    pub fn process(&self, m: &Message) -> (r: Option<Result<FilterPlan, BotError>>)
        ensures
            r is Some <==> filter_trigger(m@),
            r matches Some(outcome) ==> plan_or_failure(outcome) == filter_process_url(
                self@,
                m@.text->0,
            ),
    {
        match &m.text {
            Some(s) => {
                if starts_with(s.as_str(), "https://www.youtube.com/watch") {
                    Some(self.process_url(s.as_str()))
                } else {
                    None
                }
            },
            None => None,
        }
    }
}

} // verus!
