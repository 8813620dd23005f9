//! The video service: the request for the details of a video and the choice
//! among the items of its answer.

use vstd::prelude::*;
use crate::http::{HttpRequest, Verb, plain_request};

verus! {

/// The details of a video.
#[derive(Clone, Debug, PartialEq, Eq)]
pub struct Snippet {
    pub published_at: String,
    pub channel_id: String,
    pub title: String,
    pub description: String,
}

pub struct SnippetView {
    pub published_at: Seq<char>,
    pub channel_id: Seq<char>,
    pub title: Seq<char>,
    pub description: Seq<char>,
}

impl DeepView for Snippet {
    type V = SnippetView;

    open spec fn deep_view(&self) -> SnippetView {
        SnippetView {
            published_at: self.published_at@,
            channel_id: self.channel_id@,
            title: self.title@,
            description: self.description@,
        }
    }
}

impl View for Snippet {
    type V = SnippetView;

    open spec fn view(&self) -> SnippetView {
        self.deep_view()
    }
}

/// The client of the video service.
#[derive(Clone, Debug, PartialEq, Eq)]
pub struct YoutubeSdk {
    api_key: String,
}

/// The address that answers with the details of the video `video_id`.
pub open spec fn video_info_url(video_id: Seq<char>, api_key: Seq<char>) -> Seq<char> {
    "https://www.googleapis.com/youtube/v3/videos?part=snippet&id="@ + video_id + "&key="@
        + api_key
}

/// The details to use among those the service returned: the first, if any.
pub open spec fn first_snippet(items: Seq<Snippet>) -> Option<Snippet> {
    if items.len() > 0 {
        Some(items[0])
    } else {
        None
    }
}

impl YoutubeSdk {
    pub closed spec fn api_key(&self) -> Seq<char> {
        self.api_key@
    }

    pub fn new(api_key: String) -> (r: YoutubeSdk)
        ensures
            r.api_key() == api_key@,
    {
        YoutubeSdk { api_key }
    }

    /// The request for the details of the video `video_id`.
    pub fn get_video_info(&self, video_id: &str) -> (r: HttpRequest)
        ensures
            r@ == plain_request(Verb::Get, video_info_url(video_id@, self.api_key())),
    {
        let mut url = String::from_str(
            "https://www.googleapis.com/youtube/v3/videos?part=snippet&id=",
        );
        url.append(video_id);
        url.append("&key=");
        url.append(self.api_key.as_str());
        HttpRequest::plain(Verb::Get, url)
    }

    /// Picks the details of the video from the items of an answer: the first
    /// item, or nothing when the answer is empty.
    pub fn video_info(items: Vec<Snippet>) -> (r: Option<Snippet>)
        ensures
            r == first_snippet(items@),
    {
        let mut items = items;
        if items.len() > 0 {
            Some(items.swap_remove(0))
        } else {
            None
        }
    }
}

} // verus!
