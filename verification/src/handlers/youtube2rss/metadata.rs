//! The episode records of a user and the list that holds them, newest first.

use std::collections::VecDeque;
use vstd::prelude::*;
use crate::error::{BotError, BotErrorView, ErrorKind};
use crate::handlers::youtube2rss::s3_storage::{Fetched, ObjectRef, S3Storage};
use crate::outside::{episodes_of_msgpack, msgpack_of_episodes, msgpack_read, msgpack_write};

verus! {

/// A moment, counted from the start of 1970 in UTC.
#[derive(Clone, Copy, Debug, PartialEq, Eq, Structural)]
pub struct Timestamp {
    pub secs: u64,
    pub nanos: u32,
}

/// The record of one ingested media item.
#[derive(Clone, Debug, PartialEq, Eq)]
pub struct VideoMetadata {
    pub file_size: u64,
    pub file_url: String,
    pub video_id: String,
    pub created_at: Timestamp,
    pub name: String,
    pub original_link: String,
    pub mime_type: String,
}

pub struct VideoMetadataView {
    pub file_size: nat,
    pub file_url: Seq<char>,
    pub video_id: Seq<char>,
    pub created_at: Timestamp,
    pub name: Seq<char>,
    pub original_link: Seq<char>,
    pub mime_type: Seq<char>,
}

/// A record with nothing in it.
pub open spec fn blank_record() -> VideoMetadataView {
    VideoMetadataView {
        file_size: 0,
        file_url: Seq::empty(),
        video_id: Seq::empty(),
        created_at: Timestamp { secs: 0, nanos: 0 },
        name: Seq::empty(),
        original_link: Seq::empty(),
        mime_type: Seq::empty(),
    }
}

impl VideoMetadata {
    /// A record with nothing in it.
    pub fn blank() -> (r: VideoMetadata)
        ensures
            r@ == blank_record(),
    {
        VideoMetadata {
            file_size: 0,
            file_url: String::new(),
            video_id: String::new(),
            created_at: Timestamp { secs: 0, nanos: 0 },
            name: String::new(),
            original_link: String::new(),
            mime_type: String::new(),
        }
    }

    /// A second record with the same content.
    pub fn duplicate(&self) -> (r: VideoMetadata)
        ensures
            r@ == self@,
    {
        VideoMetadata {
            file_size: self.file_size,
            file_url: self.file_url.clone(),
            video_id: self.video_id.clone(),
            created_at: self.created_at,
            name: self.name.clone(),
            original_link: self.original_link.clone(),
            mime_type: self.mime_type.clone(),
        }
    }
}

impl DeepView for VideoMetadata {
    type V = VideoMetadataView;

    open spec fn deep_view(&self) -> VideoMetadataView {
        VideoMetadataView {
            file_size: self.file_size as nat,
            file_url: self.file_url@,
            video_id: self.video_id@,
            created_at: self.created_at,
            name: self.name@,
            original_link: self.original_link@,
            mime_type: self.mime_type@,
        }
    }
}

impl View for VideoMetadata {
    type V = VideoMetadataView;

    open spec fn view(&self) -> VideoMetadataView {
        self.deep_view()
    }
}

/// The list with one more record, which becomes its first.
pub open spec fn prepend(list: Seq<VideoMetadataView>, record: VideoMetadataView) -> Seq<
    VideoMetadataView,
> {
    seq![record] + list
}

/// The failure for stored bytes that are no list of records.
pub open spec fn unreadable_list() -> BotErrorView {
    BotErrorView { kind: ErrorKind::Decode, detail: "Can't load metadata from the path"@ }
}

/// The failure for a list that could not be written as bytes.
pub open spec fn unwritable_list() -> BotErrorView {
    BotErrorView { kind: ErrorKind::Decode, detail: "Can't serialize metadata for the path"@ }
}

/// The failure for a read of the stored list that did not come through.
pub open spec fn unreachable_list(detail: Seq<char>) -> BotErrorView {
    BotErrorView { kind: ErrorKind::Transport, detail }
}

/// The value of a list of records or a failure.
pub open spec fn list_or_failure(r: Result<VecDeque<VideoMetadata>, BotError>) -> Result<
    Seq<VideoMetadataView>,
    BotErrorView,
> {
    match r {
        Ok(list) => Ok(list.deep_view()),
        Err(e) => Err(e@),
    }
}

/// The list of a user as a read of storage shows it: the decoded bytes of the
/// object, the empty list when there is no object yet, and a failure when the
/// bytes are no list or the read failed.
pub open spec fn loaded_list(fetched: Fetched) -> Result<Seq<VideoMetadataView>, BotErrorView> {
    match fetched {
        Fetched::Found(bytes) => list_from_object(Some(bytes@)),
        Fetched::NoSuchKey => list_from_object(None),
        Fetched::Failed(detail) => Err(unreachable_list(detail@)),
    }
}

/// The list held by the object of a user: the decoded bytes, or the empty list
/// when there is no object yet; a failure when the bytes are no list.
pub open spec fn list_from_object(object: Option<Seq<u8>>) -> Result<
    Seq<VideoMetadataView>,
    BotErrorView,
> {
    match object {
        Some(bytes) => match episodes_of_msgpack(bytes) {
            Some(list) => Ok(list),
            None => Err(unreadable_list()),
        },
        None => Ok(Seq::empty()),
    }
}

/// Whether the bytes of a list read back as that list.
pub open spec fn reads_back(list: Seq<VideoMetadataView>) -> bool {
    episodes_of_msgpack(msgpack_of_episodes(list)) == Some(list)
}

/// A list whose bytes read back as the list is loaded as it was stored: the
/// same records in the same order.  This is no more than what is asked of the
/// list, said of the loading; that the bytes of a list do read back is not
/// shown here.
pub proof fn lemma_list_is_loaded_as_stored_where_its_bytes_read_back(list: Seq<VideoMetadataView>)
    requires
        reads_back(list),
    ensures
        list_from_object(Some(msgpack_of_episodes(list))) == Ok::<
            Seq<VideoMetadataView>,
            BotErrorView,
        >(list),
{
}

/// The store of the episode lists, one object per user.
#[derive(Clone, Debug, PartialEq, Eq)]
pub struct MetadataStorage {
    pub s3_storage: S3Storage,
}

impl MetadataStorage {
    pub fn new(s3_storage: S3Storage) -> (r: MetadataStorage)
        ensures
            r.s3_storage == s3_storage,
    {
        MetadataStorage { s3_storage }
    }

    /// The object that holds the list stored under `s3_path`.
    pub fn object(&self, s3_path: &str) -> (r: ObjectRef)
        ensures
            r.bucket@ == self.s3_storage.bucket(),
            r.key@ == s3_path@,
    {
        self.s3_storage.download_object(s3_path)
    }

    /// Makes the list of a user out of what a read of storage returned.
    pub fn load_metadata(fetched: Fetched) -> (r: Result<VecDeque<VideoMetadata>, BotError>)
        ensures
            list_or_failure(r) == loaded_list(fetched),
    {
        match fetched {
            Fetched::Found(bytes) => match msgpack_read(bytes.as_slice()) {
                Ok(list) => Ok(list),
                Err(_) => Err(
                    BotError::new(ErrorKind::Decode, "Can't load metadata from the path"),
                ),
            },
            Fetched::NoSuchKey => {
                let list: VecDeque<VideoMetadata> = VecDeque::new();
                assert(list.deep_view() =~= Seq::<VideoMetadataView>::empty());
                Ok(list)
            },
            Fetched::Failed(detail) => Err(BotError { kind: ErrorKind::Transport, detail }),
        }
    }

    /// Writes a list as the bytes to store.  Apart from a failure of the
    /// writing itself, the bytes are those of [`msgpack_of_episodes`].
    pub fn update_metadata(data: &VecDeque<VideoMetadata>) -> (r: Result<Vec<u8>, BotError>)
        ensures
            match r {
                Ok(bytes) => bytes@ == msgpack_of_episodes(data.deep_view()),
                Err(e) => e@ == unwritable_list(),
            },
    {
        match msgpack_write(data) {
            Ok(bytes) => Ok(bytes),
            Err(_) => Err(
                BotError::new(ErrorKind::Decode, "Can't serialize metadata for the path"),
            ),
        }
    }

    /// Puts a record in front of a list.  Nothing is removed and nothing is
    /// merged: a record equal to one already present is added all the same.
    pub fn add_metadata(metadata: VecDeque<VideoMetadata>, data: VideoMetadata) -> (r: VecDeque<
        VideoMetadata,
    >)
        ensures
            r.deep_view() == prepend(metadata.deep_view(), data@),
    {
        let mut metadata = metadata;
        let ghost before = metadata.deep_view();
        metadata.push_front(data);
        assert(metadata.deep_view() =~= prepend(before, data@));
        metadata
    }
}

} // verus!
