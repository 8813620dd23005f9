//! The calls this library makes into other crates.  Each function here is
//! believed, not proved: its contract says what the crate's own source shows of
//! the call, and the rest of the library is verified against these contracts.

use std::collections::VecDeque;
use vstd::prelude::*;
use crate::handlers::youtube2rss::metadata::{Timestamp, VideoMetadata, VideoMetadataView};
use crate::handlers::youtube2rss::{FeedItem, FeedItemView};

verus! {

/// The error of `serde_json`, carried through as it is.
#[verifier::external_type_specification]
#[verifier::external_body]
pub struct ExJsonError(serde_json::Error);

/// The JSON string literal for a text: the text between double quotes, with
/// the escapes that JSON asks for, as `serde_json` writes it.
pub uninterp spec fn json_string_literal(text: Seq<char>) -> Seq<char>;

/// `serde_json::to_string`, applied to a text.  The call succeeds on every
/// text: the crate writes into a vector of bytes, and for a text it has no
/// error of its own, only those of the writer, of which a vector has none.
/// The result depends on the text alone; it is named [`json_string_literal`].
#[verifier::external_body]
pub(crate) fn json_quote(text: &str) -> (r: Result<String, serde_json::Error>)
    ensures
        r is Ok,
        r matches Ok(quoted) ==> quoted@ == json_string_literal(text@),
{
    serde_json::to_string(text)
}

/// The standard base64 text of some bytes, with padding, as the `base64` crate
/// writes it.
pub uninterp spec fn base64_standard(bytes: Seq<u8>) -> Seq<char>;

/// `base64::encode`.  The result depends on the bytes alone; it is named
/// [`base64_standard`].  The crate panics when the length of the encoded text
/// does not fit the machine's word: such inputs are excluded.
#[verifier::external_body]
pub(crate) fn base64_encode(bytes: &[u8]) -> (r: String)
    requires
        bytes@.len() / 3 * 4 + 4 <= usize::MAX,
    ensures
        r@ == base64_standard(bytes@),
{
    base64::encode(bytes)
}

/// The error of `regex`, carried through as it is.
#[verifier::external_type_specification]
#[verifier::external_body]
pub struct ExRegexError(regex::Error);

/// What the `regex` crate makes of the regular expression `pattern` on
/// `text`.  The outer `None` stands for an expression that the crate refuses
/// to compile, for an error in it or for its size; the crate counts the size
/// in bytes of the machine it is built for, and the name stands for the
/// outcome in this build.  Otherwise the value is
/// what the capture group named `group` holds in the leftmost match of the
/// expression in the text: `None` when the expression matches nowhere in the
/// text, when it has no group of that name, or when the group took no part in
/// the match.
pub uninterp spec fn regex_named_group(
    pattern: Seq<char>,
    group: Seq<char>,
    text: Seq<char>,
) -> Option<Option<Seq<char>>>;

/// `regex::Regex::new`, then `Regex::captures` and `Captures::name` on the
/// result.  Whether the crate compiles the expression is decided by the
/// expression, and what the group holds by the three texts; the whole outcome
/// is named [`regex_named_group`], and an error comes back exactly for an
/// expression that the crate refuses.
#[verifier::external_body]
pub(crate) fn regex_capture(pattern: &str, group: &str, text: &str) -> (r: Result<
    Option<String>,
    regex::Error,
>)
    ensures
        match r {
            Ok(found) => regex_named_group(pattern@, group@, text@) == Some(found.deep_view()),
            Err(_) => regex_named_group(pattern@, group@, text@) is None,
        },
{
    let regex = regex::Regex::new(pattern)?;
    Ok(regex.captures(text).and_then(|c| c.name(group)).map(|m| m.as_str().to_string()))
}

/// The date and time, in UTC, of the moment `secs` seconds and `nanos`
/// nanoseconds after the start of 1970, written as RFC 2822 asks: such as
/// `Tue, 1 Jul 2003 10:52:37 +0000`.
pub uninterp spec fn rfc2822_utc(secs: int, nanos: int) -> Seq<char>;

/// `chrono::DateTime::from_timestamp`, then `DateTime::to_rfc2822` on the
/// result.  The text depends on the two numbers alone; it is named
/// [`rfc2822_utc`].  The crate cannot write a year past 9999 in this form and
/// panics on one, and it accepts no count of nanoseconds of a second or more
/// here: such inputs are excluded, and on the others the moment exists.
#[verifier::external_body]
pub(crate) fn rfc2822(secs: u64, nanos: u32) -> (r: Option<String>)
    requires
        secs <= 253_402_300_799,
        nanos < 1_000_000_000,
    ensures
        r is Some,
        r matches Some(text) ==> text@ == rfc2822_utc(secs as int, nanos as int),
{
    chrono::DateTime::from_timestamp(secs as i64, nanos).map(|moment| moment.to_rfc2822())
}

/// The RSS document of a channel that has the given title, the given items in
/// their order, and nothing else, as the `rss` crate writes it.
pub uninterp spec fn rss_document(title: Seq<char>, items: Seq<FeedItemView>) -> Seq<char>;

/// `rss::Channel::to_string`, on a channel made with `Channel::default`,
/// `set_title` and `set_items`; each item is made with `Item::default`,
/// `set_title`, `set_pub_date` and `set_enclosure`, and its enclosure with
/// `Enclosure::default`, `set_url`, `set_length` and `set_mime_type`.  The
/// document depends on the title and the items alone; it is named
/// [`rss_document`].
#[verifier::external_body]
pub(crate) fn render_channel(title: &str, items: &Vec<FeedItem>) -> (r: String)
    ensures
        r@ == rss_document(title@, items.deep_view()),
{
    let items = items.iter().map(|entry| {
        let mut enclosure = rss::Enclosure::default();
        enclosure.set_url(entry.url.clone());
        enclosure.set_length(entry.length.clone());
        enclosure.set_mime_type(entry.mime_type.clone());
        let mut item = rss::Item::default();
        item.set_title(entry.title.clone());
        item.set_pub_date(entry.pub_date.clone());
        item.set_enclosure(enclosure);
        item
    }).collect::<Vec<rss::Item>>();
    let mut channel = rss::Channel::default();
    channel.set_title(title);
    channel.set_items(items);
    channel.to_string()
}

/// The error of `rmp_serde` for a value it could not write, carried through
/// as it is.
#[verifier::external_type_specification]
#[verifier::external_body]
pub struct ExMsgpackEncodeError(rmp_serde::encode::Error);

/// The error of `rmp_serde` for bytes it could not read, carried through as
/// it is.
#[verifier::external_type_specification]
#[verifier::external_body]
pub struct ExMsgpackDecodeError(rmp_serde::decode::Error);

/// The MessagePack bytes of a list of episode records, in the compact form of
/// `rmp_serde`: an array of records, each the array of its seven fields in
/// their order, the moment of creation an array of seconds and nanoseconds.
pub uninterp spec fn msgpack_of_episodes(list: Seq<VideoMetadataView>) -> Seq<u8>;

/// The list of episode records that `rmp_serde` reads from some bytes, or
/// `None` when the bytes are not such a list.
pub uninterp spec fn episodes_of_msgpack(bytes: Seq<u8>) -> Option<Seq<VideoMetadataView>>;

/// `rmp_serde::to_vec`, on the records written as tuples of their fields.  An
/// error of the crate comes back as it is, and nothing is claimed about when
/// that happens.  Otherwise the bytes depend on the list alone; they are named
/// [`msgpack_of_episodes`].
#[verifier::external_body]
pub(crate) fn msgpack_write(list: &VecDeque<VideoMetadata>) -> (r: Result<
    Vec<u8>,
    rmp_serde::encode::Error,
>)
    ensures
        r matches Ok(bytes) ==> bytes@ == msgpack_of_episodes(list.deep_view()),
{
    let rows = list.iter().map(|m| (
        m.file_size,
        &m.file_url,
        &m.video_id,
        (m.created_at.secs, m.created_at.nanos),
        &m.name,
        &m.original_link,
        &m.mime_type,
    )).collect::<Vec<_>>();
    rmp_serde::to_vec(&rows)
}

/// `rmp_serde::from_read`, reading the records as tuples of their fields.
/// Whether the bytes are read, and as which list, depends on the bytes alone;
/// the outcome is named [`episodes_of_msgpack`].
#[verifier::external_body]
pub(crate) fn msgpack_read(bytes: &[u8]) -> (r: Result<
    VecDeque<VideoMetadata>,
    rmp_serde::decode::Error,
>)
    ensures
        match r {
            Ok(list) => episodes_of_msgpack(bytes@) == Some(list.deep_view()),
            Err(_) => episodes_of_msgpack(bytes@) is None,
        },
{
    let rows: Vec<(u64, String, String, (u64, u32), String, String, String)> =
        rmp_serde::from_read(bytes)?;
    Ok(rows.into_iter().map(|row| VideoMetadata {
        file_size: row.0,
        file_url: row.1,
        video_id: row.2,
        created_at: Timestamp { secs: row.3.0, nanos: row.3.1 },
        name: row.4,
        original_link: row.5,
        mime_type: row.6,
    }).collect())
}

} // verus!
