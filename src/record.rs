//! Raw records as the extraction source hands them over: every accessor
//! result is kept as it came, success or failure.

use vstd::prelude::*;
use crate::search::opt_view;
use crate::thumbnail::RawThumbnail;

verus! {

/// Why one accessor of the extraction source failed.
#[derive(Clone, Debug, PartialEq, Eq)]
pub struct ExtractError {
    pub cause: String,
}

/// The result of one accessor of the extraction source.
pub type Field<T> = Result<T, ExtractError>;

/// The error of a query.
#[derive(Clone, Debug, PartialEq, Eq)]
pub enum QueryError {
    /// The requested item, or a fetchable stream of it, does not exist.
    NotFound,
    /// The source data is malformed, or a required field could not be read.
    ExtractionFailed { cause: String },
}

/// A stream (video) item of the source.
#[derive(Debug, PartialEq, Eq)]
pub struct RawVideo {
    pub name: Field<String>,
    pub video_id: Field<String>,
    pub url: Field<String>,
    pub is_ad: Field<bool>,
    pub is_premium_video: Field<bool>,
    pub is_live: Field<bool>,
    pub duration: Field<i32>,
    pub uploader_name: Field<String>,
    pub uploader_url: Field<String>,
    pub upload_date: Field<String>,
    pub view_count: Field<i32>,
    pub thumbnails: Field<Vec<RawThumbnail>>,
}

/// A channel item of the source.
#[derive(Debug, PartialEq, Eq)]
pub struct RawChannel {
    pub name: Field<String>,
    pub channel_id: Field<String>,
    pub url: Field<String>,
    pub thumbnails: Field<Vec<RawThumbnail>>,
    pub subscriber_count: Field<i32>,
    pub stream_count: Field<i32>,
    pub description: Field<Option<String>>,
}

/// A playlist item of the source.
#[derive(Debug, PartialEq, Eq)]
pub struct RawPlaylist {
    pub name: Field<String>,
    pub playlist_id: Field<String>,
    pub url: Field<String>,
    pub thumbnails: Field<Vec<RawThumbnail>>,
    pub uploader_name: Field<String>,
    pub stream_count: Field<i32>,
}

/// A source item, tagged with its kind.
#[derive(Debug, PartialEq, Eq)]
pub enum RawItem {
    StreamInfoItem(RawVideo),
    ChannelInfoItem(RawChannel),
    PlaylistInfoItem(RawPlaylist),
}

pub open spec fn failure(e: ExtractError) -> QueryError {
    QueryError::ExtractionFailed { cause: e.cause }
}

/// A required text field: its failure fails the item.
pub open spec fn required(f: Field<String>) -> Result<String, QueryError> {
    match f {
        Ok(s) => Ok(s),
        Err(e) => Err(failure(e)),
    }
}

/// A continuation token, handed on exactly as the source gave it.
pub open spec fn page_token(f: Field<Option<String>>) -> Result<Option<String>, QueryError> {
    match f {
        Ok(p) => Ok(p),
        Err(e) => Err(failure(e)),
    }
}

/// An optional text field: its failure is an absent value.
pub open spec fn optional_text(f: Field<String>) -> Option<Seq<char>> {
    match f {
        Ok(s) => Some(s@),
        Err(_) => None,
    }
}

/// An optional count: its failure is an absent value.
pub open spec fn optional_count(f: Field<i32>) -> Option<i32> {
    match f {
        Ok(n) => Some(n),
        Err(_) => None,
    }
}

/// A classification flag: a value the source cannot determine is `false`.
pub open spec fn flag_or_false(f: Field<bool>) -> bool {
    match f {
        Ok(b) => b,
        Err(_) => false,
    }
}

pub(crate) fn failed(e: &ExtractError) -> (r: QueryError)
    ensures
        r == failure(*e),
{
    QueryError::ExtractionFailed { cause: e.cause.clone() }
}

pub(crate) fn read_required(f: &Field<String>) -> (r: Result<String, QueryError>)
    ensures
        r == required(*f),
{
    match f {
        Ok(s) => Ok(s.clone()),
        Err(e) => Err(failed(e)),
    }
}

pub(crate) fn read_optional_text(f: &Field<String>) -> (r: Option<String>)
    ensures
        opt_view(r) == optional_text(*f),
{
    match f {
        Ok(s) => Some(s.clone()),
        Err(_) => None,
    }
}

pub(crate) fn read_optional_count(f: &Field<i32>) -> (r: Option<i32>)
    ensures
        r == optional_count(*f),
{
    match f {
        Ok(n) => Some(*n),
        Err(_) => None,
    }
}

pub(crate) fn read_flag(f: &Field<bool>) -> (r: bool)
    ensures
        r == flag_or_false(*f),
{
    match f {
        Ok(b) => *b,
        Err(_) => false,
    }
}

pub(crate) fn clone_text(o: &Option<String>) -> (r: Option<String>)
    ensures
        r == *o,
{
    match o {
        Some(s) => Some(s.clone()),
        None => None,
    }
}

pub(crate) fn read_page_token(f: &Field<Option<String>>) -> (r: Result<Option<String>, QueryError>)
    ensures
        r == page_token(*f),
{
    match f {
        Ok(p) => Ok(clone_text(p)),
        Err(e) => Err(failed(e)),
    }
}

pub(crate) fn clone_error(e: &QueryError) -> (r: QueryError)
    ensures
        r == *e,
{
    match e {
        QueryError::NotFound => QueryError::NotFound,
        QueryError::ExtractionFailed { cause } => QueryError::ExtractionFailed { cause: cause.clone() },
    }
}

} // verus!
