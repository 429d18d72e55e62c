//! A channel page: its header fields and one page of its videos.

use vstd::prelude::*;
use crate::aggregate::{batch_of, batch_view, thumbnail_field, thumbnail_list, video_field, video_outcomes};
use crate::record::{failure, page_token, read_page_token, read_required, required, Field, QueryError, RawVideo};
use crate::search::VideoResult;
use crate::thumbnail::{RawThumbnail, Thumbnail};

verus! {

/// What the source reports of a channel page, accessor by accessor.
#[derive(Debug, PartialEq, Eq)]
pub struct Channel {
    pub name: Field<String>,
    pub avatars: Field<Vec<RawThumbnail>>,
    pub banners: Field<Vec<RawThumbnail>>,
    pub next_page_url: Field<Option<String>>,
    pub videos: Field<Vec<RawVideo>>,
}

impl Channel {
    pub fn name(&self) -> (r: Result<String, QueryError>)
        ensures
            r == required(self.name),
    {
        read_required(&self.name)
    }

    pub fn avatars(&self) -> (r: Result<Vec<Thumbnail>, QueryError>)
        ensures
            batch_view(r) == thumbnail_list(self.avatars),
    {
        thumbnail_field(&self.avatars)
    }

    pub fn banners(&self) -> (r: Result<Vec<Thumbnail>, QueryError>)
        ensures
            batch_view(r) == thumbnail_list(self.banners),
    {
        thumbnail_field(&self.banners)
    }

    /// The continuation token of the next page, unchanged; `None` on the last page.
    pub fn next_page_url(&self) -> (r: Result<Option<String>, QueryError>)
        ensures
            r == page_token(self.next_page_url),
    {
        read_page_token(&self.next_page_url)
    }

    pub fn videos(&self) -> (r: Result<Vec<VideoResult>, QueryError>)
        ensures
            match self.videos {
                Ok(v) => batch_of(video_outcomes(v@), batch_view(r)),
                Err(e) => r == Err::<Vec<VideoResult>, QueryError>(failure(e)),
            },
    {
        video_field(&self.videos)
    }
}

} // verus!
