//! A playlist page: its header fields and one page of its videos.

use vstd::prelude::*;
use crate::aggregate::{batch_of, batch_view, thumbnail_field, thumbnail_list, video_field, video_outcomes};
use crate::record::{
    failure, optional_count, optional_text, page_token, read_optional_count, read_optional_text,
    read_page_token, read_required, required, Field, QueryError, RawVideo,
};
use crate::search::{opt_view, VideoResult};
use crate::thumbnail::{RawThumbnail, Thumbnail};

verus! {

/// What the source reports of a playlist page, accessor by accessor.
#[derive(Debug, PartialEq, Eq)]
pub struct Playlist {
    pub name: Field<String>,
    pub uploader_name: Field<String>,
    pub uploader_url: Field<String>,
    pub uploader_avatars: Field<Vec<RawThumbnail>>,
    pub thumbnails: Field<Vec<RawThumbnail>>,
    pub next_page_url: Field<Option<String>>,
    pub stream_count: Field<i32>,
    pub videos: Field<Vec<RawVideo>>,
}

impl Playlist {
    pub fn name(&self) -> (r: Result<String, QueryError>)
        ensures
            r == required(self.name),
    {
        read_required(&self.name)
    }

    /// The uploader's name, absent where the source could not read it.
    pub fn uploader_name(&self) -> (r: Option<String>)
        ensures
            opt_view(r) == optional_text(self.uploader_name),
    {
        read_optional_text(&self.uploader_name)
    }

    pub fn uploader_url(&self) -> (r: Result<String, QueryError>)
        ensures
            r == required(self.uploader_url),
    {
        read_required(&self.uploader_url)
    }

    pub fn uploader_avatars(&self) -> (r: Result<Vec<Thumbnail>, QueryError>)
        ensures
            batch_view(r) == thumbnail_list(self.uploader_avatars),
    {
        thumbnail_field(&self.uploader_avatars)
    }

    pub fn thumbnails(&self) -> (r: Result<Vec<Thumbnail>, QueryError>)
        ensures
            batch_view(r) == thumbnail_list(self.thumbnails),
    {
        thumbnail_field(&self.thumbnails)
    }

    /// The continuation token of the next page, unchanged; `None` on the last page.
    pub fn next_page_url(&self) -> (r: Result<Option<String>, QueryError>)
        ensures
            r == page_token(self.next_page_url),
    {
        read_page_token(&self.next_page_url)
    }

    /// The number of videos, absent where the source could not read it.
    pub fn videos_count(&self) -> (r: Option<i32>)
        ensures
            r == optional_count(self.stream_count),
    {
        read_optional_count(&self.stream_count)
    }

    pub fn videos(&self) -> (r: Result<Vec<VideoResult>, QueryError>)
        ensures
            match self.videos {
                Ok(v) => batch_of(video_outcomes(v@), batch_view(r)),
                Err(e) => r == Err::<Vec<VideoResult>, QueryError>(failure(e)),
            },
    {
        video_field(&self.videos)
    }
}

} // verus!
