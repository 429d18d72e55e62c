//! The result model of catalog queries, and the search container.

use vstd::prelude::*;
use crate::aggregate::{aggregate, batch_of, batch_view, item_outcomes};
use crate::record::{failed, failure, page_token, read_page_token, Field, QueryError, RawItem};
use crate::thumbnail::{Thumbnail, ThumbnailView};

verus! {

#[derive(Clone, Debug, PartialEq, Eq)]
pub struct VideoResult {
    pub name: String,
    pub video_id: String,
    pub is_ad: bool,
    pub is_premium_video: bool,
    pub url: String,
    pub is_live: bool,
    pub duration: Option<i32>,
    pub uploader_name: Option<String>,
    pub uploader_url: Option<String>,
    pub upload_date: Option<String>,
    pub view_count: Option<i32>,
    pub thumbnail: Vec<Thumbnail>,
}

#[derive(Clone, Debug, PartialEq, Eq)]
pub struct PlaylistResult {
    pub name: String,
    pub playlist_id: String,
    pub thumbnail: Vec<Thumbnail>,
    pub url: String,
    pub uploader_name: Option<String>,
    pub videos: Option<i32>,
}

#[derive(Clone, Debug, PartialEq, Eq)]
pub struct ChannelResult {
    pub name: String,
    pub channel_id: String,
    pub thumbnail: Vec<Thumbnail>,
    pub url: String,
    pub subscribers: Option<i32>,
    pub videos: Option<i32>,
    pub description: Option<String>,
}

/// One item of a catalog query: a video, a playlist or a channel.
#[derive(Clone, Debug, PartialEq, Eq)]
pub enum SearchResult {
    VideoInfo(VideoResult),
    PlaylistInfo(PlaylistResult),
    ChannelInfo(ChannelResult),
}

pub struct VideoView {
    pub name: Seq<char>,
    pub video_id: Seq<char>,
    pub is_ad: bool,
    pub is_premium_video: bool,
    pub url: Seq<char>,
    pub is_live: bool,
    pub duration: Option<i32>,
    pub uploader_name: Option<Seq<char>>,
    pub uploader_url: Option<Seq<char>>,
    pub upload_date: Option<Seq<char>>,
    pub view_count: Option<i32>,
    pub thumbnail: Seq<ThumbnailView>,
}

pub struct PlaylistView {
    pub name: Seq<char>,
    pub playlist_id: Seq<char>,
    pub thumbnail: Seq<ThumbnailView>,
    pub url: Seq<char>,
    pub uploader_name: Option<Seq<char>>,
    pub videos: Option<i32>,
}

pub struct ChannelView {
    pub name: Seq<char>,
    pub channel_id: Seq<char>,
    pub thumbnail: Seq<ThumbnailView>,
    pub url: Seq<char>,
    pub subscribers: Option<i32>,
    pub videos: Option<i32>,
    pub description: Option<Seq<char>>,
}

pub enum SearchResultView {
    VideoInfo(VideoView),
    PlaylistInfo(PlaylistView),
    ChannelInfo(ChannelView),
}

pub open spec fn thumbnails_view(v: Vec<Thumbnail>) -> Seq<ThumbnailView> {
    v@.map_values(|t: Thumbnail| t@)
}

pub open spec fn opt_view(o: Option<String>) -> Option<Seq<char>> {
    match o {
        Some(s) => Some(s@),
        None => None,
    }
}

impl View for VideoResult {
    type V = VideoView;

    open spec fn view(&self) -> VideoView {
        VideoView {
            name: self.name@,
            video_id: self.video_id@,
            is_ad: self.is_ad,
            is_premium_video: self.is_premium_video,
            url: self.url@,
            is_live: self.is_live,
            duration: self.duration,
            uploader_name: opt_view(self.uploader_name),
            uploader_url: opt_view(self.uploader_url),
            upload_date: opt_view(self.upload_date),
            view_count: self.view_count,
            thumbnail: thumbnails_view(self.thumbnail),
        }
    }
}

impl View for PlaylistResult {
    type V = PlaylistView;

    open spec fn view(&self) -> PlaylistView {
        PlaylistView {
            name: self.name@,
            playlist_id: self.playlist_id@,
            thumbnail: thumbnails_view(self.thumbnail),
            url: self.url@,
            uploader_name: opt_view(self.uploader_name),
            videos: self.videos,
        }
    }
}

impl View for ChannelResult {
    type V = ChannelView;

    open spec fn view(&self) -> ChannelView {
        ChannelView {
            name: self.name@,
            channel_id: self.channel_id@,
            thumbnail: thumbnails_view(self.thumbnail),
            url: self.url@,
            subscribers: self.subscribers,
            videos: self.videos,
            description: opt_view(self.description),
        }
    }
}

impl View for SearchResult {
    type V = SearchResultView;

    open spec fn view(&self) -> SearchResultView {
        match self {
            SearchResult::VideoInfo(v) => SearchResultView::VideoInfo(v@),
            SearchResult::PlaylistInfo(p) => SearchResultView::PlaylistInfo(p@),
            SearchResult::ChannelInfo(c) => SearchResultView::ChannelInfo(c@),
        }
    }
}

/// What the source reports of one page of search results.
#[derive(Debug, PartialEq, Eq)]
pub struct Search {
    pub results: Field<Vec<RawItem>>,
    pub next_page_url: Field<Option<String>>,
}

impl Search {
    /// The results of this page, each in the variant of its kind, in source order.
    pub fn result(&self) -> (r: Result<Vec<SearchResult>, QueryError>)
        ensures
            match self.results {
                Ok(v) => batch_of(item_outcomes(v@), batch_view(r)),
                Err(e) => r == Err::<Vec<SearchResult>, QueryError>(failure(e)),
            },
    {
        match &self.results {
            Ok(v) => aggregate(v),
            Err(e) => Err(failed(e)),
        }
    }

    /// The continuation token of the next page, unchanged; `None` on the last page.
    pub fn next_page_url(&self) -> (r: Result<Option<String>, QueryError>)
        ensures
            r == page_token(self.next_page_url),
    {
        read_page_token(&self.next_page_url)
    }
}

} // verus!
