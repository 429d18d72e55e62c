//! Turning raw source items into results: required fields fail the item,
//! every other field falls back to an absent value.

use vstd::prelude::*;
use crate::record::{
    clone_error, clone_text, failed, failure, flag_or_false, optional_count, optional_text, read_flag, read_optional_count,
    read_optional_text, read_required, required, Field, QueryError, RawChannel, RawItem,
    RawPlaylist, RawVideo,
};
use crate::search::{
    opt_view, thumbnails_view, ChannelResult, ChannelView, PlaylistResult, PlaylistView,
    SearchResult, SearchResultView, VideoResult, VideoView,
};
use crate::thumbnail::{normalize_thumbnails, thumbnails_spec, RawThumbnail, Thumbnail, ThumbnailView};

verus! {

/// The thumbnails of an item: canonicalized in source order, or none where the
/// source could not list them.
pub open spec fn thumbnails_or_none(f: Field<Vec<RawThumbnail>>) -> Seq<ThumbnailView> {
    match f {
        Ok(v) => thumbnails_spec(v@),
        Err(_) => Seq::empty(),
    }
}

/// A thumbnail list that is a field of its own: its failure fails the field.
pub open spec fn thumbnail_list(f: Field<Vec<RawThumbnail>>) -> Result<Seq<ThumbnailView>, QueryError> {
    match f {
        Ok(v) => Ok(thumbnails_spec(v@)),
        Err(e) => Err(failure(e)),
    }
}

/// The description of a channel, absent where the source could not read it.
pub open spec fn optional_description(f: Field<Option<String>>) -> Option<Seq<char>> {
    match f {
        Ok(Some(s)) => Some(s@),
        _ => None,
    }
}

/// What a video item becomes: the first of name, id and url that fails
/// decides the error.
pub open spec fn video_spec(raw: RawVideo) -> Result<VideoView, QueryError> {
    match required(raw.name) {
        Err(e) => Err(e),
        Ok(name) => match required(raw.video_id) {
            Err(e) => Err(e),
            Ok(id) => match required(raw.url) {
                Err(e) => Err(e),
                Ok(url) => Ok(
                    VideoView {
                        name: name@,
                        video_id: id@,
                        is_ad: flag_or_false(raw.is_ad),
                        is_premium_video: flag_or_false(raw.is_premium_video),
                        url: url@,
                        is_live: flag_or_false(raw.is_live),
                        duration: optional_count(raw.duration),
                        uploader_name: optional_text(raw.uploader_name),
                        uploader_url: optional_text(raw.uploader_url),
                        upload_date: optional_text(raw.upload_date),
                        view_count: optional_count(raw.view_count),
                        thumbnail: thumbnails_or_none(raw.thumbnails),
                    },
                ),
            },
        },
    }
}

/// What a channel item becomes.
pub open spec fn channel_spec(raw: RawChannel) -> Result<ChannelView, QueryError> {
    match required(raw.name) {
        Err(e) => Err(e),
        Ok(name) => match required(raw.channel_id) {
            Err(e) => Err(e),
            Ok(id) => match required(raw.url) {
                Err(e) => Err(e),
                Ok(url) => Ok(
                    ChannelView {
                        name: name@,
                        channel_id: id@,
                        thumbnail: thumbnails_or_none(raw.thumbnails),
                        url: url@,
                        subscribers: optional_count(raw.subscriber_count),
                        videos: optional_count(raw.stream_count),
                        description: optional_description(raw.description),
                    },
                ),
            },
        },
    }
}

/// What a playlist item becomes.
pub open spec fn playlist_spec(raw: RawPlaylist) -> Result<PlaylistView, QueryError> {
    match required(raw.name) {
        Err(e) => Err(e),
        Ok(name) => match required(raw.playlist_id) {
            Err(e) => Err(e),
            Ok(id) => match required(raw.url) {
                Err(e) => Err(e),
                Ok(url) => Ok(
                    PlaylistView {
                        name: name@,
                        playlist_id: id@,
                        thumbnail: thumbnails_or_none(raw.thumbnails),
                        url: url@,
                        uploader_name: optional_text(raw.uploader_name),
                        videos: optional_count(raw.stream_count),
                    },
                ),
            },
        },
    }
}

/// What a tagged source item becomes: the variant of its tag.
pub open spec fn item_spec(raw: RawItem) -> Result<SearchResultView, QueryError> {
    match raw {
        RawItem::StreamInfoItem(v) => match video_spec(v) {
            Ok(r) => Ok(SearchResultView::VideoInfo(r)),
            Err(e) => Err(e),
        },
        RawItem::ChannelInfoItem(c) => match channel_spec(c) {
            Ok(r) => Ok(SearchResultView::ChannelInfo(r)),
            Err(e) => Err(e),
        },
        RawItem::PlaylistInfoItem(p) => match playlist_spec(p) {
            Ok(r) => Ok(SearchResultView::PlaylistInfo(r)),
            Err(e) => Err(e),
        },
    }
}

pub open spec fn video_outcomes(raws: Seq<RawVideo>) -> Seq<Result<VideoView, QueryError>> {
    raws.map_values(|v: RawVideo| video_spec(v))
}

pub open spec fn item_outcomes(raws: Seq<RawItem>) -> Seq<Result<SearchResultView, QueryError>> {
    raws.map_values(|i: RawItem| item_spec(i))
}

/// The outcome of one item, seen through the views of its result.
pub open spec fn outcome_view<T: View>(r: Result<T, QueryError>) -> Result<T::V, QueryError> {
    match r {
        Ok(t) => Ok(t@),
        Err(e) => Err(e),
    }
}

/// The outcome of a batch, seen through the views of its results.
pub open spec fn batch_view<T: View>(r: Result<Vec<T>, QueryError>) -> Result<Seq<T::V>, QueryError> {
    match r {
        Ok(v) => Ok(v@.map_values(|t: T| t@)),
        Err(e) => Err(e),
    }
}

/// `e` is the error of the first failing outcome.
pub open spec fn first_failure<V>(outcomes: Seq<Result<V, QueryError>>, e: QueryError) -> bool {
    exists|i: int|
        0 <= i < outcomes.len() && (forall|j: int| 0 <= j < i ==> (#[trigger] outcomes[j]) is Ok)
            && outcomes[i] == Err::<V, QueryError>(e)
}

/// A batch is all-or-nothing: every outcome in order, or the first failure.
pub open spec fn batch_of<V>(outcomes: Seq<Result<V, QueryError>>, r: Result<Seq<V>, QueryError>) -> bool {
    match r {
        Ok(vs) => vs.len() == outcomes.len() && forall|j: int|
            0 <= j < vs.len() ==> #[trigger] outcomes[j] == Ok::<V, QueryError>(vs[j]),
        Err(e) => first_failure(outcomes, e),
    }
}

/// The required fields of an item (name, identifier, url) could all be read.
pub open spec fn required_present(raw: RawItem) -> bool {
    match raw {
        RawItem::StreamInfoItem(v) => v.name is Ok && v.video_id is Ok && v.url is Ok,
        RawItem::ChannelInfoItem(c) => c.name is Ok && c.channel_id is Ok && c.url is Ok,
        RawItem::PlaylistInfoItem(p) => p.name is Ok && p.playlist_id is Ok && p.url is Ok,
    }
}

/// `out` is the variant of `raw`'s tag, and carries `raw`'s name, identifier and url.
pub open spec fn routed(raw: RawItem, out: SearchResultView) -> bool {
    match raw {
        RawItem::StreamInfoItem(v) => match (v.name, v.video_id, v.url) {
            (Ok(n), Ok(i), Ok(u)) => out is VideoInfo && out->VideoInfo_0.name == n@
                && out->VideoInfo_0.video_id == i@ && out->VideoInfo_0.url == u@,
            _ => false,
        },
        RawItem::ChannelInfoItem(c) => match (c.name, c.channel_id, c.url) {
            (Ok(n), Ok(i), Ok(u)) => out is ChannelInfo && out->ChannelInfo_0.name == n@
                && out->ChannelInfo_0.channel_id == i@ && out->ChannelInfo_0.url == u@,
            _ => false,
        },
        RawItem::PlaylistInfoItem(p) => match (p.name, p.playlist_id, p.url) {
            (Ok(n), Ok(i), Ok(u)) => out is PlaylistInfo && out->PlaylistInfo_0.name == n@
                && out->PlaylistInfo_0.playlist_id == i@ && out->PlaylistInfo_0.url == u@,
            _ => false,
        },
    }
}

proof fn lemma_item_outcome(raw: RawItem)
    ensures
        item_spec(raw) is Ok <==> required_present(raw),
        item_spec(raw) is Ok ==> routed(raw, item_spec(raw)->Ok_0),
        item_spec(raw) is Err ==> item_spec(raw)->Err_0 is ExtractionFailed,
{
}

/// A batch of tagged items either fails with `ExtractionFailed`, exactly when
/// some item lacks a required field, or gives for each item, in order, the
/// variant of its tag with its name, identifier and url.
pub proof fn lemma_aggregate_routes(raws: Seq<RawItem>, r: Result<Seq<SearchResultView>, QueryError>)
    requires
        batch_of(item_outcomes(raws), r),
    ensures
        r is Ok <==> forall|i: int| 0 <= i < raws.len() ==> required_present(#[trigger] raws[i]),
        r is Ok ==> r->Ok_0.len() == raws.len() && forall|i: int|
            0 <= i < raws.len() ==> routed(#[trigger] raws[i], r->Ok_0[i]),
        r is Err ==> r->Err_0 is ExtractionFailed,
{
    let outcomes = item_outcomes(raws);
    match r {
        Ok(vs) => {
            assert forall|i: int| 0 <= i < raws.len() implies required_present(#[trigger] raws[i])
                && routed(raws[i], vs[i]) by {
                assert(outcomes[i] == Ok::<SearchResultView, QueryError>(vs[i]));
                lemma_item_outcome(raws[i]);
            }
        },
        Err(e) => {
            let i = choose|i: int|
                0 <= i < outcomes.len() && (forall|j: int| 0 <= j < i ==> (#[trigger] outcomes[j]) is Ok)
                    && outcomes[i] == Err::<SearchResultView, QueryError>(e);
            lemma_item_outcome(raws[i]);
        },
    }
}

/// A classification flag that the source cannot determine comes out `false`.
pub proof fn lemma_undetermined_flags_false(raw: RawVideo)
    requires
        video_spec(raw) is Ok,
    ensures
        raw.is_ad is Err ==> !video_spec(raw)->Ok_0.is_ad,
        raw.is_premium_video is Err ==> !video_spec(raw)->Ok_0.is_premium_video,
        raw.is_live is Err ==> !video_spec(raw)->Ok_0.is_live,
{
}

fn thumbnails_of(f: &Field<Vec<RawThumbnail>>) -> (r: Vec<Thumbnail>)
    ensures
        thumbnails_view(r) == thumbnails_or_none(*f),
{
    match f {
        Ok(v) => normalize_thumbnails(v),
        Err(_) => {
            let r: Vec<Thumbnail> = Vec::new();
            assert(thumbnails_view(r) =~= Seq::<ThumbnailView>::empty());
            r
        },
    }
}

fn description_of(f: &Field<Option<String>>) -> (r: Option<String>)
    ensures
        opt_view(r) == optional_description(*f),
{
    match f {
        Ok(d) => clone_text(d),
        Err(_) => None,
    }
}

/// Builds the result of one video item.
pub fn video_result(raw: &RawVideo) -> (r: Result<VideoResult, QueryError>)
    ensures
        outcome_view(r) == video_spec(*raw),
{
    let name = match read_required(&raw.name) {
        Ok(s) => s,
        Err(e) => return Err(e),
    };
    let video_id = match read_required(&raw.video_id) {
        Ok(s) => s,
        Err(e) => return Err(e),
    };
    let url = match read_required(&raw.url) {
        Ok(s) => s,
        Err(e) => return Err(e),
    };
    Ok(
        VideoResult {
            name,
            video_id,
            is_ad: read_flag(&raw.is_ad),
            is_premium_video: read_flag(&raw.is_premium_video),
            url,
            is_live: read_flag(&raw.is_live),
            duration: read_optional_count(&raw.duration),
            uploader_name: read_optional_text(&raw.uploader_name),
            uploader_url: read_optional_text(&raw.uploader_url),
            upload_date: read_optional_text(&raw.upload_date),
            view_count: read_optional_count(&raw.view_count),
            thumbnail: thumbnails_of(&raw.thumbnails),
        },
    )
}

/// Builds the result of one channel item.
pub fn channel_result(raw: &RawChannel) -> (r: Result<ChannelResult, QueryError>)
    ensures
        outcome_view(r) == channel_spec(*raw),
{
    let name = match read_required(&raw.name) {
        Ok(s) => s,
        Err(e) => return Err(e),
    };
    let channel_id = match read_required(&raw.channel_id) {
        Ok(s) => s,
        Err(e) => return Err(e),
    };
    let url = match read_required(&raw.url) {
        Ok(s) => s,
        Err(e) => return Err(e),
    };
    Ok(
        ChannelResult {
            name,
            channel_id,
            thumbnail: thumbnails_of(&raw.thumbnails),
            url,
            subscribers: read_optional_count(&raw.subscriber_count),
            videos: read_optional_count(&raw.stream_count),
            description: description_of(&raw.description),
        },
    )
}

/// Builds the result of one playlist item.
pub fn playlist_result(raw: &RawPlaylist) -> (r: Result<PlaylistResult, QueryError>)
    ensures
        outcome_view(r) == playlist_spec(*raw),
{
    let name = match read_required(&raw.name) {
        Ok(s) => s,
        Err(e) => return Err(e),
    };
    let playlist_id = match read_required(&raw.playlist_id) {
        Ok(s) => s,
        Err(e) => return Err(e),
    };
    let url = match read_required(&raw.url) {
        Ok(s) => s,
        Err(e) => return Err(e),
    };
    Ok(
        PlaylistResult {
            name,
            playlist_id,
            thumbnail: thumbnails_of(&raw.thumbnails),
            url,
            uploader_name: read_optional_text(&raw.uploader_name),
            videos: read_optional_count(&raw.stream_count),
        },
    )
}

/// Builds the result of one tagged item, in the variant of its tag.
pub fn item_result(raw: &RawItem) -> (r: Result<SearchResult, QueryError>)
    ensures
        outcome_view(r) == item_spec(*raw),
{
    match raw {
        RawItem::StreamInfoItem(v) => match video_result(v) {
            Ok(r) => Ok(SearchResult::VideoInfo(r)),
            Err(e) => Err(e),
        },
        RawItem::ChannelInfoItem(c) => match channel_result(c) {
            Ok(r) => Ok(SearchResult::ChannelInfo(r)),
            Err(e) => Err(e),
        },
        RawItem::PlaylistInfoItem(p) => match playlist_result(p) {
            Ok(r) => Ok(SearchResult::PlaylistInfo(r)),
            Err(e) => Err(e),
        },
    }
}

/// Builds the results of a batch of tagged items, in input order; one item
/// whose required fields fail fails the batch.
pub fn aggregate(raws: &Vec<RawItem>) -> (r: Result<Vec<SearchResult>, QueryError>)
    ensures
        batch_of(item_outcomes(raws@), batch_view(r)),
{
    let ghost outcomes = item_outcomes(raws@);
    let mut out: Vec<SearchResult> = Vec::new();
    let mut i: usize = 0;
    while i < raws.len()
        invariant
            i <= raws@.len(),
            outcomes == item_outcomes(raws@),
            out@.len() == i,
            forall|j: int| 0 <= j < i ==> #[trigger] outcomes[j] == Ok::<SearchResultView, QueryError>(out@[j]@),
        decreases raws@.len() - i,
    {
        match item_result(&raws[i]) {
            Ok(r) => out.push(r),
            Err(e) => {
                assert(forall|j: int| 0 <= j < i ==> (#[trigger] outcomes[j]) is Ok);
                assert(outcomes[i as int] == Err::<SearchResultView, QueryError>(e));
                return Err(e);
            },
        }
        i = i + 1;
    }
    proof {
        let vs = out@.map_values(|t: SearchResult| t@);
        assert forall|j: int| 0 <= j < vs.len() implies #[trigger] outcomes[j] == Ok::<SearchResultView, QueryError>(vs[j]) by {
            assert(outcomes[j] == Ok::<SearchResultView, QueryError>(out@[j]@));
        }
    }
    Ok(out)
}

/// Builds the results of a list of video items, in input order; one item
/// whose required fields fail fails the list.
pub fn video_results(raws: &Vec<RawVideo>) -> (r: Result<Vec<VideoResult>, QueryError>)
    ensures
        batch_of(video_outcomes(raws@), batch_view(r)),
{
    let ghost outcomes = video_outcomes(raws@);
    let mut out: Vec<VideoResult> = Vec::new();
    let mut i: usize = 0;
    while i < raws.len()
        invariant
            i <= raws@.len(),
            outcomes == video_outcomes(raws@),
            out@.len() == i,
            forall|j: int| 0 <= j < i ==> #[trigger] outcomes[j] == Ok::<VideoView, QueryError>(out@[j]@),
        decreases raws@.len() - i,
    {
        match video_result(&raws[i]) {
            Ok(r) => out.push(r),
            Err(e) => {
                assert(forall|j: int| 0 <= j < i ==> (#[trigger] outcomes[j]) is Ok);
                assert(outcomes[i as int] == Err::<VideoView, QueryError>(e));
                return Err(e);
            },
        }
        i = i + 1;
    }
    proof {
        let vs = out@.map_values(|t: VideoResult| t@);
        assert forall|j: int| 0 <= j < vs.len() implies #[trigger] outcomes[j] == Ok::<VideoView, QueryError>(vs[j]) by {
            assert(outcomes[j] == Ok::<VideoView, QueryError>(out@[j]@));
        }
    }
    Ok(out)
}

/// Builds a thumbnail list that is a field of its own.
pub fn thumbnail_field(f: &Field<Vec<RawThumbnail>>) -> (r: Result<Vec<Thumbnail>, QueryError>)
    ensures
        batch_view(r) == thumbnail_list(*f),
{
    match f {
        Ok(v) => Ok(normalize_thumbnails(v)),
        Err(e) => Err(failed(e)),
    }
}

/// Builds the result of a list of video items that is a field of its own.
pub fn video_field(f: &Field<Vec<RawVideo>>) -> (r: Result<Vec<VideoResult>, QueryError>)
    ensures
        match *f {
            Ok(v) => batch_of(video_outcomes(v@), batch_view(r)),
            Err(e) => r == Err::<Vec<VideoResult>, QueryError>(failure(e)),
        },
{
    match f {
        Ok(v) => video_results(v),
        Err(e) => Err(failed(e)),
    }
}

/// Builds the result of a single looked-up item; a failed lookup is handed on.
pub fn aggregate_single(found: &Result<RawItem, QueryError>) -> (r: Result<SearchResult, QueryError>)
    ensures
        outcome_view(r) == match *found {
            Ok(raw) => item_spec(raw),
            Err(e) => Err(e),
        },
{
    match found {
        Ok(raw) => item_result(raw),
        Err(e) => Err(clone_error(e)),
    }
}

} // verus!
