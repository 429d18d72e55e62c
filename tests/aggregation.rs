use rusty_pipe_server::aggregate::{aggregate, aggregate_single, video_result};
use rusty_pipe_server::record::{ExtractError, QueryError, RawChannel, RawItem, RawPlaylist, RawVideo};
use rusty_pipe_server::search::SearchResult;
use rusty_pipe_server::thumbnail::RawThumbnail;

fn fail<T>(cause: &str) -> Result<T, ExtractError> {
    Err(ExtractError { cause: cause.to_string() })
}

fn text(s: &str) -> Result<String, ExtractError> {
    Ok(s.to_string())
}

fn raw_video(id: &str) -> RawVideo {
    RawVideo {
        name: text("A video"),
        video_id: text(id),
        url: Ok(format!("https://www.youtube.com/watch?v={id}")),
        is_ad: Ok(false),
        is_premium_video: Ok(true),
        is_live: Ok(false),
        duration: Ok(213),
        uploader_name: text("Uploader"),
        uploader_url: text("https://www.youtube.com/channel/UC1"),
        upload_date: text("3 years ago"),
        view_count: Ok(1000),
        thumbnails: Ok(vec![RawThumbnail { url: "//i.ytimg.com/vi/x/hq.jpg".to_string(), width: 480, height: 360 }]),
    }
}

fn raw_channel() -> RawChannel {
    RawChannel {
        name: text("A channel"),
        channel_id: text("UC123"),
        url: text("https://www.youtube.com/channel/UC123"),
        thumbnails: Ok(vec![RawThumbnail { url: "//yt3.ggpht.com/c".to_string(), width: 88, height: 88 }]),
        subscriber_count: Ok(5000),
        stream_count: Ok(42),
        description: Ok(Some("About".to_string())),
    }
}

fn raw_playlist() -> RawPlaylist {
    RawPlaylist {
        name: text("A playlist"),
        playlist_id: text("PL9"),
        url: text("https://www.youtube.com/playlist?list=PL9"),
        thumbnails: Ok(vec![]),
        uploader_name: text("Curator"),
        stream_count: Ok(7),
    }
}

#[test]
fn items_are_routed_to_their_variant_in_order() {
    let items = vec![
        RawItem::StreamInfoItem(raw_video("v1")),
        RawItem::ChannelInfoItem(raw_channel()),
        RawItem::PlaylistInfoItem(raw_playlist()),
    ];
    let out = aggregate(&items).unwrap();
    assert_eq!(out.len(), 3);
    match &out[0] {
        SearchResult::VideoInfo(v) => {
            assert_eq!(v.name, "A video");
            assert_eq!(v.video_id, "v1");
            assert_eq!(v.url, "https://www.youtube.com/watch?v=v1");
            assert!(v.is_premium_video);
            assert_eq!(v.duration, Some(213));
            assert_eq!(v.view_count, Some(1000));
            assert_eq!(v.upload_date.as_deref(), Some("3 years ago"));
            assert_eq!(v.thumbnail[0].url, "https://i.ytimg.com/vi/x/hq.jpg");
            assert_eq!((v.thumbnail[0].width, v.thumbnail[0].height), (480, 360));
        }
        other => panic!("expected a video, got {other:?}"),
    }
    match &out[1] {
        SearchResult::ChannelInfo(c) => {
            assert_eq!(c.name, "A channel");
            assert_eq!(c.channel_id, "UC123");
            assert_eq!(c.url, "https://www.youtube.com/channel/UC123");
            assert_eq!(c.subscribers, Some(5000));
            assert_eq!(c.videos, Some(42));
            assert_eq!(c.description.as_deref(), Some("About"));
            assert_eq!(c.thumbnail[0].url, "https://yt3.ggpht.com/c");
        }
        other => panic!("expected a channel, got {other:?}"),
    }
    match &out[2] {
        SearchResult::PlaylistInfo(p) => {
            assert_eq!(p.name, "A playlist");
            assert_eq!(p.playlist_id, "PL9");
            assert_eq!(p.url, "https://www.youtube.com/playlist?list=PL9");
            assert_eq!(p.uploader_name.as_deref(), Some("Curator"));
            assert_eq!(p.videos, Some(7));
            assert!(p.thumbnail.is_empty());
        }
        other => panic!("expected a playlist, got {other:?}"),
    }
}

#[test]
fn empty_batch_is_empty() {
    assert_eq!(aggregate(&vec![]).unwrap().len(), 0);
}

#[test]
fn missing_required_field_fails_the_batch() {
    let mut broken = raw_channel();
    broken.url = fail("no url");
    let items = vec![RawItem::StreamInfoItem(raw_video("v1")), RawItem::ChannelInfoItem(broken)];
    assert_eq!(aggregate(&items).unwrap_err(), QueryError::ExtractionFailed { cause: "no url".to_string() });
}

#[test]
fn first_failing_item_decides_the_error() {
    let mut first = raw_video("v1");
    first.video_id = fail("no id");
    let mut second = raw_playlist();
    second.name = fail("no name");
    let items = vec![
        RawItem::ChannelInfoItem(raw_channel()),
        RawItem::StreamInfoItem(first),
        RawItem::PlaylistInfoItem(second),
    ];
    assert_eq!(aggregate(&items).unwrap_err(), QueryError::ExtractionFailed { cause: "no id".to_string() });
}

#[test]
fn name_is_checked_before_id_and_url() {
    let mut v = raw_video("v1");
    v.url = fail("url");
    v.video_id = fail("id");
    v.name = fail("name");
    assert_eq!(video_result(&v).unwrap_err(), QueryError::ExtractionFailed { cause: "name".to_string() });
    v.name = text("n");
    assert_eq!(video_result(&v).unwrap_err(), QueryError::ExtractionFailed { cause: "id".to_string() });
    v.video_id = text("i");
    assert_eq!(video_result(&v).unwrap_err(), QueryError::ExtractionFailed { cause: "url".to_string() });
}

#[test]
fn undetermined_flags_are_false() {
    let mut v = raw_video("v1");
    v.is_ad = fail("?");
    v.is_premium_video = fail("?");
    v.is_live = fail("?");
    let r = video_result(&v).unwrap();
    assert!(!r.is_ad);
    assert!(!r.is_premium_video);
    assert!(!r.is_live);
}

#[test]
fn determined_flags_are_kept() {
    let mut v = raw_video("v1");
    v.is_ad = Ok(true);
    v.is_live = Ok(true);
    let r = video_result(&v).unwrap();
    assert!(r.is_ad);
    assert!(r.is_live);
    assert!(r.is_premium_video);
}

#[test]
fn failed_optional_fields_become_absent() {
    let mut v = raw_video("v1");
    v.duration = fail("?");
    v.uploader_name = fail("?");
    v.uploader_url = fail("?");
    v.upload_date = fail("?");
    v.view_count = fail("?");
    v.thumbnails = fail("?");
    let r = video_result(&v).unwrap();
    assert_eq!(r.duration, None);
    assert_eq!(r.uploader_name, None);
    assert_eq!(r.uploader_url, None);
    assert_eq!(r.upload_date, None);
    assert_eq!(r.view_count, None);
    assert!(r.thumbnail.is_empty());
    assert_eq!(r.name, "A video");
}

#[test]
fn channel_optional_fields_fall_back() {
    let mut c = raw_channel();
    c.description = fail("?");
    c.subscriber_count = fail("?");
    c.stream_count = fail("?");
    let out = aggregate(&vec![RawItem::ChannelInfoItem(c)]).unwrap();
    match &out[0] {
        SearchResult::ChannelInfo(c) => {
            assert_eq!(c.description, None);
            assert_eq!(c.subscribers, None);
            assert_eq!(c.videos, None);
        }
        other => panic!("expected a channel, got {other:?}"),
    }
    let mut c = raw_channel();
    c.description = Ok(None);
    let out = aggregate(&vec![RawItem::ChannelInfoItem(c)]).unwrap();
    match &out[0] {
        SearchResult::ChannelInfo(c) => assert_eq!(c.description, None),
        other => panic!("expected a channel, got {other:?}"),
    }
}

#[test]
fn single_lookup_not_found_is_kept() {
    assert_eq!(aggregate_single(&Err(QueryError::NotFound)).unwrap_err(), QueryError::NotFound);
}

#[test]
fn single_lookup_builds_the_item() {
    let r = aggregate_single(&Ok(RawItem::PlaylistInfoItem(raw_playlist()))).unwrap();
    match r {
        SearchResult::PlaylistInfo(p) => assert_eq!(p.playlist_id, "PL9"),
        other => panic!("expected a playlist, got {other:?}"),
    }
    let mut v = raw_video("v1");
    v.name = fail("gone");
    assert_eq!(
        aggregate_single(&Ok(RawItem::StreamInfoItem(v))).unwrap_err(),
        QueryError::ExtractionFailed { cause: "gone".to_string() }
    );
}
