use rusty_pipe_server::thumbnail::{fix_thumbnail_url, normalize_thumbnails, pixels, RawThumbnail};

#[test]
fn protocol_relative_url_gets_https() {
    assert_eq!(fix_thumbnail_url("//i.ytimg.com/vi/abc/hq.jpg"), "https://i.ytimg.com/vi/abc/hq.jpg");
}

#[test]
fn plain_http_becomes_https() {
    assert_eq!(fix_thumbnail_url("http://yt3.ggpht.com/a=s88"), "https://yt3.ggpht.com/a=s88");
}

#[test]
fn https_url_is_kept() {
    assert_eq!(fix_thumbnail_url("https://i.ytimg.com/x.jpg"), "https://i.ytimg.com/x.jpg");
}

#[test]
fn url_without_scheme_gets_https() {
    assert_eq!(fix_thumbnail_url("yt3.ggpht.com/avatar"), "https://yt3.ggpht.com/avatar");
}

#[test]
fn protocol_relative_http_url() {
    assert_eq!(fix_thumbnail_url("//http://host/p"), "https://host/p");
}

#[test]
fn empty_and_bare_slashes() {
    assert_eq!(fix_thumbnail_url(""), "https://");
    assert_eq!(fix_thumbnail_url("//"), "https://");
}

#[test]
fn non_ascii_url() {
    assert_eq!(fix_thumbnail_url("//bücher.example/ü.png"), "https://bücher.example/ü.png");
}

#[test]
fn canonicalization_is_idempotent() {
    for raw in ["//a/b", "http://a/b", "https://a/b", "a/b", "", "//", "http:/x", "HTTP://A"] {
        let once = fix_thumbnail_url(raw);
        let twice = fix_thumbnail_url(&once);
        assert_eq!(once, twice, "input {raw}");
    }
}

#[test]
fn pixel_counts_are_clamped() {
    assert_eq!(pixels(120), 120);
    assert_eq!(pixels(0), 0);
    assert_eq!(pixels(-1), 0);
    assert_eq!(pixels(i64::MIN), 0);
    assert_eq!(pixels(3_000_000_000), i32::MAX);
    assert_eq!(pixels(i32::MAX as i64), i32::MAX);
}

#[test]
fn thumbnail_list_keeps_order() {
    let raws = vec![
        RawThumbnail { url: "//a/1.jpg".to_string(), width: 336, height: 188 },
        RawThumbnail { url: "http://a/2.jpg".to_string(), width: -168, height: 94 },
        RawThumbnail { url: "https://a/3.jpg".to_string(), width: 88, height: 88 },
    ];
    let out = normalize_thumbnails(&raws);
    assert_eq!(out.len(), 3);
    assert_eq!(out[0].url, "https://a/1.jpg");
    assert_eq!((out[0].width, out[0].height), (336, 188));
    assert_eq!(out[1].url, "https://a/2.jpg");
    assert_eq!((out[1].width, out[1].height), (0, 94));
    assert_eq!(out[2].url, "https://a/3.jpg");
}
