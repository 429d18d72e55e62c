//! Thumbnail records and the canonical form of their URLs.

use vstd::prelude::*;
use vstd::string::*;

verus! {

/// A thumbnail as the extraction source reports it: the URL may be
/// abbreviated or protocol-relative, and the sizes may carry any sign.
#[derive(Clone, Debug, PartialEq, Eq)]
pub struct RawThumbnail {
    pub url: String,
    pub width: i64,
    pub height: i64,
}

/// A normalized thumbnail: a fetchable absolute URL and non-negative sizes.
#[derive(Clone, Debug, PartialEq, Eq)]
pub struct Thumbnail {
    pub url: String,
    pub width: i32,
    pub height: i32,
}

pub struct ThumbnailView {
    pub url: Seq<char>,
    pub width: i32,
    pub height: i32,
}

impl View for Thumbnail {
    type V = ThumbnailView;

    open spec fn view(&self) -> ThumbnailView {
        ThumbnailView { url: self.url@, width: self.width, height: self.height }
    }
}

pub open spec fn http_scheme() -> Seq<char> {
    seq!['h', 't', 't', 'p', ':', '/', '/']
}

pub open spec fn https_scheme() -> Seq<char> {
    seq!['h', 't', 't', 'p', 's', ':', '/', '/']
}

pub open spec fn slashes() -> Seq<char> {
    seq!['/', '/']
}

pub open spec fn starts_with(s: Seq<char>, p: Seq<char>) -> bool {
    p.len() <= s.len() && s.subrange(0, p.len() as int) == p
}

/// The canonical form of a thumbnail URL: a leading `//` is dropped, plain
/// `http://` becomes `https://`, and a URL without either scheme gets
/// `https://` in front.
pub open spec fn canonical_url(s: Seq<char>) -> Seq<char> {
    let t = if starts_with(s, slashes()) { s.skip(2) } else { s };
    if starts_with(t, http_scheme()) {
        https_scheme() + t.skip(7)
    } else if starts_with(t, https_scheme()) {
        t
    } else {
        https_scheme() + t
    }
}

/// Source sizes are clamped into the non-negative range of `i32`.
pub open spec fn pixel_count(v: i64) -> i32 {
    if v < 0 {
        0
    } else if v > i32::MAX {
        i32::MAX
    } else {
        v as i32
    }
}

pub open spec fn thumbnail_spec(raw: RawThumbnail) -> ThumbnailView {
    ThumbnailView {
        url: canonical_url(raw.url@),
        width: pixel_count(raw.width),
        height: pixel_count(raw.height),
    }
}

pub open spec fn thumbnails_spec(raws: Seq<RawThumbnail>) -> Seq<ThumbnailView> {
    raws.map_values(|t: RawThumbnail| thumbnail_spec(t))
}

/// Canonicalizing an already canonical URL leaves it as it is.
pub proof fn lemma_canonical_url_idempotent(s: Seq<char>)
    ensures
        canonical_url(canonical_url(s)) == canonical_url(s),
{
    let c = canonical_url(s);
    let t = if starts_with(s, slashes()) { s.skip(2) } else { s };
    assert(starts_with(c, https_scheme())) by {
        if starts_with(t, http_scheme()) {
            assert((https_scheme() + t.skip(7)).subrange(0, 8) =~= https_scheme());
        } else if !starts_with(t, https_scheme()) {
            assert((https_scheme() + t).subrange(0, 8) =~= https_scheme());
        }
    }
    assert(c[0] == 'h' && c[4] == 's');
    assert(!starts_with(c, slashes()));
    assert(!starts_with(c, http_scheme())) by {
        if starts_with(c, http_scheme()) {
            assert(c.subrange(0, 7)[4] == ':');
        }
    }
}

/// Every url of a normalized thumbnail list is already in canonical form.
pub proof fn lemma_thumbnail_urls_canonical(raws: Seq<RawThumbnail>)
    ensures
        forall|i: int|
            0 <= i < raws.len() ==> canonical_url((#[trigger] thumbnails_spec(raws)[i]).url)
                == thumbnails_spec(raws)[i].url,
{
    assert forall|i: int| 0 <= i < raws.len() implies canonical_url((#[trigger] thumbnails_spec(raws)[i]).url)
        == thumbnails_spec(raws)[i].url by {
        lemma_canonical_url_idempotent(raws[i].url@);
    }
}

/// Whether `s` begins with `p`.
fn has_prefix(s: &str, p: &str) -> (r: bool)
    ensures
        r == starts_with(s@, p@),
{
    let n = p.unicode_len();
    if s.unicode_len() < n {
        return false;
    }
    let mut i: usize = 0;
    while i < n
        invariant
            n == p@.len(),
            n <= s@.len(),
            i <= n,
            forall|j: int| 0 <= j < i ==> s@[j] == p@[j],
        decreases n - i,
    {
        if s.get_char(i) != p.get_char(i) {
            assert(s@.subrange(0, n as int)[i as int] != p@[i as int]);
            return false;
        }
        i = i + 1;
    }
    assert(s@.subrange(0, n as int) =~= p@);
    true
}

/// Rewrites a thumbnail URL into its canonical, directly fetchable form.
pub fn fix_thumbnail_url(url: &str) -> (r: String)
    ensures
        r@ == canonical_url(url@),
{
    let https = "https://";
    let http = "http://";
    let slash2 = "//";
    proof {
        reveal_strlit("https://");
        reveal_strlit("http://");
        reveal_strlit("//");
        assert(https@ =~= https_scheme());
        assert(http@ =~= http_scheme());
        assert(slash2@ =~= slashes());
    }
    let len = url.unicode_len();
    let t: &str = if has_prefix(url, slash2) {
        url.substring_char(2, len)
    } else {
        url
    };
    let tlen = t.unicode_len();
    assert(t@ == if starts_with(url@, slashes()) { url@.skip(2) } else { url@ });
    if has_prefix(t, http) {
        let rest = t.substring_char(7, tlen);
        assert(rest@ =~= t@.skip(7));
        String::from_str(https).concat(rest)
    } else if has_prefix(t, https) {
        String::from_str(t)
    } else {
        String::from_str(https).concat(t)
    }
}

/// The size that a source reports, in the non-negative range of `i32`.
pub fn pixels(v: i64) -> (r: i32)
    ensures
        r == pixel_count(v),
        r >= 0,
{
    if v < 0 {
        0
    } else if v > i32::MAX as i64 {
        i32::MAX
    } else {
        v as i32
    }
}

/// Normalizes one thumbnail.
pub fn normalize_thumbnail(raw: &RawThumbnail) -> (r: Thumbnail)
    ensures
        r@ == thumbnail_spec(*raw),
{
    Thumbnail {
        url: fix_thumbnail_url(raw.url.as_str()),
        width: pixels(raw.width),
        height: pixels(raw.height),
    }
}

/// Normalizes a thumbnail list, keeping the source order.
pub fn normalize_thumbnails(raws: &Vec<RawThumbnail>) -> (r: Vec<Thumbnail>)
    ensures
        r@.map_values(|t: Thumbnail| t@) == thumbnails_spec(raws@),
{
    let mut out: Vec<Thumbnail> = Vec::new();
    let mut i: usize = 0;
    while i < raws.len()
        invariant
            i <= raws@.len(),
            out@.len() == i,
            forall|j: int| 0 <= j < i ==> (#[trigger] out@[j])@ == thumbnail_spec(raws@[j]),
        decreases raws@.len() - i,
    {
        let t = normalize_thumbnail(&raws[i]);
        out.push(t);
        i = i + 1;
    }
    assert(out@.map_values(|t: Thumbnail| t@) =~= thumbnails_spec(raws@));
    out
}

} // verus!
