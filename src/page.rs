//! The file information page: an HTML page that redirects to the raw file
//! and carries link-preview metadata chosen by the file's MIME type.
use vstd::prelude::*;

use crate::size::{human_readable_size, size_text};

verus! {

/// The MIME type `mime_guess` infers from the extension of `name`, with
/// `application/octet-stream` where it knows none.
pub uninterp spec fn mime_of(name: Seq<char>) -> Seq<char>;

/// The UTC date and time of a Unix timestamp as `YYYY-MM-DD HH:MM:SS`, or
/// `None` outside the range of dates chrono represents.
pub uninterp spec fn utc_text_of(secs: i64) -> Option<Seq<char>>;

/// Relies on mime_guess::from_path(..).first_or_octet_stream(), rendered
/// with `to_string`: the guess depends on the name's extension alone.
#[verifier::external_body]
fn guess_mime(name: &str) -> (r: String)
    ensures
        r@ == mime_of(name@),
{
    mime_guess::from_path(name).first_or_octet_stream().to_string()
}

/// Relies on chrono::DateTime::from_timestamp (None for out-of-range
/// seconds) and DateTime::format with `%Y-%m-%d %H:%M:%S`.
#[verifier::external_body]
fn utc_text(secs: i64) -> (r: Option<String>)
    ensures
        match r {
            Some(t) => utc_text_of(secs) == Some(t@),
            None => utc_text_of(secs) is None,
        },
{
    match chrono::DateTime::from_timestamp(secs, 0) {
        Some(d) => Some(d.format("%Y-%m-%d %H:%M:%S").to_string()),
        None => None,
    }
}

pub const IMAGE_PREFIX: &'static str = "image/";

pub const VIDEO_PREFIX: &'static str = "video/";

pub const UNKNOWN_TIME: &'static str = "Unknown";

pub const FILE_ROUTE: &'static str = "/file/";

pub const IMAGE_TAGS_1: &'static str = "<meta property=\"og:image\" content=\"";

pub const IMAGE_TAGS_2: &'static str = "\" />\n<meta name=\"twitter:card\" content=\"summary_large_image\">\n<meta name=\"twitter:image:src\" content=\"";

pub const IMAGE_TAGS_3: &'static str = "\">\n";

pub const VIDEO_TAGS_1: &'static str = "<meta property=\"twitter:player:height\" content=\"626\"/>\n<meta property=\"twitter:player:width\" content=\"996\"/>\n<meta property=\"twitter:player:stream\" content=\"";

pub const VIDEO_TAGS_2: &'static str = "\"/>\n<meta property=\"twitter:player:stream:content_type\" content=\"";

pub const VIDEO_TAGS_3: &'static str = "\"/>\n<meta property=\"og:video\" content=\"";

pub const VIDEO_TAGS_4: &'static str = "\"/>\n<meta property=\"og:video:secure_url\" content=\"";

pub const VIDEO_TAGS_5: &'static str = "\"/>\n<meta property=\"og:video:height\" content=\"626\"/>\n<meta property=\"og:video:width\" content=\"996\"/>\n<meta property=\"og:video:type\" content=\"";

pub const VIDEO_TAGS_6: &'static str = "\"/>\n<meta property=\"twitter:image\" content=\"0\"/>\n<meta property=\"twitter:card\" content=\"player\"/>\n";

pub const PAGE_1: &'static str = "<!DOCTYPE html>\n<html>\n<head>\n<title>";

pub const PAGE_2: &'static str = "</title>\n<meta http-equiv=\"refresh\" content=\"0; url=";

pub const PAGE_3: &'static str = "\" />\n<meta property=\"og:title\" content=\"";

pub const PAGE_4: &'static str = "\" />\n<meta property=\"og:description\" content=\"Size: ";

pub const PAGE_5: &'static str = " \u{b7} Last modified: ";

pub const PAGE_6: &'static str = "\" />\n<meta property=\"og:url\" content=\"";

pub const PAGE_7: &'static str = "\" />\n";

pub const PAGE_8: &'static str = "</head>\n<body>\n<h1>File: ";

pub const PAGE_9: &'static str = "</h1>\n<p><strong>Size:</strong> ";

pub const PAGE_10: &'static str = "</p>\n<p><strong>Last Modified:</strong> ";

pub const PAGE_11: &'static str = "</p>\n<p><a href=\"";

pub const PAGE_12: &'static str = "\" download>Download File</a></p>\n</body>\n</html>\n";

/// `p` is a prefix of `s`.
pub open spec fn starts_with(s: Seq<char>, p: Seq<char>) -> bool {
    p.len() <= s.len() && s.subrange(0, p.len() as int) == p
}

/// The raw-file URL of a stored file.
pub open spec fn file_url_of(public_url: Seq<char>, name: Seq<char>) -> Seq<char> {
    public_url + FILE_ROUTE@ + name
}

/// Large-image card tags for an image at `url`.
pub open spec fn image_tags(url: Seq<char>) -> Seq<char> {
    IMAGE_TAGS_1@ + url + IMAGE_TAGS_2@ + url + IMAGE_TAGS_3@
}

/// Player card tags for a video of type `mime` at `url`.
pub open spec fn video_tags(url: Seq<char>, mime: Seq<char>) -> Seq<char> {
    VIDEO_TAGS_1@ + url + VIDEO_TAGS_2@ + mime + VIDEO_TAGS_3@ + url + VIDEO_TAGS_4@ + url
        + VIDEO_TAGS_5@ + mime + VIDEO_TAGS_6@
}

/// The preview tags for a file of type `mime` at `url`: image tags for
/// `image/` types, player tags for `video/` types, none otherwise.
pub open spec fn preview_tags_of(mime: Seq<char>, url: Seq<char>) -> Seq<char> {
    if starts_with(mime, IMAGE_PREFIX@) {
        image_tags(url)
    } else if starts_with(mime, VIDEO_PREFIX@) {
        video_tags(url, mime)
    } else {
        Seq::empty()
    }
}

/// The modification time as shown: the UTC text of the timestamp, or
/// `Unknown` where there is none or chrono cannot represent it.
pub open spec fn modified_text_of(secs: Option<i64>) -> Seq<char> {
    match secs {
        Some(s) => match utc_text_of(s) {
            Some(t) => t,
            None => UNKNOWN_TIME@,
        },
        None => UNKNOWN_TIME@,
    }
}

/// The information page of the file `name` whose raw bytes are at `url`.
pub open spec fn info_page_of(
    name: Seq<char>,
    url: Seq<char>,
    mime: Seq<char>,
    size: Seq<char>,
    modified: Seq<char>,
) -> Seq<char> {
    PAGE_1@ + name + PAGE_2@ + url + PAGE_3@ + name + PAGE_4@ + size + PAGE_5@ + modified + PAGE_6@
        + url + PAGE_7@ + preview_tags_of(mime, url) + PAGE_8@ + name + PAGE_9@ + size + PAGE_10@
        + modified + PAGE_11@ + url + PAGE_12@
}

/// Whether `s` begins with `p`.
pub fn has_prefix(s: &str, p: &str) -> (r: bool)
    ensures
        r == starts_with(s@, p@),
{
    let n = s.unicode_len();
    let m = p.unicode_len();
    if m > n {
        return false;
    }
    let mut i: usize = 0;
    while i < m
        invariant
            m <= n,
            n == s@.len(),
            m == p@.len(),
            i <= m,
            forall|k: int| 0 <= k < i ==> s@[k] == p@[k],
        decreases m - i,
    {
        if s.get_char(i) != p.get_char(i) {
            assert(s@.subrange(0, m as int)[i as int] != p@[i as int]);
            return false;
        }
        i = i + 1;
    }
    assert(s@.subrange(0, m as int) =~= p@);
    true
}

/// The raw-file URL of the stored file `name`.
pub fn file_url(public_url: &str, name: &str) -> (r: String)
    ensures
        r@ == file_url_of(public_url@, name@),
{
    let mut r = public_url.to_owned();
    r.append(FILE_ROUTE);
    r.append(name);
    r
}

/// The link-preview tags for a file of type `mime` served at `url`.
pub fn preview_tags(mime: &str, url: &str) -> (r: String)
    ensures
        r@ == preview_tags_of(mime@, url@),
{
    let mut r = String::new();
    if has_prefix(mime, IMAGE_PREFIX) {
        r.append(IMAGE_TAGS_1);
        r.append(url);
        r.append(IMAGE_TAGS_2);
        r.append(url);
        r.append(IMAGE_TAGS_3);
    } else if has_prefix(mime, VIDEO_PREFIX) {
        r.append(VIDEO_TAGS_1);
        r.append(url);
        r.append(VIDEO_TAGS_2);
        r.append(mime);
        r.append(VIDEO_TAGS_3);
        r.append(url);
        r.append(VIDEO_TAGS_4);
        r.append(url);
        r.append(VIDEO_TAGS_5);
        r.append(mime);
        r.append(VIDEO_TAGS_6);
    }
    assert(r@ =~= preview_tags_of(mime@, url@));
    r
}

/// The modification time of a file as shown on its page, from its Unix
/// timestamp in whole seconds where the file system gave one.
pub fn modified_text(secs: Option<i64>) -> (r: String)
    ensures
        r@ == modified_text_of(secs),
{
    match secs {
        Some(s) => match utc_text(s) {
            Some(t) => t,
            None => UNKNOWN_TIME.to_owned(),
        },
        None => UNKNOWN_TIME.to_owned(),
    }
}

/// Lays out the information page from its parts: the stored name, the raw
/// file URL, the MIME type, and the size and time texts.
pub fn info_page(name: &str, url: &str, mime: &str, size: &str, modified: &str) -> (r: String)
    ensures
        r@ == info_page_of(name@, url@, mime@, size@, modified@),
{
    let tags = preview_tags(mime, url);
    let mut r = PAGE_1.to_owned();
    r.append(name);
    r.append(PAGE_2);
    r.append(url);
    r.append(PAGE_3);
    r.append(name);
    r.append(PAGE_4);
    r.append(size);
    r.append(PAGE_5);
    r.append(modified);
    r.append(PAGE_6);
    r.append(url);
    r.append(PAGE_7);
    r.append(tags.as_str());
    r.append(PAGE_8);
    r.append(name);
    r.append(PAGE_9);
    r.append(size);
    r.append(PAGE_10);
    r.append(modified);
    r.append(PAGE_11);
    r.append(url);
    r.append(PAGE_12);
    assert(r@ =~= info_page_of(name@, url@, mime@, size@, modified@));
    r
}

/// The information page of the stored file `name`, of `size` bytes, last
/// modified at the Unix time `modified` where known; its MIME type is
/// inferred from the name's extension.
pub fn file_info_page(public_url: &str, name: &str, size: u64, modified: Option<i64>) -> (r: String)
    ensures
        r@ == info_page_of(
            name@,
            file_url_of(public_url@, name@),
            mime_of(name@),
            size_text(size as nat),
            modified_text_of(modified),
        ),
{
    let url = file_url(public_url, name);
    let mime = guess_mime(name);
    let size_shown = human_readable_size(size);
    let time_shown = modified_text(modified);
    info_page(name, url.as_str(), mime.as_str(), size_shown.as_str(), time_shown.as_str())
}

} // verus!
