//! The calls that leave this library. Their contracts are believed, not
//! proved.
use vstd::prelude::*;

verus! {

/// The most characters that a location and a path segment may hold together
/// for `url` to join them. It keeps every length inside `url` far below the
/// 32-bit positions that it stores.
pub const MAX_URL_INPUT: usize = 0x0100_0000;

/// The text of the URL that `url::Url::parse` reads from `base`, after
/// `push` of `url::PathSegmentsMut` has appended `segment` to its path;
/// `None` where `base` is no URL or is one that cannot take path segments.
pub uninterp spec fn url_with_segment(base: Seq<char>, segment: Seq<char>) -> Option<Seq<char>>;

/// The text that `{:?}` of `std::fmt` writes for a string: the string
/// between double quotes, with the characters that need it escaped.
pub uninterp spec fn debug_rendering(text: Seq<char>) -> Seq<char>;

/// Calls `url::Url::parse` on `base`, then `path_segments_mut` and `push`
/// with `segment`. The contract claims only that the outcome is the one
/// named `url_with_segment` for these two texts: `Some` of the URL's text,
/// or `None` where either of the first two calls fails. The length bound
/// keeps `url` from leaving its 32-bit positions, where it would panic.
#[verifier::external_body]
pub(crate) fn push_path_segment(base: &str, segment: &str) -> (r: Option<String>)
    requires
        base@.len() + segment@.len() <= MAX_URL_INPUT,
    ensures
        r matches Some(u) ==> url_with_segment(base@, segment@) == Some(u@),
        r is None ==> url_with_segment(base@, segment@) is None,
{
    let mut url = url::Url::parse(base).ok()?;
    url.path_segments_mut().ok()?.push(segment);
    Some(String::from(url))
}

/// Formats `text` with `{:?}` through `format!`. The contract claims only
/// that the result is the one named `debug_rendering` for this text.
#[verifier::external_body]
pub(crate) fn debug_text(text: &str) -> (r: String)
    ensures
        r@ == debug_rendering(text@),
{
    format!("{:?}", text)
}

} // verus!
