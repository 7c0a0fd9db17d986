//! URLs, kept as text and handed to the `url` crate for every change. This
//! module names what the crate makes of them.
use vstd::prelude::*;
use vstd::string::*;
use vstd::utf8::encode_utf8;
use crate::text::opt_text;

verus! {

/// The longest text, in bytes, that is handed on as a part of a URL.
pub const URL_PART_LIMIT: usize = 0x0400_0000;

/// The most path segments that are appended at once.
pub const SEGMENT_LIMIT: usize = 8;

/// Whether `text` is short enough to be handed on as a part of a URL: its
/// length in bytes, as a string reports it, is within the limit.
pub open spec fn fits(text: Seq<char>) -> bool {
    encode_utf8(text).len() as usize <= URL_PART_LIMIT
}

/// Whether `segments` are few and short enough to be appended to a path.
pub open spec fn segments_fit(segments: Seq<Seq<char>>) -> bool {
    &&& segments.len() <= SEGMENT_LIMIT
    &&& forall|i: int| 0 <= i < segments.len() ==> fits(#[trigger] segments[i])
}

/// What `reference` resolves to against the base URL `base`; `None` where
/// `base` is no URL or the reference cannot be resolved against it.
pub uninterp spec fn url_joined(base: Seq<char>, reference: Seq<char>) -> Option<Seq<char>>;

/// The URL `url` with `query` as its query; `None` where `url` is no URL.
pub uninterp spec fn url_with_query(url: Seq<char>, query: Seq<char>) -> Option<Seq<char>>;

/// The URL `url` with `fragment` as its fragment; `None` where `url` is no
/// URL.
pub uninterp spec fn url_with_fragment(url: Seq<char>, fragment: Seq<char>) -> Option<Seq<char>>;

/// The URL `url` with `segments` appended to its path; `None` where `url` is
/// no URL or cannot have path segments.
pub uninterp spec fn url_with_segments(url: Seq<char>, segments: Seq<Seq<char>>) -> Option<
    Seq<char>,
>;

/// The segments as texts.
pub open spec fn segments_view(segments: Seq<String>) -> Seq<Seq<char>> {
    Seq::new(segments.len(), |i: int| segments[i]@)
}

/// The URL `url` with `query` as its query; `None` where `url` is no URL or
/// one of the two is too long.
pub open spec fn with_query(url: Seq<char>, query: Seq<char>) -> Option<Seq<char>> {
    if fits(url) && fits(query) {
        url_with_query(url, query)
    } else {
        None
    }
}

/// The URL `url` with `fragment` as its fragment; `None` where `url` is no
/// URL or is too long.
pub open spec fn with_fragment(url: Seq<char>, fragment: Seq<char>) -> Option<Seq<char>> {
    if fits(url) {
        url_with_fragment(url, fragment)
    } else {
        None
    }
}

/// The URL `url` with `segments` appended to its path; `None` where `url` is
/// no URL, cannot have path segments, or the parts are too many or too
/// long.
pub open spec fn with_segments(url: Seq<char>, segments: Seq<Seq<char>>) -> Option<Seq<char>> {
    if fits(url) && segments_fit(segments) {
        url_with_segments(url, segments)
    } else {
        None
    }
}

/// Resolves `reference` against `base` with `Url::join`. Trusted: the
/// result is named, not described.
#[verifier::external_body]
pub(crate) fn join(base: &str, reference: &str) -> (joined: Option<String>)
    ensures
        opt_text(joined) == url_joined(base@, reference@),
{
    let base = url::Url::parse(base).ok()?;
    base.join(reference).ok().map(String::from)
}

/// Replaces the query of `url` with `Url::set_query`. Trusted: the result
/// is named, not described. The crate counts the bytes of a URL in 32 bits
/// and gives up beyond that, so long arguments are left out.
#[verifier::external_body]
fn set_query(url: &str, query: &str) -> (changed: Option<String>)
    requires
        fits(url@),
        fits(query@),
    ensures
        opt_text(changed) == url_with_query(url@, query@),
{
    let mut url = url::Url::parse(url).ok()?;
    url.set_query(Some(query));
    Some(String::from(url))
}

/// Replaces the fragment of `url` with `Url::set_fragment`. Trusted: the
/// result is named, not described. The crate counts the bytes of a URL in
/// 32 bits and gives up beyond that, so a long URL is left out.
#[verifier::external_body]
fn set_fragment(url: &str, fragment: &str) -> (changed: Option<String>)
    requires
        fits(url@),
    ensures
        opt_text(changed) == url_with_fragment(url@, fragment@),
{
    let mut url = url::Url::parse(url).ok()?;
    url.set_fragment(Some(fragment));
    Some(String::from(url))
}

/// Appends `segments` to the path of `url` with `PathSegmentsMut::extend`.
/// Trusted: the result is named, not described. The crate counts the bytes
/// of a URL in 32 bits and gives up beyond that, so long arguments are left
/// out.
#[verifier::external_body]
fn extend_path(url: &str, segments: &Vec<String>) -> (changed: Option<String>)
    requires
        fits(url@),
        segments_fit(segments_view(segments@)),
    ensures
        opt_text(changed) == url_with_segments(url@, segments_view(segments@)),
{
    let mut url = url::Url::parse(url).ok()?;
    url.path_segments_mut().ok()?.extend(segments);
    Some(String::from(url))
}

fn text_fits(text: &str) -> (short: bool)
    ensures
        short == fits(text@),
{
    text.len() <= URL_PART_LIMIT
}

/// The URL `url` with `query` as its query.
pub(crate) fn replace_query(url: &str, query: &str) -> (changed: Option<String>)
    ensures
        opt_text(changed) == with_query(url@, query@),
{
    if text_fits(url) && text_fits(query) {
        set_query(url, query)
    } else {
        None
    }
}

/// The URL `url` with `fragment` as its fragment.
pub(crate) fn replace_fragment(url: &str, fragment: &str) -> (changed: Option<String>)
    ensures
        opt_text(changed) == with_fragment(url@, fragment@),
{
    if text_fits(url) {
        set_fragment(url, fragment)
    } else {
        None
    }
}

/// The URL `url` with `segments` appended to its path.
pub(crate) fn append_segments(url: &str, segments: &Vec<String>) -> (changed: Option<String>)
    ensures
        opt_text(changed) == with_segments(url@, segments_view(segments@)),
{
    if !text_fits(url) || segments.len() > SEGMENT_LIMIT {
        return None;
    }
    let mut i: usize = 0;
    while i < segments.len()
        invariant
            i <= segments.len(),
            forall|j: int| 0 <= j < i ==> fits(#[trigger] segments_view(segments@)[j]),
        decreases segments.len() - i,
    {
        if !text_fits(segments[i].as_str()) {
            assert(!fits(segments_view(segments@)[i as int]));
            return None;
        }
        i += 1;
    }
    extend_path(url, segments)
}

} // verus!
