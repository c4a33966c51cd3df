use vstd::prelude::*;

verus! {

/// The URL text that results from parsing `base`, appending `segment` as one
/// more path segment and setting the query to `query`; `None` when `base` is
/// not a URL that can take path segments.
pub uninterp spec fn composed_url(base: Seq<char>, segment: Seq<char>, query: Seq<char>) -> Option<
    Seq<char>,
>;

/// The last path segment and the query read back from the URL text `url`;
/// `None` when `url` is not a URL.
pub uninterp spec fn url_parts(url: Seq<char>) -> Option<(Option<Seq<char>>, Option<Seq<char>>)>;

/// A character that URLs carry in a path segment or a query as it is, with no
/// percent-encoding and no special meaning.
pub open spec fn is_plain_url_char(c: char) -> bool {
    ('a' <= c && c <= 'z') || ('A' <= c && c <= 'Z') || ('0' <= c && c <= '9') || c == '-' || c
        == '_' || c == '='
}

/// Text made of plain URL characters only.
pub open spec fn is_plain_url_text(s: Seq<char>) -> bool {
    forall|i: int| 0 <= i < s.len() ==> is_plain_url_char(#[trigger] s[i])
}

/// The view of an optional string.
pub open spec fn opt_view(o: Option<String>) -> Option<Seq<char>> {
    match o {
        Some(s) => Some(s@),
        None => None,
    }
}

/// Relies on `url::Url::parse`, `Url::path_segments_mut` with
/// `PathSegmentsMut::push`, `Url::set_query` and `From<Url> for String`: the
/// base is parsed, the segment appended to its path, its query replaced, and
/// the URL written out. A base that cannot take path segments is reported as
/// `ParseError::RelativeUrlWithCannotBeABaseBase`. Plain text is not encoded,
/// and the URL crate keeps a written-out URL the same when it is read again,
/// so such a segment and query are read back unchanged.
#[verifier::external_body]
pub(crate) fn compose_url(base: &str, segment: &str, query: &str) -> (r: Result<
    String,
    url::ParseError,
>)
    requires
        base@.len() + segment@.len() + query@.len() < 0x100_0000,
    ensures
        r is Ok <==> composed_url(base@, segment@, query@) is Some,
        r matches Ok(u) ==> composed_url(base@, segment@, query@) == Some(u@),
        r matches Ok(u) ==> (is_plain_url_text(segment@) && is_plain_url_text(query@)
            ==> url_parts(u@) == Some((Some(segment@), Some(query@)))),
{
    let mut u = url::Url::parse(base)?;
    match u.path_segments_mut() {
        Ok(mut segments) => {
            segments.push(segment);
        },
        Err(()) => return Err(url::ParseError::RelativeUrlWithCannotBeABaseBase),
    }
    u.set_query(Some(query));
    Ok(u.into())
}

/// Relies on `url::Url::parse`, `Url::path_segments` and `Url::query`: the
/// last segment of the path and the query of the URL that `url` spells.
#[verifier::external_body]
pub(crate) fn read_url_parts(url: &str) -> (r: Option<(Option<String>, Option<String>)>)
    ensures
        match r {
            Some((segment, query)) => url_parts(url@) == Some((opt_view(segment), opt_view(query))),
            None => url_parts(url@) is None,
        },
{
    let u = url::Url::parse(url).ok()?;
    let segment = u.path_segments().and_then(Iterator::last).map(String::from);
    let query = u.query().map(String::from);
    Some((segment, query))
}

} // verus!
