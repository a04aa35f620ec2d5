//! Absolute URLs of the `url` crate, seen through their serialization.
//!
//! A [`url::Url`] stands for the text that it serializes to. For `http` and
//! `https` that text has the form
//! `scheme "://" authority path [ "?" query ] [ "#" fragment ]`, where the path
//! starts with the first `/` behind the `"://"`, the query with the first `?`
//! and the fragment with the first `#`.
use crate::limits::url_counters_hold;
use vstd::prelude::*;

verus! {

/// A parsed URL of the `url` crate.
#[verifier::external_type_specification]
#[verifier::external_body]
pub struct ExUrl(url::Url);

/// The reason why the `url` crate does not take a text for a URL.
#[verifier::external_type_specification]
#[verifier::external_body]
pub struct ExParseError(url::ParseError);

/// The characters that a URL holds: its serialization.
pub uninterp spec fn url_text(url: url::Url) -> Seq<char>;

/// What `url::Url::parse` makes of a text: the serialization of the URL, or
/// nothing where the text is no absolute URL.
pub uninterp spec fn parsed_url(text: Seq<char>) -> Option<Seq<char>>;

/// The serialization of an optional URL.
pub open spec fn opt_url_text(url: Option<url::Url>) -> Option<Seq<char>> {
    match url {
        Some(url) => Some(url_text(url)),
        None => None,
    }
}

/// The index of the first `c` in `s` at or behind `from`, or the length of `s`.
pub open spec fn first_at(s: Seq<char>, c: char, from: int) -> int
    decreases s.len() - from,
{
    if from >= s.len() {
        s.len() as int
    } else if from >= 0 && s[from] == c {
        from
    } else {
        first_at(s, c, from + 1)
    }
}

/// The scheme of a URL: what stands before the first `:`.
pub open spec fn scheme_of(url: Seq<char>) -> Seq<char> {
    url.take(first_at(url, ':', 0))
}

/// Whether the URL is one of the web.
pub open spec fn is_web(url: Seq<char>) -> bool {
    scheme_of(url) == "http"@ || scheme_of(url) == "https"@
}

/// Where the path of a web URL starts.
pub open spec fn path_start(url: Seq<char>) -> int {
    first_at(url, '/', first_at(url, ':', 0) + 3)
}

/// Where the fragment of a web URL starts, or its end.
pub open spec fn fragment_start(url: Seq<char>) -> int {
    first_at(url, '#', 0)
}

/// Whether a web URL has a fragment.
pub open spec fn has_fragment(url: Seq<char>) -> bool {
    fragment_start(url) < url.len()
}

/// Where the path of a web URL ends.
pub open spec fn path_end(url: Seq<char>) -> int {
    if first_at(url, '?', 0) < first_at(url, '#', 0) {
        first_at(url, '?', 0)
    } else {
        first_at(url, '#', 0)
    }
}

/// The part of a web URL before its path: scheme and authority.
pub open spec fn origin_of(url: Seq<char>) -> Seq<char> {
    url.take(path_start(url))
}

/// The path of a web URL.
pub open spec fn path_of(url: Seq<char>) -> Seq<char> {
    url.subrange(path_start(url), path_end(url))
}

/// Whether a character stands for itself in the path of a web URL: visible
/// ASCII that is neither percent-encoded there nor taken for a slash.
pub open spec fn is_path_char(c: char) -> bool {
    &&& '!' <= c <= '~'
    &&& c != '"'
    &&& c != '#'
    &&& c != '<'
    &&& c != '>'
    &&& c != '?'
    &&& c != '`'
    &&& c != '{'
    &&& c != '}'
    &&& c != '\\'
}

/// Whether a path segment stands for this directory or the one above it, each
/// dot plain or percent-encoded.
pub open spec fn is_dot_segment(segment: Seq<char>) -> bool {
    let lowered = crate::text::lower(segment);
    ||| lowered == "."@
    ||| lowered == "%2e"@
    ||| lowered == ".."@
    ||| lowered == ".%2e"@
    ||| lowered == "%2e."@
    ||| lowered == "%2e%2e"@
}

/// Whether `path[start..end]` is one whole segment of the path.
pub open spec fn is_segment(path: Seq<char>, start: int, end: int) -> bool {
    &&& 1 <= start <= end <= path.len()
    &&& path[start - 1] == '/'
    &&& end == path.len() || path[end] == '/'
    &&& forall|i: int| start <= i < end ==> path[i] != '/'
}

/// Whether a text is the path of a web URL as it is serialized: it starts with
/// a slash, each character stands for itself and no segment is a dot segment.
pub open spec fn is_plain_path(path: Seq<char>) -> bool {
    &&& path.len() > 0
    &&& path[0] == '/'
    &&& forall|i: int| 0 <= i < path.len() ==> is_path_char(#[trigger] path[i])
    &&& forall|start: int, end: int| #[trigger]
        is_segment(path, start, end) ==> !is_dot_segment(path.subrange(start, end))
}

/// Whether a text is a query that is serialized as it stands.
pub open spec fn is_plain_query(query: Seq<char>) -> bool {
    forall|i: int|
        0 <= i < query.len() ==> 'a' <= #[trigger] query[i] <= 'z' || query[i] == '='
}

/// The tail that a query puts behind the path.
pub open spec fn query_part(query: Option<Seq<char>>) -> Seq<char> {
    match query {
        Some(query) => seq!['?'] + query,
        None => Seq::empty(),
    }
}

/// The view of an optional query.
pub open spec fn opt_query(query: Option<&str>) -> Option<Seq<char>> {
    match query {
        Some(query) => Some(query@),
        None => None,
    }
}

/// Calls `url::Url::parse`. Its result depends on the text alone. The call panics
/// where one of its counters overflows.
#[verifier::external_body]
pub(crate) fn parse_url(text: &str) -> (url: Result<url::Url, url::ParseError>)
    requires
        url_counters_hold(text@),
    ensures
        match url {
            Ok(url) => parsed_url(text@) == Some(url_text(url)),
            Err(_) => parsed_url(text@) is None,
        },
{
    url::Url::parse(text)
}

/// Calls `url::Url::scheme`: the part of the serialization before its first
/// `:`, a character that no scheme holds.
#[verifier::external_body]
pub(crate) fn url_scheme(url: &url::Url) -> (scheme: &str)
    ensures
        scheme@ == scheme_of(url_text(*url)),
{
    url.scheme()
}

/// Calls `url::Url::path` on a web URL. The path is the part of the
/// serialization between authority and query or fragment; the parser has
/// percent-encoded it, turned backslashes into slashes and resolved its dot
/// segments.
#[verifier::external_body]
pub(crate) fn url_path(url: &url::Url) -> (path: &str)
    requires
        is_web(url_text(*url)),
    ensures
        path@ == path_of(url_text(*url)),
        path@.len() == path_end(url_text(*url)) - path_start(url_text(*url)),
        is_plain_path(path@),
{
    url.path()
}

/// Calls `url::Url::set_path` on a web URL with a path in serialized form,
/// which then replaces the old one as it stands. The call panics where the end of
/// the path or the start of the fragment, before or after it, is no `u32`.
#[verifier::external_body]
pub(crate) fn set_url_path(url: &mut url::Url, path: &str)
    requires
        is_web(url_text(*old(url))),
        is_plain_path(path@),
        path_end(url_text(*old(url))) <= u32::MAX,
        path_start(url_text(*old(url))) + path@.len() <= u32::MAX,
        has_fragment(url_text(*old(url))) ==> fragment_start(url_text(*old(url))) - path_end(
            url_text(*old(url)),
        ) + path_start(url_text(*old(url))) + path@.len() <= u32::MAX,
    ensures
        url_text(*final(url)) == origin_of(url_text(*old(url))) + path@ + url_text(
            *old(url),
        ).skip(path_end(url_text(*old(url)))),
{
    url.set_path(path)
}

/// Calls `url::Url::set_query` on a web URL with a query that is serialized as
/// it stands, or with none. The new query takes the place of the old one
/// between path and fragment. The call panics where the start of the query or
/// that of the fragment, after it, is no `u32`, and where the text of the old
/// fragment does not start at one.
#[verifier::external_body]
pub(crate) fn set_url_query(url: &mut url::Url, query: Option<&str>)
    requires
        is_web(url_text(*old(url))),
        query matches Some(query) ==> is_plain_query(query@),
        query is Some ==> path_end(url_text(*old(url))) <= u32::MAX,
        has_fragment(url_text(*old(url))) ==> fragment_start(url_text(*old(url))) < u32::MAX,
        has_fragment(url_text(*old(url))) ==> path_end(url_text(*old(url))) + query_part(
            opt_query(query),
        ).len() <= u32::MAX,
    ensures
        url_text(*final(url)) == url_text(*old(url)).take(path_end(url_text(*old(url))))
            + query_part(opt_query(query)) + url_text(*old(url)).skip(
            fragment_start(url_text(*old(url))),
        ),
{
    url.set_query(query)
}

/// Calls `url::Url::set_fragment` on a web URL with no fragment, which cuts the
/// old one off.
#[verifier::external_body]
pub(crate) fn clear_url_fragment(url: &mut url::Url)
    requires
        is_web(url_text(*old(url))),
    ensures
        url_text(*final(url)) == url_text(*old(url)).take(fragment_start(url_text(*old(url)))),
{
    url.set_fragment(None)
}

/// Calls `url::Url::as_str`: the serialization.
#[verifier::external_body]
pub(crate) fn url_as_str(url: &url::Url) -> (text: &str)
    ensures
        text@ == url_text(*url),
{
    url.as_str()
}

/// The index of the first `c` in `s`, or the length of `s`.
pub(crate) fn first_place(s: &str, c: char) -> (place: usize)
    ensures
        place == first_at(s@, c, 0),
{
    let len: usize = s.unicode_len();
    let mut place: usize = 0;
    for x in it: s.chars()
        invariant
            len == s@.len(),
            it.seq() == s@,
            place == it.index(),
            first_at(s@, c, 0) == first_at(s@, c, place as int),
    {
        if x == c {
            return place;
        }
        place += 1;
    }
    place
}

/// `first_at` finds the first place where the character stands.
pub(crate) proof fn lemma_first_at(s: Seq<char>, c: char, from: int)
    requires
        0 <= from <= s.len(),
    ensures
        from <= first_at(s, c, from) <= s.len(),
        forall|i: int| from <= i < first_at(s, c, from) ==> s[i] != c,
        first_at(s, c, from) < s.len() ==> s[first_at(s, c, from)] == c,
    decreases s.len() - from,
{
    if from < s.len() && s[from] != c {
        lemma_first_at(s, c, from + 1);
    }
}

/// The first place is the only one with nothing of the kind before it.
pub(crate) proof fn lemma_first_at_is(s: Seq<char>, c: char, from: int, place: int)
    requires
        0 <= from <= place <= s.len(),
        forall|i: int| from <= i < place ==> s[i] != c,
        place < s.len() ==> s[place] == c,
    ensures
        first_at(s, c, from) == place,
    decreases place - from,
{
    if from < place {
        lemma_first_at_is(s, c, from + 1, place);
    }
}

/// Where a web URL with a path has its parts.
pub(crate) proof fn lemma_parts(url: Seq<char>)
    requires
        is_web(url),
        path_start(url) < path_end(url),
    ensures
        0 < first_at(url, ':', 0),
        first_at(url, ':', 0) + 3 <= path_start(url),
        url[first_at(url, ':', 0)] == ':',
        forall|i: int| 0 <= i < first_at(url, ':', 0) ==> url[i] != ':',
        path_end(url) <= fragment_start(url) <= url.len(),
        forall|i: int| 0 <= i < path_end(url) ==> url[i] != '?' && url[i] != '#',
        path_end(url) < url.len() ==> url[path_end(url)] == '?' || url[path_end(url)] == '#',
        forall|i: int| 0 <= i < fragment_start(url) ==> url[i] != '#',
{
    let colon = first_at(url, ':', 0);
    reveal_strlit("http");
    reveal_strlit("https");
    lemma_first_at(url, ':', 0);
    assert(scheme_of(url).len() == colon);
    if colon + 3 <= url.len() {
        lemma_first_at(url, '/', colon + 3);
    }
    lemma_first_at(url, '?', 0);
    lemma_first_at(url, '#', 0);
}

/// A text that starts like a web URL up to the end of its authority has the
/// same scheme.
pub(crate) proof fn lemma_same_scheme(url: Seq<char>, other: Seq<char>)
    requires
        is_web(url),
        path_start(url) < path_end(url),
        other.len() >= path_start(url),
        other.take(path_start(url)) == origin_of(url),
    ensures
        is_web(other),
        first_at(other, ':', 0) == first_at(url, ':', 0),
{
    lemma_parts(url);
    let colon = first_at(url, ':', 0);
    assert forall|i: int| 0 <= i < path_start(url) implies other[i] == url[i] by {
        assert(other[i] == other.take(path_start(url))[i]);
    }
    lemma_first_at_is(other, ':', 0, colon);
    assert(scheme_of(other) =~= scheme_of(url));
}

/// A web URL whose path, query and fragment are set in turn, the fragment to
/// none, is its origin with the new path and query.
pub(crate) proof fn lemma_rebuilt(
    url: Seq<char>,
    path: Seq<char>,
    query: Option<Seq<char>>,
    with_path: Seq<char>,
    with_query: Seq<char>,
)
    requires
        is_web(url),
        path_start(url) < path_end(url),
        is_plain_path(path),
        query matches Some(query) ==> is_plain_query(query),
        with_path == origin_of(url) + path + url.skip(path_end(url)),
        with_query == with_path.take(path_end(with_path)) + query_part(query) + with_path.skip(
            fragment_start(with_path),
        ),
    ensures
        is_web(with_path),
        is_web(with_query),
        with_path.take(path_end(with_path)) == origin_of(url) + path,
        path_end(with_path) == path_start(url) + path.len(),
        has_fragment(with_path) == has_fragment(url),
        fragment_start(with_path) == fragment_start(url) - path_end(url) + path_start(url)
            + path.len(),
        with_query.take(fragment_start(with_query)) == origin_of(url) + path + query_part(query),
{
    lemma_parts(url);
    let origin = origin_of(url);
    let tail = url.skip(path_end(url));
    let end = origin.len() + path.len();
    assert(with_path.take(path_start(url)) =~= origin);
    lemma_same_scheme(url, with_path);
    assert forall|i: int| 0 <= i < end implies with_path[i] != '?' && with_path[i] != '#' by {
        if i < origin.len() {
            assert(with_path[i] == url[i]);
        } else {
            assert(with_path[i] == path[i - origin.len()]);
            assert(is_path_char(path[i - origin.len()]));
        }
    }
    lemma_first_at(with_path, '?', 0);
    lemma_first_at(with_path, '#', 0);
    lemma_first_at(url, '#', 0);
    let mark = fragment_start(url) - path_end(url) + end;
    assert forall|i: int| 0 <= i < mark implies with_path[i] != '#' by {
        if i >= end {
            assert(with_path[i] == url[i - end + path_end(url)]);
        }
    }
    assert(mark < with_path.len() ==> with_path[mark] == url[fragment_start(url)]);
    lemma_first_at_is(with_path, '#', 0, mark);
    assert(end < with_path.len() ==> with_path[end as int] == tail[0] && tail[0] == url[path_end(
        url,
    )]);
    assert(path_end(with_path) == end);
    assert(with_path.take(path_end(with_path)) =~= origin + path);
    let head = origin + path + query_part(query);
    let rest = with_path.skip(fragment_start(with_path));
    assert(with_query =~= head + rest);
    assert(with_query.take(path_start(url)) =~= origin);
    lemma_same_scheme(url, with_query);
    assert forall|i: int| 0 <= i < head.len() implies with_query[i] != '#' by {
        if i < end {
            assert(with_query[i] == with_path[i]);
        } else {
            assert(with_query[i] == query_part(query)[i - end]);
        }
    }
    assert(head.len() < with_query.len() ==> with_query[head.len() as int] == rest[0] && rest[0]
        == with_path[fragment_start(with_path)]);
    lemma_first_at_is(with_query, '#', 0, head.len() as int);
    assert(with_query.take(fragment_start(with_query)) =~= head);
}

} // verus!
