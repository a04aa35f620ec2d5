//! The requests that ask the Grok CLI proxy for the usage of an account.
use crate::headers::Headers;
use crate::json::{
    is_listing, json_of, listing_of, member_in, member_of, members_in, members_of, object_in,
    object_members, opt_json, opt_json_ref, value_str, Json,
};
use crate::limits::{url_counters_hold, url_text_fits};
use crate::link::{
    clear_url_fragment, first_at, first_place, fragment_start, has_fragment, is_dot_segment,
    is_path_char, is_plain_path, is_plain_query, is_segment, is_web, lemma_first_at,
    lemma_first_at_is, lemma_parts, lemma_rebuilt, lemma_same_scheme, opt_query, opt_url_text,
    origin_of, parse_url, parsed_url, path_end, path_of, path_start, query_part, set_url_path,
    set_url_query, url_as_str, url_path, url_scheme, url_text,
};
use crate::text::{
    ascii_lowercase, joined, lemma_precedes_irreflexive, lemma_precedes_transitive, lower, opt_text,
    precedes, same_ignoring_ascii_case, same_text, text_result, trim, trim_end_slashes, trimmed,
    without_end_slashes,
};
use serde_json::Value;
use vstd::prelude::*;
use vstd::string::*;

verus! {

/// The upstream that a provider without a base URL talks to.
pub const GROK_OAUTH_DEFAULT_BASE_URL: &'static str = "https://cli-chat-proxy.grok.com/v1";

/// What the weekly usage adds to the base URL.
pub const GROK_OAUTH_BILLING_WEEKLY_PATH: &'static str = "/billing?format=credits";

/// What the monthly usage adds to the base URL.
pub const GROK_OAUTH_BILLING_MONTHLY_PATH: &'static str = "/billing";

/// The version of the Grok CLI that the requests name.
pub const GROK_OAUTH_CLI_VERSION: &'static str = "0.2.93";

/// The kind of token that the requests name.
pub const GROK_OAUTH_TOKEN_AUTH_VALUE: &'static str = "xai-grok-cli";

/// Said of a base URL that does not parse.
pub const BASE_URL_INVALID: &'static str = "Grok OAuth base_url 无效";

/// Said of a base URL with another scheme than `http` or `https`.
pub const BASE_URL_SCHEME_UNSUPPORTED: &'static str = "Grok OAuth base_url 仅支持 http/https";

/// Said where the name or the value of the authorization header is blank.
pub const AUTHORIZATION_MISSING: &'static str =
    "缺少 Grok OAuth 认证信息，请先授权/刷新 Token";

/// The base URL that a configured one stands for: itself without surrounding
/// white space, or the default where it is blank.
pub open spec fn effective_base_url(base_url: Seq<char>) -> Seq<char> {
    if trimmed(base_url).len() == 0 {
        GROK_OAUTH_DEFAULT_BASE_URL@
    } else {
        trimmed(base_url)
    }
}

/// What a usage window adds to the base URL.
pub open spec fn billing_suffix(weekly: bool) -> Seq<char> {
    if weekly {
        GROK_OAUTH_BILLING_WEEKLY_PATH@
    } else {
        GROK_OAUTH_BILLING_MONTHLY_PATH@
    }
}

/// The billing URL below a parsed base URL: scheme, authority and path of the
/// base without the slashes at its end, and then the suffix of the window.
pub open spec fn billing_url_below(url: Seq<char>, weekly: bool) -> Seq<char> {
    origin_of(url) + without_end_slashes(path_of(url)) + billing_suffix(weekly)
}

/// Whether a URL is the billing URL of a usage window below a web URL, by its
/// parts: scheme and authority are those of the base, the path is that of the
/// base with `/billing` behind it, the query is that of the window and there is no
/// fragment.
pub open spec fn is_billing_url_of(url: Seq<char>, base: Seq<char>, weekly: bool) -> bool {
    &&& is_web(base)
    &&& is_web(url)
    &&& origin_of(url) == origin_of(base)
    &&& path_of(url) == without_end_slashes(path_of(base)) + "/billing"@
    &&& is_plain_path(path_of(url))
    &&& url.skip(path_end(url)) == if weekly {
        "?format=credits"@
    } else {
        Seq::empty()
    }
    &&& url.contains('?') == weekly
    &&& !url.contains('#')
}

/// The billing URL of a usage window for what the configured base URL parses
/// to.
pub open spec fn billing_url_for(parsed: Option<Seq<char>>, weekly: bool) -> Result<
    Seq<char>,
    Seq<char>,
> {
    match parsed {
        None => Err(BASE_URL_INVALID@),
        Some(url) => if is_web(url) {
            Ok(billing_url_below(url, weekly))
        } else {
            Err(BASE_URL_SCHEME_UNSUPPORTED@)
        },
    }
}

/// The billing URL of a usage window for a configured base URL.
pub open spec fn billing_url(base_url: Seq<char>, weekly: bool) -> Result<Seq<char>, Seq<char>> {
    billing_url_for(parsed_url(effective_base_url(base_url)), weekly)
}

/// Whether a URL is the billing URL of a usage window below a configured base
/// URL, by its parts.
pub open spec fn is_billing_url(url: Seq<char>, base_url: Seq<char>, weekly: bool) -> bool {
    parsed_url(effective_base_url(base_url)) matches Some(base) && is_billing_url_of(
        url,
        base,
        weekly,
    )
}

/// Where the path of the billing URLs below a web URL ends.
pub open spec fn billing_path_end(url: Seq<char>) -> int {
    path_start(url) + without_end_slashes(path_of(url)).len() + GROK_OAUTH_BILLING_MONTHLY_PATH@.len()
}

/// Whether the billing URL below a parsed base URL can be made: where that is a
/// web URL, the `url` crate counts in a `u32` where its path ends and where its
/// fragment starts, as long as it has one.
pub open spec fn url_fits(url: Seq<char>, weekly: bool) -> bool {
    is_web(url) ==> {
        &&& path_end(url) <= u32::MAX
        &&& billing_path_end(url) <= u32::MAX
        &&& has_fragment(url) ==> {
            &&& fragment_start(url) - path_end(url) + billing_path_end(url) < u32::MAX
            &&& billing_path_end(url) - GROK_OAUTH_BILLING_MONTHLY_PATH@.len() + billing_suffix(
                weekly,
            ).len() <= u32::MAX
        }
    }
}

/// Whether the billing URL below a configured base URL can be made: the `url`
/// crate can count what it counts when it parses the base URL, and in what it
/// parses to.
pub open spec fn base_url_fits(base_url: Seq<char>, weekly: bool) -> bool {
    &&& url_counters_hold(effective_base_url(base_url))
    &&& parsed_url(effective_base_url(base_url)) matches Some(url) ==> url_fits(url, weekly)
}

/// Where the weekly billing URL can be made, so can the monthly one.
pub(crate) proof fn lemma_weekly_fits(base_url: Seq<char>)
    requires
        base_url_fits(base_url, true),
    ensures
        base_url_fits(base_url, false),
{
    reveal_strlit("/billing");
    reveal_strlit("/billing?format=credits");
}

/// Splits a suffix at its first `?` into path and query.
fn split_suffix(suffix: &str) -> (parts: (&str, Option<&str>))
    ensures
        parts.0@ == suffix@.take(first_at(suffix@, '?', 0)),
        opt_query(parts.1) == if first_at(suffix@, '?', 0) < suffix@.len() {
            Some(suffix@.skip(first_at(suffix@, '?', 0) + 1))
        } else {
            None
        },
{
    let len: usize = suffix.unicode_len();
    let mut at: usize = 0;
    while at < len && suffix.get_char(at) != '?'
        invariant
            at <= len,
            len == suffix@.len(),
            first_at(suffix@, '?', 0) == first_at(suffix@, '?', at as int),
        decreases len - at,
    {
        at += 1;
    }
    proof {
        assert(suffix@.subrange(0, at as int) =~= suffix@.take(at as int));
    }
    if at < len {
        proof {
            assert(suffix@.subrange(at + 1, len as int) =~= suffix@.skip(at + 1));
        }
        (suffix.substring_char(0, at), Some(suffix.substring_char(at + 1, len)))
    } else {
        (suffix.substring_char(0, at), None)
    }
}

/// The path and query that the suffix of a window is made of.
proof fn lemma_suffix(weekly: bool)
    ensures
        ({
            let suffix = billing_suffix(weekly);
            let at = first_at(suffix, '?', 0);
            let query = if at < suffix.len() {
                Some(suffix.skip(at + 1))
            } else {
                None
            };
            &&& suffix.take(at) == "/billing"@
            &&& query matches Some(query) ==> is_plain_query(query)
            &&& "/billing"@ + query_part(query) == suffix
        }),
        billing_suffix(weekly).len() <= billing_suffix(true).len(),
{
    reveal_strlit("/billing");
    reveal_strlit("/billing?format=credits");
    let suffix = billing_suffix(weekly);
    if weekly {
        lemma_first_at_is(suffix, '?', 0, 8);
        assert("/billing"@ + (seq!['?'] + suffix.skip(9)) =~= suffix);
    } else {
        lemma_first_at_is(suffix, '?', 0, 8);
        assert("/billing"@ + Seq::<char>::empty() =~= suffix);
    }
    assert(suffix.take(8) =~= "/billing"@);
}

/// A path in serialized form without the slashes at its end, and then
/// `/billing`, is a path in serialized form.
pub(crate) proof fn lemma_billing_path(path: Seq<char>)
    requires
        is_plain_path(path),
    ensures
        is_plain_path(without_end_slashes(path) + "/billing"@),
        without_end_slashes(path).len() <= path.len(),
{
    lemma_without_end_slashes(path);
    reveal_strlit("/billing");
    let head = without_end_slashes(path);
    let whole = head + "/billing"@;
    let n = head.len() as int;
    assert forall|i: int| 0 <= i < whole.len() implies is_path_char(
        #[trigger] whole[i],
    ) by {
        if i < n {
            assert(whole[i] == path[i]);
        } else {
            assert(whole[i] == "/billing"@[i - n]);
        }
    }
    assert forall|start: int, end: int| #[trigger]
        is_segment(whole, start, end) implies !is_dot_segment(
        whole.subrange(start, end),
    ) by {
        assert(whole[n] == '/');
        if start <= n {
            assert(end <= n);
            assert(path.subrange(start, end) =~= whole.subrange(start, end));
            assert(is_segment(path, start, end)) by {
                assert(whole[start - 1] == path[start - 1]);
                assert(end < n ==> whole[end] == path[end]);
                assert forall|i: int| start <= i < end implies path[i] != '/' by {
                    assert(whole[i] == path[i]);
                }
            }
        } else {
            assert(start == n + 1) by {
                if start > n + 1 {
                    assert(whole[start - 1] == "/billing"@[start - 1 - n]);
                }
            }
            if end < whole.len() {
                assert(whole[end] == "/billing"@[end - n]);
            }
            let segment = whole.subrange(start, end);
            assert(lower(segment).len() == 7);
            reveal_strlit(".");
            reveal_strlit("..");
            reveal_strlit("%2e");
            reveal_strlit(".%2e");
            reveal_strlit("%2e.");
            reveal_strlit("%2e%2e");
        }
    }
    if n > 0 {
        assert(whole[0] == path[0]);
    }
}

/// What is left without the slashes at the end starts like the whole, does not
/// end in a slash, and was followed by slashes only.
pub(crate) proof fn lemma_without_end_slashes(s: Seq<char>)
    ensures
        ({
            let n = without_end_slashes(s).len() as int;
            &&& n <= s.len()
            &&& without_end_slashes(s) == s.take(n)
            &&& forall|i: int| n <= i < s.len() ==> s[i] == '/'
        }),
    decreases s.len(),
{
    if s.len() > 0 && s.last() == '/' {
        lemma_without_end_slashes(s.drop_last());
        let n = without_end_slashes(s).len() as int;
        assert(s.drop_last().take(n) =~= s.take(n));
        assert forall|i: int| n <= i < s.len() implies s[i] == '/' by {
            if i < s.len() - 1 {
                assert(s.drop_last()[i] == '/');
            }
        }
    } else {
        assert(s.take(s.len() as int) =~= s);
    }
}

/// The billing URL below a web URL has the parts of one.
pub(crate) proof fn lemma_billing_url_parts(url: Seq<char>, weekly: bool)
    requires
        is_web(url),
        path_start(url) < path_end(url),
        is_plain_path(path_of(url)),
    ensures
        is_billing_url_of(billing_url_below(url, weekly), url, weekly),
{
    reveal_strlit("/billing");
    reveal_strlit("/billing?format=credits");
    reveal_strlit("?format=credits");
    lemma_parts(url);
    lemma_billing_path(path_of(url));
    let billing = billing_url_below(url, weekly);
    let origin = origin_of(url);
    let path = without_end_slashes(path_of(url)) + "/billing"@;
    let query = if weekly {
        "?format=credits"@
    } else {
        Seq::empty()
    };
    assert(billing_suffix(weekly) =~= "/billing"@ + query);
    assert(billing =~= origin + path + query);
    assert(billing.take(path_start(url)) =~= origin);
    lemma_same_scheme(url, billing);
    let colon = first_at(url, ':', 0);
    lemma_first_at(url, '/', colon + 3);
    assert(billing[path_start(url)] == path[0]);
    assert forall|i: int| colon + 3 <= i < path_start(url) implies billing[i] != '/' by {
        assert(billing[i] == url[i]);
    }
    lemma_first_at_is(billing, '/', colon + 3, path_start(url));
    let end = (origin + path).len() as int;
    assert forall|i: int| 0 <= i < end implies billing[i] != '?' && billing[i] != '#' by {
        if i < origin.len() {
            assert(billing[i] == url[i]);
        } else {
            assert(billing[i] == path[i - origin.len()]);
            assert(is_path_char(path[i - origin.len()]));
        }
    }
    assert forall|i: int| end <= i < billing.len() implies billing[i] != '#' by {
        assert(billing[i] == query[i - end]);
    }
    lemma_first_at_is(billing, '#', 0, billing.len() as int);
    assert(end < billing.len() ==> billing[end] == query[0]);
    lemma_first_at_is(billing, '?', 0, end);
    assert(path_of(billing) =~= path);
    assert(billing.skip(end) =~= query);
    if weekly {
        assert(billing[end] == query[0]);
        assert(billing.contains('?'));
    }
}

/// The base URL that a configured one stands for.
fn base_url_or_default(base_url: &str) -> (effective: &str)
    ensures
        effective@ == effective_base_url(base_url@),
{
    let inner = trim(base_url);
    if inner.is_empty() {
        GROK_OAUTH_DEFAULT_BASE_URL
    } else {
        inner
    }
}

/// Whether a parsed URL is one of the web.
fn has_web_scheme(parsed: &url::Url) -> (web: bool)
    ensures
        web == is_web(url_text(*parsed)),
{
    let scheme = url_scheme(parsed);
    same_text(scheme, "http") || same_text(scheme, "https")
}

/// The billing URL below a web URL.
fn billing_url_of(parsed: url::Url, weekly: bool) -> (url: String)
    requires
        is_web(url_text(parsed)),
        url_fits(url_text(parsed), weekly),
    ensures
        url@ == billing_url_below(url_text(parsed), weekly),
        is_billing_url_of(url@, url_text(parsed), weekly),
{
    let mut url = parsed;
    let suffix = if weekly {
        GROK_OAUTH_BILLING_WEEKLY_PATH
    } else {
        GROK_OAUTH_BILLING_MONTHLY_PATH
    };
    let (suffix_path, query) = split_suffix(suffix);
    let ghost base = url_text(url);
    let path = joined(trim_end_slashes(url_path(&url)), suffix_path);
    proof {
        lemma_suffix(weekly);
        lemma_billing_path(path_of(base));
        lemma_parts(base);
    }
    set_url_path(&mut url, path.as_str());
    let ghost with_path = url_text(url);
    proof {
        assert(query_part(opt_query(query)).len() == billing_suffix(weekly).len()
            - "/billing"@.len());
        lemma_rebuilt(
            base,
            path@,
            opt_query(query),
            with_path,
            with_path.take(path_end(with_path)) + query_part(opt_query(query)) + with_path.skip(
                fragment_start(with_path),
            ),
        );
    }
    set_url_query(&mut url, query);
    clear_url_fragment(&mut url);
    proof {
        assert(url_text(url) =~= billing_url_below(base, weekly));
        lemma_billing_url_parts(base, weekly);
    }
    url_as_str(&url).to_owned()
}

/// The billing URL of a usage window for what the base URL was parsed to.
pub fn grok_oauth_billing_url_for(parsed: Option<url::Url>, weekly: bool) -> (url: Result<
    String,
    String,
>)
    requires
        parsed matches Some(parsed) ==> url_fits(url_text(parsed), weekly),
    ensures
        text_result(url) == billing_url_for(opt_url_text(parsed), weekly),
        url matches Ok(url) ==> opt_url_text(parsed) matches Some(base) && is_billing_url_of(
            url@,
            base,
            weekly,
        ),
{
    let parsed = match parsed {
        Some(parsed) => parsed,
        None => return Err(BASE_URL_INVALID.to_owned()),
    };
    if !has_web_scheme(&parsed) {
        return Err(BASE_URL_SCHEME_UNSUPPORTED.to_owned());
    }
    Ok(billing_url_of(parsed, weekly))
}

/// The billing URL of a usage window below the configured base URL. A blank
/// base URL stands for the default one.
pub fn grok_oauth_billing_url(base_url: &str, weekly: bool) -> (url: Result<String, String>)
    requires
        base_url_fits(base_url@, weekly),
    ensures
        text_result(url) == billing_url(base_url@, weekly),
        url matches Ok(url) ==> is_billing_url(url@, base_url@, weekly),
{
    grok_oauth_billing_url_for(parse_url(base_url_or_default(base_url)).ok(), weekly)
}

/// Whether the billing URL below a parsed base URL can be made.
pub fn grok_oauth_url_fits(parsed: &url::Url, weekly: bool) -> (fits: bool)
    ensures
        fits == url_fits(url_text(*parsed), weekly),
{
    if !has_web_scheme(parsed) {
        return true;
    }
    let text = url_as_str(parsed);
    let len: usize = text.unicode_len();
    let fragment: usize = first_place(text, '#');
    let query: usize = first_place(text, '?');
    let end: usize = if query < fragment {
        query
    } else {
        fragment
    };
    let path = url_path(parsed);
    let path_len: usize = path.unicode_len();
    let kept: usize = trim_end_slashes(path).unicode_len();
    proof {
        lemma_parts(url_text(*parsed));
        lemma_without_end_slashes(path@);
        reveal_strlit("/billing");
        reveal_strlit("/billing?format=credits");
    }
    if end > 0xffff_ffff {
        return false;
    }
    let base_end: usize = end - path_len + kept;
    let path_suffix_len: usize = GROK_OAUTH_BILLING_MONTHLY_PATH.unicode_len();
    let suffix_len: usize = if weekly {
        GROK_OAUTH_BILLING_WEEKLY_PATH.unicode_len()
    } else {
        path_suffix_len
    };
    if base_end > 0xffff_ffff - path_suffix_len {
        return false;
    }
    let new_end: usize = base_end + path_suffix_len;
    fragment == len || (fragment - end < 0xffff_ffff - new_end && base_end <= 0xffff_ffff
        - suffix_len)
}

/// Whether the billing URL below the configured base URL can be made.
pub fn grok_oauth_base_url_fits(base_url: &str, weekly: bool) -> (fits: bool)
    ensures
        fits == base_url_fits(base_url@, weekly),
{
    let effective = base_url_or_default(base_url);
    if !url_text_fits(effective) {
        return false;
    }
    match parse_url(effective) {
        Ok(parsed) => grok_oauth_url_fits(&parsed, weekly),
        Err(_) => true,
    }
}

/// The user agent that a billing request names.
pub open spec fn user_agent() -> Seq<char> {
    "grok-pager/"@ + GROK_OAUTH_CLI_VERSION@ + " grok-shell/"@ + GROK_OAUTH_CLI_VERSION@
        + " (macos; aarch64)"@
}

/// The user agent that a billing request names.
pub fn grok_oauth_billing_user_agent() -> (agent: String)
    ensures
        agent@ == user_agent(),
{
    let mut agent: String = "grok-pager/".to_owned();
    agent.append(GROK_OAUTH_CLI_VERSION);
    agent.append(" grok-shell/");
    agent.append(GROK_OAUTH_CLI_VERSION);
    agent.append(" (macos; aarch64)");
    agent
}

/// Whether `key` is the first of the configured names that is `name` but for
/// the case of ASCII letters.
pub open spec fn is_first_match(
    configured: Map<Seq<char>, Json>,
    name: Seq<char>,
    key: Seq<char>,
) -> bool {
    &&& configured.contains_key(key)
    &&& lower(key) == lower(name)
    &&& forall|other: Seq<char>| #[trigger]
        configured.contains_key(other) && lower(other) == lower(name) ==> other == key
            || precedes(key, other)
}

/// A header's text: that of a string without surrounding white space, where
/// any is left.
pub open spec fn header_text(value: Json) -> Option<Seq<char>> {
    match value {
        Json::Text(text) => if trimmed(text).len() == 0 {
            None
        } else {
            Some(trimmed(text))
        },
        _ => None,
    }
}

/// The header that an authorization configuration sets: the text of the first
/// member of its `headers` object with that name in any case.
pub open spec fn configured_header(auth_config: Option<Json>, name: Seq<char>) -> Option<
    Seq<char>,
> {
    match auth_config {
        Some(config) => match members_in(member_of(config, "headers"@)) {
            Some(configured) => if exists|key: Seq<char>| is_first_match(configured, name, key) {
                header_text(configured[choose|key: Seq<char>| is_first_match(configured, name, key)])
            } else {
                None
            },
            None => None,
        },
        None => None,
    }
}

/// There is only one first match.
pub(crate) proof fn lemma_first_match_unique(
    configured: Map<Seq<char>, Json>,
    name: Seq<char>,
    a: Seq<char>,
    b: Seq<char>,
)
    requires
        is_first_match(configured, name, a),
        is_first_match(configured, name, b),
    ensures
        a == b,
{
    if a != b {
        lemma_precedes_transitive(a, b, a);
        lemma_precedes_irreflexive(a);
    }
}

/// The header that an authorization configuration sets, if any.
pub fn auth_config_header(auth_config: Option<&Value>, name: &str) -> (header: Option<String>)
    ensures
        opt_text(header) == configured_header(opt_json_ref(auth_config), name@),
{
    let configured = match object_in(member_in(auth_config, "headers")) {
        Some(configured) => configured,
        None => return None,
    };
    let members = object_members(configured);
    let ghost listing = listing_of(members@);
    let ghost map = members_of(*configured);
    let mut i: usize = 0;
    while i < members.len()
        invariant
            i <= members@.len(),
            listing == listing_of(members@),
            map == members_of(*configured),
            is_listing(listing, map),
            members_in(
                match opt_json_ref(auth_config) {
                    Some(config) => member_of(config, "headers"@),
                    None => None,
                },
            ) == Some(map),
            forall|k: int| 0 <= k < i ==> lower((#[trigger] listing[k]).0) != lower(name@),
        decreases members@.len() - i,
    {
        let (key, value) = members[i];
        assert(listing[i as int] == (key@, json_of(*value)));
        if same_ignoring_ascii_case(key.as_str(), name) {
            proof {
                assert(map.contains_pair(listing[i as int].0, listing[i as int].1));
                assert forall|other: Seq<char>| #[trigger]
                    map.contains_key(other) && lower(other) == lower(name@) implies other == key@
                    || precedes(key@, other) by {
                    let k = choose|k: int|
                        0 <= k < listing.len() && (#[trigger] listing[k]).0 == other;
                    if i < k {
                        assert(precedes(listing[i as int].0, listing[k].0));
                    }
                }
                assert(is_first_match(map, name@, key@));
                let chosen = choose|key: Seq<char>| is_first_match(map, name@, key);
                lemma_first_match_unique(map, name@, key@, chosen);
            }
            return match value_str(value) {
                Some(text) => {
                    let text = trim(text);
                    if text.is_empty() {
                        None
                    } else {
                        Some(text.to_owned())
                    }
                },
                None => None,
            };
        }
        i += 1;
    }
    proof {
        assert forall|key: Seq<char>| !is_first_match(map, name@, key) by {
            if is_first_match(map, name@, key) {
                let k = choose|k: int| 0 <= k < listing.len() && (#[trigger] listing[k]).0 == key;
            }
        }
    }
    None
}

/// A request that asks a provider for the usage of one of its keys.
#[derive(Debug)]
pub struct ProviderPoolQuotaRequestSpec {
    /// What the request is known by.
    pub request_id: String,
    /// The provider that is asked.
    pub provider_name: String,
    /// What is asked for.
    pub quota_kind: String,
    /// The HTTP method.
    pub method: String,
    /// The URL.
    pub url: String,
    /// The headers.
    pub headers: Headers,
    /// The content type of the body, if it has one.
    pub content_type: Option<String>,
    /// The body, if there is one.
    pub json_body: Option<Value>,
    /// The API format of the client.
    pub client_api_format: String,
    /// The API format of the provider.
    pub provider_api_format: String,
    /// The model that the usage is booked on.
    pub model_name: Option<String>,
    /// Whether a certificate that does not check out is accepted.
    pub accept_invalid_certs: bool,
}

/// What a usage request says.
pub struct QuotaRequest {
    /// What the request is known by.
    pub request_id: Seq<char>,
    /// The provider that is asked.
    pub provider_name: Seq<char>,
    /// What is asked for.
    pub quota_kind: Seq<char>,
    /// The HTTP method.
    pub method: Seq<char>,
    /// The URL.
    pub url: Seq<char>,
    /// The headers.
    pub headers: Map<Seq<char>, Seq<char>>,
    /// The content type of the body, if it has one.
    pub content_type: Option<Seq<char>>,
    /// The body, if there is one.
    pub json_body: Option<Json>,
    /// The API format of the client.
    pub client_api_format: Seq<char>,
    /// The API format of the provider.
    pub provider_api_format: Seq<char>,
    /// The model that the usage is booked on.
    pub model_name: Option<Seq<char>>,
    /// Whether a certificate that does not check out is accepted.
    pub accept_invalid_certs: bool,
}

impl View for ProviderPoolQuotaRequestSpec {
    type V = QuotaRequest;

    open spec fn view(&self) -> QuotaRequest {
        QuotaRequest {
            request_id: self.request_id@,
            provider_name: self.provider_name@,
            quota_kind: self.quota_kind@,
            method: self.method@,
            url: self.url@,
            headers: self.headers@,
            content_type: opt_text(self.content_type),
            json_body: opt_json(self.json_body),
            client_api_format: self.client_api_format@,
            provider_api_format: self.provider_api_format@,
            model_name: opt_text(self.model_name),
            accept_invalid_certs: self.accept_invalid_certs,
        }
    }
}

/// The name of a usage window.
pub open spec fn window_name(weekly: bool) -> Seq<char> {
    if weekly {
        "weekly"@
    } else {
        "monthly"@
    }
}

/// The header that the configuration sets, or else the default.
pub open spec fn header_or(auth_config: Option<Json>, name: Seq<char>, default: Seq<char>) -> Seq<
    char,
> {
    match configured_header(auth_config, name) {
        Some(header) => header,
        None => default,
    }
}

/// The headers of a billing request. The authorization header is the last word
/// on its name, which is in lower case.
pub open spec fn billing_headers(
    authorization: (Seq<char>, Seq<char>),
    auth_config: Option<Json>,
) -> Map<Seq<char>, Seq<char>> {
    Map::empty().insert("accept"@, "application/json"@).insert(
        "content-type"@,
        "application/json"@,
    ).insert(
        "x-xai-token-auth"@,
        header_or(auth_config, "x-xai-token-auth"@, GROK_OAUTH_TOKEN_AUTH_VALUE@),
    ).insert(
        "x-grok-client-version"@,
        header_or(auth_config, "x-grok-client-version"@, GROK_OAUTH_CLI_VERSION@),
    ).insert("user-agent"@, user_agent()).insert(
        lower(trimmed(authorization.0)),
        trimmed(authorization.1),
    )
}

/// The billing request of a usage window to a URL.
pub open spec fn billing_request_to(
    key_id: Seq<char>,
    url: Seq<char>,
    authorization: (Seq<char>, Seq<char>),
    auth_config: Option<Json>,
    weekly: bool,
) -> QuotaRequest {
    QuotaRequest {
        request_id: "grok-oauth-billing-"@ + window_name(weekly) + ":"@ + key_id,
        provider_name: "grok_oauth"@,
        quota_kind: "grok_oauth_billing_"@ + window_name(weekly),
        method: "GET"@,
        url,
        headers: billing_headers(authorization, auth_config),
        content_type: None,
        json_body: None,
        client_api_format: "openai:responses"@,
        provider_api_format: "grok_oauth:billing"@,
        model_name: Some("grok-oauth-billing-"@ + window_name(weekly)),
        accept_invalid_certs: false,
    }
}

/// Whether the name or the value of an authorization header is blank.
pub open spec fn is_blank_authorization(authorization: (Seq<char>, Seq<char>)) -> bool {
    trimmed(authorization.0).len() == 0 || trimmed(authorization.1).len() == 0
}

/// Whether the billing request of a usage window can be made: the base URL matters only where
/// there is an authorization header.
pub open spec fn request_fits(
    base_url: Seq<char>,
    authorization: (Seq<char>, Seq<char>),
    weekly: bool,
) -> bool {
    is_blank_authorization(authorization) || base_url_fits(base_url, weekly)
}

/// The billing request of a usage window: none without an authorization header,
/// and none where the base URL gives no billing URL.
pub open spec fn billing_request(
    key_id: Seq<char>,
    base_url: Seq<char>,
    authorization: (Seq<char>, Seq<char>),
    auth_config: Option<Json>,
    weekly: bool,
) -> Result<QuotaRequest, Seq<char>> {
    if is_blank_authorization(authorization) {
        Err(AUTHORIZATION_MISSING@)
    } else {
        match billing_url(base_url, weekly) {
            Ok(url) => Ok(billing_request_to(key_id, url, authorization, auth_config, weekly)),
            Err(message) => Err(message),
        }
    }
}

/// The view of a request or the text of a failure.
pub open spec fn request_result(result: Result<ProviderPoolQuotaRequestSpec, String>) -> Result<
    QuotaRequest,
    Seq<char>,
> {
    match result {
        Ok(request) => Ok(request@),
        Err(message) => Err(message@),
    }
}

/// The header that the configuration sets, or else the default.
fn header_or_default(auth_config: Option<&Value>, name: &str, default: &str) -> (header: String)
    ensures
        header@ == header_or(opt_json_ref(auth_config), name@, default@),
{
    match auth_config_header(auth_config, name) {
        Some(header) => header,
        None => default.to_owned(),
    }
}

/// The billing request of a usage window to a URL.
pub fn grok_oauth_billing_request_to(
    key_id: &str,
    url: String,
    authorization: &(String, String),
    auth_config: Option<&Value>,
    weekly: bool,
) -> (request: ProviderPoolQuotaRequestSpec)
    ensures
        request@ == billing_request_to(
            key_id@,
            url@,
            (authorization.0@, authorization.1@),
            opt_json_ref(auth_config),
            weekly,
        ),
        request.headers.well_formed(),
{
    let mut headers = Headers::new();
    headers.insert("accept".to_owned(), "application/json".to_owned());
    headers.insert("content-type".to_owned(), "application/json".to_owned());
    headers.insert(
        "x-xai-token-auth".to_owned(),
        header_or_default(auth_config, "x-xai-token-auth", GROK_OAUTH_TOKEN_AUTH_VALUE),
    );
    headers.insert(
        "x-grok-client-version".to_owned(),
        header_or_default(auth_config, "x-grok-client-version", GROK_OAUTH_CLI_VERSION),
    );
    headers.insert("user-agent".to_owned(), grok_oauth_billing_user_agent());
    headers.insert(
        ascii_lowercase(trim(authorization.0.as_str())),
        trim(authorization.1.as_str()).to_owned(),
    );
    let quota_window = if weekly {
        "weekly"
    } else {
        "monthly"
    };
    let mut request_id: String = joined("grok-oauth-billing-", quota_window);
    request_id.append(":");
    request_id.append(key_id);
    ProviderPoolQuotaRequestSpec {
        request_id,
        provider_name: "grok_oauth".to_owned(),
        quota_kind: joined("grok_oauth_billing_", quota_window),
        method: "GET".to_owned(),
        url,
        headers,
        content_type: None,
        json_body: None,
        client_api_format: "openai:responses".to_owned(),
        provider_api_format: "grok_oauth:billing".to_owned(),
        model_name: Some(joined("grok-oauth-billing-", quota_window)),
        accept_invalid_certs: false,
    }
}

/// Whether the name or the value of an authorization header is blank.
fn authorization_blank(authorization: &(String, String)) -> (blank: bool)
    ensures
        blank == is_blank_authorization((authorization.0@, authorization.1@)),
{
    trim(authorization.0.as_str()).is_empty() || trim(authorization.1.as_str()).is_empty()
}

/// The billing request of a usage window, ready to be sent: none without an
/// authorization header, and none where the base URL gives no billing URL.
pub fn build_grok_oauth_pool_billing_request(
    key_id: &str,
    base_url: &str,
    authorization: (String, String),
    auth_config: Option<&Value>,
    weekly: bool,
) -> (request: Result<ProviderPoolQuotaRequestSpec, String>)
    requires
        request_fits(base_url@, (authorization.0@, authorization.1@), weekly),
    ensures
        request_result(request) == billing_request(
            key_id@,
            base_url@,
            (authorization.0@, authorization.1@),
            opt_json_ref(auth_config),
            weekly,
        ),
        request matches Ok(request) ==> request.headers.well_formed() && is_billing_url(
            request.url@,
            base_url@,
            weekly,
        ),
{
    if authorization_blank(&authorization) {
        return Err(AUTHORIZATION_MISSING.to_owned());
    }
    match grok_oauth_billing_url(base_url, weekly) {
        Ok(url) => Ok(
            grok_oauth_billing_request_to(key_id, url, &authorization, auth_config, weekly),
        ),
        Err(message) => Err(message),
    }
}

/// The billing request of a usage window, as
/// [`build_grok_oauth_pool_billing_request`] makes it, or nothing where the base
/// URL is longer than the `url` crate can count.
pub fn try_build_grok_oauth_pool_billing_request(
    key_id: &str,
    base_url: &str,
    authorization: (String, String),
    auth_config: Option<&Value>,
    weekly: bool,
) -> (request: Option<Result<ProviderPoolQuotaRequestSpec, String>>)
    ensures
        request is Some <==> request_fits(base_url@, (authorization.0@, authorization.1@), weekly),
        request matches Some(request) ==> request_result(request) == billing_request(
            key_id@,
            base_url@,
            (authorization.0@, authorization.1@),
            opt_json_ref(auth_config),
            weekly,
        ),
        request matches Some(Ok(request)) ==> request.headers.well_formed() && is_billing_url(
            request.url@,
            base_url@,
            weekly,
        ),
{
    if !authorization_blank(&authorization) && !grok_oauth_base_url_fits(base_url, weekly) {
        return None;
    }
    Some(
        build_grok_oauth_pool_billing_request(key_id, base_url, authorization, auth_config, weekly),
    )
}

} // verus!
