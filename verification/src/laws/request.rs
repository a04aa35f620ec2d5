//! What a billing request says and where it goes, field by field.
use crate::json::Json;
use crate::limits::lemma_short_url_fits;
use crate::link::{
    first_at, is_web, lemma_first_at, lemma_first_at_is, origin_of, parsed_url, path_end, path_of,
    path_start, scheme_of,
};
use crate::request::{
    base_url_fits, billing_request, billing_url, billing_url_below, billing_url_for,
    configured_header, effective_base_url, is_first_match, lemma_first_match_unique,
    lemma_without_end_slashes, request_fits, url_fits, user_agent,
};
use crate::text::{lower, precedes, trimmed};
use vstd::prelude::*;

verus! {

// Where a request goes
/// The base URL is parsed without white space around it, and where nothing is
/// left, the default one is.
pub proof fn law_base_url_is_parsed_without_white_space(base_url: Seq<char>, weekly: bool)
    ensures
        trimmed(base_url).len() > 0 ==> billing_url(base_url, weekly) == billing_url_for(
            parsed_url(trimmed(base_url)),
            weekly,
        ),
        trimmed(base_url).len() == 0 ==> billing_url(base_url, weekly) == billing_url_for(
            parsed_url("https://cli-chat-proxy.grok.com/v1"@),
            weekly,
        ),
{
}

/// Whether a text is made of that character alone.
pub open spec fn is_all(s: Seq<char>, c: char) -> bool {
    forall|i: int| 0 <= i < s.len() ==> s[i] == c
}

/// Below a web URL that is put together of its parts, the billing URL has the
/// same scheme and authority, the path without the slashes at its end, then
/// `/billing` and for the weekly window the query `format=credits`. Query and
/// fragment of the base URL are gone.
pub proof fn law_billing_url_of_a_web_url(
    scheme: Seq<char>,
    authority: Seq<char>,
    kept: Seq<char>,
    slashes: Seq<char>,
    tail: Seq<char>,
    weekly: bool,
)
    requires
        scheme == "http"@ || scheme == "https"@,
        !authority.contains('/') && !authority.contains('?') && !authority.contains('#'),
        !kept.contains('?') && !kept.contains('#'),
        kept.len() == 0 || kept.last() != '/',
        is_all(slashes, '/'),
        (kept + slashes).len() > 0 && (kept + slashes)[0] == '/',
        tail.len() == 0 || tail[0] == '?' || tail[0] == '#',
    ensures
        billing_url_for(
            Some(scheme + "://"@ + authority + kept + slashes + tail),
            weekly,
        ) == Ok::<Seq<char>, Seq<char>>(
            scheme + "://"@ + authority + kept + if weekly {
                "/billing?format=credits"@
            } else {
                "/billing"@
            },
        ),
{
    reveal_strlit("http");
    reveal_strlit("https");
    reveal_strlit("://");
    let origin = scheme + "://"@ + authority;
    let path = kept + slashes;
    let url = origin + kept + slashes + tail;
    assert(url =~= origin + path + tail);
    let colon = scheme.len() as int;
    assert forall|i: int| 0 <= i < colon implies url[i] != ':' by {
        assert(url[i] == scheme[i]);
    }
    assert(url[colon] == "://"@[0]);
    lemma_first_at_is(url, ':', 0, colon);
    assert(scheme_of(url) =~= scheme);
    let start = origin.len() as int;
    assert forall|i: int| colon + 3 <= i < start implies url[i] != '/' by {
        assert(url[i] == authority[i - colon - 3]);
        assert(authority.contains(authority[i - colon - 3]));
    }
    assert(url[start] == path[0]);
    lemma_first_at_is(url, '/', colon + 3, start);
    let end = start + path.len();
    assert forall|i: int| 0 <= i < end implies url[i] != '?' && url[i] != '#' by {
        if i < colon {
            assert(url[i] == scheme[i]);
        } else if i < colon + 3 {
            assert(url[i] == "://"@[i - colon]);
        } else if i < start {
            assert(url[i] == authority[i - colon - 3]);
            assert(authority.contains(authority[i - colon - 3]));
        } else if i < start + kept.len() {
            assert(url[i] == kept[i - start]);
            assert(kept.contains(kept[i - start]));
        } else {
            assert(url[i] == slashes[i - start - kept.len()]);
        }
    }
    lemma_first_at(url, '?', 0);
    lemma_first_at(url, '#', 0);
    if tail.len() > 0 {
        assert(url[end] == tail[0]);
        if tail[0] == '?' {
            lemma_first_at_is(url, '?', 0, end);
        } else {
            lemma_first_at_is(url, '#', 0, end);
        }
    }
    assert(path_end(url) == end);
    assert(origin_of(url) =~= origin);
    assert(path_of(url) =~= path);
    crate::laws::text::law_only_end_slashes_go(kept, slashes);
    assert(billing_url_below(url, weekly) =~= origin + kept + if weekly {
        "/billing?format=credits"@
    } else {
        "/billing"@
    });
}

/// A base URL with another scheme than `http` or `https` is refused.
pub proof fn law_other_schemes_are_refused(scheme: Seq<char>, rest: Seq<char>, weekly: bool)
    requires
        !scheme.contains(':'),
        scheme != "http"@,
        scheme != "https"@,
    ensures
        billing_url_for(Some(scheme + ":"@ + rest), weekly) == Err::<Seq<char>, Seq<char>>(
            "Grok OAuth base_url 仅支持 http/https"@,
        ),
{
    reveal_strlit(":");
    let url = scheme + ":"@ + rest;
    assert forall|i: int| 0 <= i < scheme.len() implies url[i] != ':' by {
        assert(url[i] == scheme[i]);
        assert(scheme.contains(scheme[i]));
    }
    assert(url[scheme.len() as int] == ":"@[0]);
    lemma_first_at_is(url, ':', 0, scheme.len() as int);
    assert(scheme_of(url) =~= scheme);
}

/// A base URL that does not parse is refused.
pub proof fn law_unparsed_base_url_is_refused(weekly: bool)
    ensures
        billing_url_for(None, weekly) == Err::<Seq<char>, Seq<char>>("Grok OAuth base_url 无效"@),
{
}

/// The URL of a base URL of ordinary length can always be made, and a base URL
/// of another scheme or without authorization needs no length.
pub proof fn law_ordinary_base_urls_fit(
    base_url: Seq<char>,
    authorization: (Seq<char>, Seq<char>),
    weekly: bool,
)
    ensures
        trimmed(base_url).len() <= 0x7fff_ffff && (parsed_url(
            if trimmed(base_url).len() == 0 {
                "https://cli-chat-proxy.grok.com/v1"@
            } else {
                trimmed(base_url)
            },
        ) matches Some(url) ==> url.len() < 0xffff_ff00 && path_start(url) <= path_end(url)
            || !is_web(url)) ==> base_url_fits(
            base_url,
            weekly,
        ),
        base_url_fits(base_url, weekly) ==> request_fits(base_url, authorization, weekly),
        trimmed(authorization.0).len() == 0 || trimmed(authorization.1).len() == 0 ==> request_fits(
            base_url,
            authorization,
            weekly,
        ),
{
    reveal_strlit("https://cli-chat-proxy.grok.com/v1");
    let effective = effective_base_url(base_url);
    if trimmed(base_url).len() <= 0x7fff_ffff {
        lemma_short_url_fits(effective);
        if let Some(url) = parsed_url(effective) {
            if is_web(url) && url.len() < 0xffff_ff00 && path_start(url) <= path_end(url) {
                lemma_short_url_can_be_extended(url, weekly);
            }
        }
    }
}

/// The billing URL below a web URL of less than 4 GiB can be made.
proof fn lemma_short_url_can_be_extended(url: Seq<char>, weekly: bool)
    requires
        is_web(url),
        url.len() < 0xffff_ff00,
        path_start(url) <= path_end(url),
    ensures
        url_fits(url, weekly),
{
    reveal_strlit("/billing");
    reveal_strlit("/billing?format=credits");
    let colon = first_at(url, ':', 0);
    lemma_first_at(url, ':', 0);
    lemma_first_at(url, '?', 0);
    lemma_first_at(url, '#', 0);
    if colon + 3 <= url.len() {
        lemma_first_at(url, '/', colon + 3);
    }
    lemma_without_end_slashes(path_of(url));
    assert(path_of(url).len() == path_end(url) - path_start(url));
}

/// Whatever the length of its query, the billing URL below a web URL without a
/// fragment can be made where its path ends 8 places before 4 GiB; and the
/// billing URL below a URL of another scheme is not made at all.
pub proof fn law_queries_need_no_length(url: Seq<char>, weekly: bool)
    ensures
        is_web(url) && !url.contains('#') && 0 <= path_start(url) <= path_end(url) <= 0xffff_fff7
            ==> url_fits(url, weekly),
        !is_web(url) ==> url_fits(url, weekly),
{
    if is_web(url) && !url.contains('#') && 0 <= path_start(url) <= path_end(url) <= 0xffff_fff7 {
        reveal_strlit("/billing");
        lemma_first_at(url, '?', 0);
        lemma_first_at(url, '#', 0);
        let mark = first_at(url, '#', 0);
        if mark < url.len() {
            assert(url.contains(url[mark]));
        }
        lemma_without_end_slashes(path_of(url));
        assert(path_of(url).len() == path_end(url) - path_start(url));
    }
}

// What a request says
/// A request is made exactly where the authorization header has a name and a
/// value and the base URL gives a billing URL; the authorization is looked at
/// first. It goes to that URL with GET, without body or content type, and says
/// which provider, window and key it is for.
pub proof fn law_request_says(
    key_id: Seq<char>,
    base_url: Seq<char>,
    authorization: (Seq<char>, Seq<char>),
    auth_config: Option<Json>,
    weekly: bool,
)
    ensures
        ({
            let request = billing_request(key_id, base_url, authorization, auth_config, weekly);
            if trimmed(authorization.0).len() == 0 || trimmed(authorization.1).len() == 0 {
                request matches Err(message) && message
                    == "缺少 Grok OAuth 认证信息，请先授权/刷新 Token"@
            } else {
                match billing_url(base_url, weekly) {
                    Err(refusal) => request matches Err(message) && message == refusal,
                    Ok(url) => request matches Ok(request) && {
                        &&& request.url == url
                        &&& request.method == "GET"@
                        &&& request.content_type is None
                        &&& request.json_body is None
                        &&& request.provider_name == "grok_oauth"@
                        &&& request.client_api_format == "openai:responses"@
                        &&& request.provider_api_format == "grok_oauth:billing"@
                        &&& !request.accept_invalid_certs
                        &&& request.request_id == if weekly {
                            "grok-oauth-billing-weekly:"@
                        } else {
                            "grok-oauth-billing-monthly:"@
                        } + key_id
                        &&& request.quota_kind == if weekly {
                            "grok_oauth_billing_weekly"@
                        } else {
                            "grok_oauth_billing_monthly"@
                        }
                        &&& request.model_name == Some(
                            if weekly {
                                "grok-oauth-billing-weekly"@
                            } else {
                                "grok-oauth-billing-monthly"@
                            },
                        )
                    },
                }
            }
        }),
{
    reveal_strlit("weekly");
    reveal_strlit("monthly");
    reveal_strlit(":");
    reveal_strlit("grok-oauth-billing-");
    reveal_strlit("grok_oauth_billing_");
    reveal_strlit("grok-oauth-billing-weekly");
    reveal_strlit("grok-oauth-billing-monthly");
    reveal_strlit("grok-oauth-billing-weekly:");
    reveal_strlit("grok-oauth-billing-monthly:");
    reveal_strlit("grok_oauth_billing_weekly");
    reveal_strlit("grok_oauth_billing_monthly");
    assert("grok-oauth-billing-"@ + "weekly"@ =~= "grok-oauth-billing-weekly"@);
    assert("grok-oauth-billing-"@ + "monthly"@ =~= "grok-oauth-billing-monthly"@);
    assert("grok_oauth_billing_"@ + "weekly"@ =~= "grok_oauth_billing_weekly"@);
    assert("grok_oauth_billing_"@ + "monthly"@ =~= "grok_oauth_billing_monthly"@);
    assert("grok-oauth-billing-"@ + "weekly"@ + ":"@ =~= "grok-oauth-billing-weekly:"@);
    assert("grok-oauth-billing-"@ + "monthly"@ + ":"@ =~= "grok-oauth-billing-monthly:"@);
}

/// Every request that is made has the method GET, no body and no content type.
pub proof fn law_requests_only_ask(
    key_id: Seq<char>,
    base_url: Seq<char>,
    authorization: (Seq<char>, Seq<char>),
    auth_config: Option<Json>,
    weekly: bool,
)
    ensures
        billing_request(key_id, base_url, authorization, auth_config, weekly) matches Ok(request)
            ==> request.method == "GET"@ && request.json_body is None && request.content_type
            is None,
{
}

/// The requests of the two windows differ in nothing but request id, quota kind,
/// model name and URL.
pub proof fn law_windows_ask_alike(
    key_id: Seq<char>,
    base_url: Seq<char>,
    authorization: (Seq<char>, Seq<char>),
    auth_config: Option<Json>,
)
    ensures
        match (
            billing_request(key_id, base_url, authorization, auth_config, true),
            billing_request(key_id, base_url, authorization, auth_config, false),
        ) {
            (Ok(weekly), Ok(monthly)) => {
                &&& weekly.provider_name == monthly.provider_name
                &&& weekly.method == monthly.method
                &&& weekly.headers == monthly.headers
                &&& weekly.content_type == monthly.content_type
                &&& weekly.json_body == monthly.json_body
                &&& weekly.client_api_format == monthly.client_api_format
                &&& weekly.provider_api_format == monthly.provider_api_format
                &&& weekly.accept_invalid_certs == monthly.accept_invalid_certs
            },
            (Err(weekly), Err(monthly)) => weekly == monthly,
            _ => false,
        },
{
}

/// A request has six headers at most: what it accepts and sends, the kind of
/// token, the version of the client, the user agent, and the authorization under
/// its name in lower case, which stands in place of one of the others where it
/// has the same name.
pub proof fn law_request_headers(
    key_id: Seq<char>,
    base_url: Seq<char>,
    authorization: (Seq<char>, Seq<char>),
    auth_config: Option<Json>,
    weekly: bool,
    name: Seq<char>,
)
    ensures
        billing_request(key_id, base_url, authorization, auth_config, weekly) matches Ok(request)
            ==> request.headers.get(name) == if name == lower(trimmed(authorization.0)) {
            Some(trimmed(authorization.1))
        } else if name == "accept"@ || name == "content-type"@ {
            Some("application/json"@)
        } else if name == "user-agent"@ {
            Some("grok-pager/0.2.93 grok-shell/0.2.93 (macos; aarch64)"@)
        } else if name == "x-xai-token-auth"@ {
            Some(
                match configured_header(auth_config, "x-xai-token-auth"@) {
                    Some(configured) => configured,
                    None => "xai-grok-cli"@,
                },
            )
        } else if name == "x-grok-client-version"@ {
            Some(
                match configured_header(auth_config, "x-grok-client-version"@) {
                    Some(configured) => configured,
                    None => "0.2.93"@,
                },
            )
        } else {
            None
        },
{
    law_user_agent();
    reveal_strlit("accept");
    reveal_strlit("content-type");
    reveal_strlit("user-agent");
    reveal_strlit("x-xai-token-auth");
    reveal_strlit("x-grok-client-version");
    assert("accept"@.len() == 6 && "content-type"@.len() == 12 && "user-agent"@.len() == 10);
    assert("x-xai-token-auth"@.len() == 16 && "x-grok-client-version"@.len() == 21);
}

/// The user agent names the client and its version.
pub proof fn law_user_agent()
    ensures
        user_agent() == "grok-pager/0.2.93 grok-shell/0.2.93 (macos; aarch64)"@,
{
    reveal_strlit("grok-pager/");
    reveal_strlit("0.2.93");
    reveal_strlit(" grok-shell/");
    reveal_strlit(" (macos; aarch64)");
    reveal_strlit("grok-pager/0.2.93 grok-shell/0.2.93 (macos; aarch64)");
    assert(user_agent() =~= "grok-pager/0.2.93 grok-shell/0.2.93 (macos; aarch64)"@);
}

// Configured headers
/// No header is configured where there is no `headers` object.
pub proof fn law_no_header_without_headers_object(auth_config: Option<Json>, name: Seq<char>)
    requires
        match auth_config {
            Some(Json::Object(members)) => !members.contains_key("headers"@)
                || !(members["headers"@] is Object),
            _ => true,
        },
    ensures
        configured_header(auth_config, name) is None,
{
}

/// No header is configured under a name that no member of `headers` has, in
/// whatever case.
pub proof fn law_no_header_without_its_name(
    members: Map<Seq<char>, Json>,
    configured: Map<Seq<char>, Json>,
    name: Seq<char>,
)
    requires
        members.contains_pair("headers"@, Json::Object(configured)),
        forall|key: Seq<char>| #[trigger] configured.contains_key(key) ==> lower(key) != lower(name),
    ensures
        configured_header(Some(Json::Object(members)), name) is None,
{
    assert forall|key: Seq<char>| !is_first_match(configured, name, key) by {}
}

/// The first of the members of `headers` with that name, in whatever case,
/// decides: its text without white space around it, and nothing where that is
/// empty or it is no text.
pub proof fn law_first_name_decides_a_header(
    members: Map<Seq<char>, Json>,
    configured: Map<Seq<char>, Json>,
    name: Seq<char>,
    key: Seq<char>,
)
    requires
        members.contains_pair("headers"@, Json::Object(configured)),
        configured.contains_key(key),
        lower(key) == lower(name),
        forall|other: Seq<char>| #[trigger]
            configured.contains_key(other) && lower(other) == lower(name) ==> other == key
                || precedes(key, other),
    ensures
        configured_header(Some(Json::Object(members)), name) == match configured[key] {
            Json::Text(text) => if trimmed(text).len() > 0 {
                Some(trimmed(text))
            } else {
                None
            },
            _ => None,
        },
{
    assert(is_first_match(configured, name, key));
    let chosen = choose|key: Seq<char>| is_first_match(configured, name, key);
    lemma_first_match_unique(configured, name, key, chosen);
}

} // verus!
