use grok_oauth::request::{
    auth_config_header, build_grok_oauth_pool_billing_request, grok_oauth_base_url_fits,
    grok_oauth_billing_request_to, grok_oauth_billing_url, grok_oauth_billing_url_for,
    grok_oauth_billing_user_agent, grok_oauth_url_fits,
    try_build_grok_oauth_pool_billing_request, GROK_OAUTH_DEFAULT_BASE_URL,
};
use serde_json::Value;
use url::Url;

fn json(text: &str) -> Value {
    serde_json::from_str(text).unwrap()
}

fn url_of(base_url: &str, weekly: bool) -> Result<String, String> {
    assert!(grok_oauth_base_url_fits(base_url, weekly));
    grok_oauth_billing_url(base_url, weekly)
}

fn ok(url: &str) -> Result<String, String> {
    Ok(url.to_string())
}

fn authorization() -> (String, String) {
    ("Authorization".to_string(), "Bearer token-1".to_string())
}

#[test]
fn blank_base_url_is_the_default_one() {
    for blank in ["", "  ", "\t\u{3000}\n", GROK_OAUTH_DEFAULT_BASE_URL] {
        assert_eq!(
            url_of(blank, true),
            ok("https://cli-chat-proxy.grok.com/v1/billing?format=credits")
        );
        assert_eq!(url_of(blank, false), ok("https://cli-chat-proxy.grok.com/v1/billing"));
    }
}

#[test]
fn billing_url_keeps_origin_and_path() {
    assert_eq!(url_of("  https://example.com/v1///  ", false), ok("https://example.com/v1/billing"));
    assert_eq!(
        url_of("https://user:pw@example.com:8443/a/./b/../c/?x=1#frag", true),
        ok("https://user:pw@example.com:8443/a/c/billing?format=credits")
    );
    assert_eq!(url_of("HTTP://EXAMPLE.com", false), ok("http://example.com/billing"));
    assert_eq!(url_of("http://example.com:80/", true), ok("http://example.com/billing?format=credits"));
    assert_eq!(url_of("https://example.com/a b", false), ok("https://example.com/a%20b/billing"));
    assert_eq!(url_of("https:\\\\example.com\\v1\\", false), ok("https://example.com/v1/billing"));
    assert_eq!(url_of("https://example.com/%2E%2e/x", false), ok("https://example.com/x/billing"));
    assert_eq!(url_of("https://[::1]:9/v1", false), ok("https://[::1]:9/v1/billing"));
    assert_eq!(url_of("https://example.com/v1?", false), ok("https://example.com/v1/billing"));
    assert_eq!(url_of("https://example.com/v1#", true), ok("https://example.com/v1/billing?format=credits"));
    assert_eq!(url_of("https://example.com/^|a%zz//b//", false), ok("https://example.com/^|a%zz//b/billing"));
    assert_eq!(url_of("https://例え.jp/{v}", false), ok("https://xn--r8jz45g.jp/%7Bv%7D/billing"));
}

#[test]
fn weekly_url_is_the_monthly_one_with_a_query() {
    for base_url in ["", "https://u:p@example.com:8443/a//?b#c", "http://[::1]/", "HTTP://A/%41"] {
        let monthly = url_of(base_url, false).unwrap();
        assert_eq!(url_of(base_url, true), Ok(format!("{monthly}?format=credits")));
        assert!(monthly.ends_with("/billing"));
        assert!(!monthly.contains('?') && !monthly.contains('#'));
        let parsed = Url::parse(if base_url.is_empty() { GROK_OAUTH_DEFAULT_BASE_URL } else { base_url })
            .unwrap();
        let billing = Url::parse(&monthly).unwrap();
        assert_eq!(billing.scheme(), parsed.scheme());
        assert_eq!(billing.authority(), parsed.authority());
    }
}

#[test]
fn query_and_fragment_of_the_base_url_make_no_difference() {
    for base_url in [
        "https://example.com/v1",
        "https://example.com/v1/",
        "https://example.com/v1//",
        "https://example.com/v1?format=other",
        "https://example.com/v1#top",
        "https://example.com/v1/?a#b?c",
        "https://example.com/v1#a?b",
    ] {
        assert_eq!(url_of(base_url, true), ok("https://example.com/v1/billing?format=credits"));
        assert_eq!(url_of(base_url, false), ok("https://example.com/v1/billing"));
    }
}

#[test]
fn base_url_has_to_be_one_of_the_web() {
    for invalid in ["not a url", "//example.com", "https://", "https://exa mple.com", "/v1"] {
        assert_eq!(url_of(invalid, true), Err("Grok OAuth base_url 无效".to_string()));
        assert_eq!(url_of(invalid, false), Err("Grok OAuth base_url 无效".to_string()));
    }
    for other in ["ftp://example.com/v1", "mailto:a@example.com", "file:///v1", "httpx://a", "ws://a"] {
        assert_eq!(url_of(other, true), Err("Grok OAuth base_url 仅支持 http/https".to_string()));
    }
}

#[test]
fn billing_url_follows_from_the_parsed_base_url() {
    for text in ["https://example.com/v1/#x", "http://a//?b#", "http://a", "ftp://a/b#c?d", "a:b"] {
        let parsed = Url::parse(text).unwrap();
        assert!(grok_oauth_url_fits(&parsed, true));
        assert!(grok_oauth_url_fits(&parsed, false));
    }
    assert_eq!(
        grok_oauth_billing_url_for(Url::parse("https://example.com/v1/#x").ok(), true),
        ok("https://example.com/v1/billing?format=credits")
    );
    assert_eq!(
        grok_oauth_billing_url_for(Url::parse("ftp://example.com").ok(), true),
        Err("Grok OAuth base_url 仅支持 http/https".to_string())
    );
    assert_eq!(grok_oauth_billing_url_for(None, false), Err("Grok OAuth base_url 无效".to_string()));
}

#[test]
fn user_agent_names_the_version_twice() {
    assert_eq!(
        grok_oauth_billing_user_agent(),
        "grok-pager/0.2.93 grok-shell/0.2.93 (macos; aarch64)"
    );
}

#[test]
fn configured_header_is_found_in_any_case() {
    let config = json(r#"{"headers":{"X-XAI-Token-Auth":"  custom  ","other":"o","n":1,"blank":" "}}"#);
    assert_eq!(
        auth_config_header(Some(&config), "x-xai-token-auth"),
        Some("custom".to_string())
    );
    assert_eq!(auth_config_header(Some(&config), "X-XAI-TOKEN-AUTH"), Some("custom".to_string()));
    assert_eq!(auth_config_header(Some(&config), "OTHER"), Some("o".to_string()));
    assert_eq!(auth_config_header(Some(&config), "n"), None);
    assert_eq!(auth_config_header(Some(&config), "blank"), None);
    assert_eq!(auth_config_header(Some(&config), "absent"), None);
    assert_eq!(auth_config_header(None, "other"), None);
}

#[test]
fn configured_header_comes_from_the_headers_object_alone() {
    assert_eq!(auth_config_header(Some(&json(r#"{"other":"o"}"#)), "other"), None);
    assert_eq!(auth_config_header(Some(&json(r#"{"headers":["other","o"]}"#)), "other"), None);
    assert_eq!(auth_config_header(Some(&json(r#"{"headers":"other"}"#)), "other"), None);
    assert_eq!(auth_config_header(Some(&json(r#"["headers"]"#)), "other"), None);
    assert_eq!(auth_config_header(Some(&Value::Null), "other"), None);
}

#[test]
fn first_name_in_order_decides_a_configured_header() {
    let config = json(r#"{"headers":{"x-a":"lower","X-A":"upper","X-a":"mixed"}}"#);
    assert_eq!(auth_config_header(Some(&config), "x-a"), Some("upper".to_string()));
    let config = json(r#"{"headers":{"x-a":"lower","X-A":" "}}"#);
    assert_eq!(auth_config_header(Some(&config), "x-a"), None);
    let config = json(r#"{"headers":{"x-a":"lower","X-A":7}}"#);
    assert_eq!(auth_config_header(Some(&config), "x-a"), None);
}

#[test]
fn weekly_billing_request_is_complete() {
    let request = build_grok_oauth_pool_billing_request(
        "key-1",
        "https://example.com/v1/",
        (" Authorization ".to_string(), "\tBearer token-1\n".to_string()),
        None,
        true,
    )
    .unwrap();
    assert_eq!(request.request_id, "grok-oauth-billing-weekly:key-1");
    assert_eq!(request.provider_name, "grok_oauth");
    assert_eq!(request.quota_kind, "grok_oauth_billing_weekly");
    assert_eq!(request.method, "GET");
    assert_eq!(request.url, "https://example.com/v1/billing?format=credits");
    assert_eq!(request.content_type, None);
    assert_eq!(request.json_body, None);
    assert_eq!(request.client_api_format, "openai:responses");
    assert_eq!(request.provider_api_format, "grok_oauth:billing");
    assert_eq!(request.model_name, Some("grok-oauth-billing-weekly".to_string()));
    assert!(!request.accept_invalid_certs);
    let lines: Vec<(&str, &str)> = request
        .headers
        .entries
        .iter()
        .map(|entry| (entry.0.as_str(), entry.1.as_str()))
        .collect();
    assert_eq!(
        lines,
        vec![
            ("accept", "application/json"),
            ("authorization", "Bearer token-1"),
            ("content-type", "application/json"),
            ("user-agent", "grok-pager/0.2.93 grok-shell/0.2.93 (macos; aarch64)"),
            ("x-grok-client-version", "0.2.93"),
            ("x-xai-token-auth", "xai-grok-cli"),
        ]
    );
}

#[test]
fn monthly_billing_request_differs_in_window_and_url() {
    let request =
        build_grok_oauth_pool_billing_request("key-2", "", authorization(), None, false).unwrap();
    assert_eq!(request.request_id, "grok-oauth-billing-monthly:key-2");
    assert_eq!(request.quota_kind, "grok_oauth_billing_monthly");
    assert_eq!(request.url, "https://cli-chat-proxy.grok.com/v1/billing");
    assert_eq!(request.model_name, Some("grok-oauth-billing-monthly".to_string()));
}

#[test]
fn configuration_sets_token_kind_and_client_version() {
    let config = json(
        r#"{"headers":{"X-Xai-Token-Auth":"other-cli","X-GROK-CLIENT-VERSION":"9.9","user-agent":"mine"}}"#,
    );
    let request = grok_oauth_billing_request_to(
        "key-1",
        "https://example.com/billing".to_string(),
        &authorization(),
        Some(&config),
        false,
    );
    let get = |name: &str| request.headers.get(name).map(String::as_str);
    assert_eq!(get("x-xai-token-auth"), Some("other-cli"));
    assert_eq!(get("x-grok-client-version"), Some("9.9"));
    assert_eq!(get("user-agent"), Some("grok-pager/0.2.93 grok-shell/0.2.93 (macos; aarch64)"));
    assert_eq!(request.url, "https://example.com/billing");
}

#[test]
fn authorization_is_the_last_word_on_its_name() {
    let request = build_grok_oauth_pool_billing_request(
        "key-1",
        "",
        ("User-AGENT".to_string(), "secret".to_string()),
        None,
        true,
    )
    .unwrap();
    assert_eq!(request.headers.get("user-agent").map(String::as_str), Some("secret"));
    assert_eq!(request.headers.entries.len(), 5);
}

#[test]
fn no_request_is_made_without_authorization() {
    for (name, value) in [("", "Bearer x"), ("authorization", " \t"), (" ", " ")] {
        for base_url in ["", "not a url", "ftp://example.com"] {
            let refused = build_grok_oauth_pool_billing_request(
                "key-1",
                base_url,
                (name.to_string(), value.to_string()),
                None,
                true,
            );
            assert_eq!(
                refused.err(),
                Some("缺少 Grok OAuth 认证信息，请先授权/刷新 Token".to_string())
            );
        }
    }
}

#[test]
fn base_url_without_billing_url_fails_both_windows_alike() {
    for weekly in [true, false] {
        assert_eq!(
            build_grok_oauth_pool_billing_request("k", "not a url", authorization(), None, weekly)
                .err(),
            Some("Grok OAuth base_url 无效".to_string())
        );
        assert_eq!(
            build_grok_oauth_pool_billing_request("k", "ftp://a/", authorization(), None, weekly)
                .err(),
            Some("Grok OAuth base_url 仅支持 http/https".to_string())
        );
    }
}

#[test]
fn tried_request_is_the_request() {
    let tried =
        try_build_grok_oauth_pool_billing_request("k", "http://a/b", authorization(), None, true);
    assert_eq!(tried.unwrap().unwrap().url, "http://a/b/billing?format=credits");
    let tried =
        try_build_grok_oauth_pool_billing_request("k", "b", authorization(), None, true).unwrap();
    assert_eq!(tried.err(), Some("Grok OAuth base_url 无效".to_string()));
}
