use grok_oauth::billing::{
    build_grok_oauth_billing_metadata, grok_oauth_auth_config, grok_oauth_auth_config_fits,
    grok_oauth_billing_body, grok_oauth_failure_message, grok_oauth_quota_invalid_state, parse_grok_oauth_billing_part,
    remove_grok_oauth_billing_window, ExecutionResult, GrokOAuthBillingPart,
    ProviderQuotaExecutionOutcome, ResponseBody, StoredProviderCatalogKey,
};
use serde_json::Value;

fn json(text: &str) -> Value {
    serde_json::from_str(text).unwrap()
}

fn sample_key() -> StoredProviderCatalogKey {
    StoredProviderCatalogKey {
        id: "key-1".to_string(),
        name: "key-1".to_string(),
        upstream_metadata: None,
        status_snapshot: None,
        oauth_invalid_at_unix_secs: None,
        oauth_invalid_reason: None,
    }
}

fn outcome(
    status_code: u16,
    json_body: Option<Value>,
    error_message: Option<&str>,
) -> ProviderQuotaExecutionOutcome {
    ProviderQuotaExecutionOutcome::Response(ExecutionResult {
        status_code,
        body: Some(ResponseBody { json_body }),
        error_message: error_message.map(str::to_string),
    })
}

fn successful_outcome(body: Value) -> ProviderQuotaExecutionOutcome {
    outcome(200, Some(body), None)
}

fn monthly_body() -> Value {
    json(r#"{"config":{"monthlyLimit":{"val":15000},"used":{"val":3000}}}"#)
}

fn monthly_billing() -> Value {
    json(r#"{"monthly_limit_cents":15000,"monthly_used_cents":3000,"monthly_used_percent":20.0}"#)
}

fn failed(window: &'static str, status_code: u16, message: Option<&str>) -> GrokOAuthBillingPart {
    GrokOAuthBillingPart {
        window,
        metadata: None,
        status_code,
        message: message.map(str::to_string),
    }
}

fn read(window: &'static str, metadata: &str) -> GrokOAuthBillingPart {
    GrokOAuthBillingPart {
        window,
        metadata: json(metadata).as_object().cloned(),
        status_code: 200,
        message: None,
    }
}

#[test]
fn billing_metadata_keeps_previous_window_on_partial_success() {
    let mut key = sample_key();
    key.upstream_metadata = Some(json(
        r#"{
            "grok_oauth": {
                "weekly_used_percent": 70.0,
                "weekly_reset_at": 2000000000,
                "monthly_used_percent": 10.0
            }
        }"#,
    ));
    let weekly = GrokOAuthBillingPart {
        window: "weekly",
        metadata: None,
        status_code: 503,
        message: Some("temporary".to_string()),
    };
    let monthly = parse_grok_oauth_billing_part(
        successful_outcome(json(
            r#"{"config":{"monthlyLimit":{"val":15000},"used":{"val":3000}}}"#,
        )),
        false,
        Some(monthly_billing()),
    );

    let metadata = build_grok_oauth_billing_metadata(&key, &weekly, &monthly, 1_800_000_000)
        .expect("partial metadata should build");
    assert_eq!(metadata["grok_oauth"]["weekly_used_percent"], Value::from(70.0));
    assert_eq!(metadata["grok_oauth"]["monthly_used_percent"], Value::from(20.0));
    assert_eq!(metadata["grok_oauth"]["partial"], Value::from(true));
    assert_eq!(
        metadata["grok_oauth"]["failed_windows"],
        Value::from(vec!["weekly"])
    );
}

#[test]
fn billing_403_is_retained_without_marking_oauth_invalid() {
    let key = sample_key();
    let weekly = GrokOAuthBillingPart {
        window: "weekly",
        metadata: None,
        status_code: 403,
        message: None,
    };
    let monthly = GrokOAuthBillingPart {
        window: "monthly",
        metadata: None,
        status_code: 403,
        message: None,
    };

    assert_eq!(
        grok_oauth_quota_invalid_state(&key, (None, None), &weekly, &monthly, 1_800_000_000),
        (None, None)
    );
}

#[test]
fn billing_401_marks_oauth_expired_only_when_no_window_succeeds() {
    let key = sample_key();
    let failed = GrokOAuthBillingPart {
        window: "weekly",
        metadata: None,
        status_code: 401,
        message: None,
    };
    let succeeded = parse_grok_oauth_billing_part(
        successful_outcome(json(
            r#"{"config":{"monthlyLimit":{"val":15000},"used":{"val":3000}}}"#,
        )),
        false,
        Some(monthly_billing()),
    );

    assert_eq!(
        grok_oauth_quota_invalid_state(&key, (None, None), &failed, &succeeded, 1_800_000_000),
        (None, None)
    );
    let monthly_failed = GrokOAuthBillingPart {
        window: "monthly",
        metadata: None,
        status_code: 401,
        message: None,
    };
    let invalid =
        grok_oauth_quota_invalid_state(&key, (None, None), &failed, &monthly_failed, 1_800_000_000);
    assert_eq!(invalid.0, Some(1_800_000_000));
    assert!(invalid
        .1
        .as_deref()
        .is_some_and(|reason| reason.starts_with("[OAUTH_EXPIRED] ")));
}

#[test]
fn expired_token_has_its_own_reason() {
    let key = sample_key();
    let state = grok_oauth_quota_invalid_state(
        &key,
        (Some(1), Some("success".to_string())),
        &failed("weekly", 403, None),
        &failed("monthly", 401, None),
        1_800_000_000,
    );
    assert_eq!(
        state,
        (
            Some(1_800_000_000),
            Some("[OAUTH_EXPIRED] Grok OAuth Token 无效或已过期".to_string())
        )
    );
}

#[test]
fn other_failures_leave_the_key_as_it_was() {
    let mut key = sample_key();
    key.oauth_invalid_at_unix_secs = Some(7);
    key.oauth_invalid_reason = Some("before".to_string());
    for status_code in [0, 403, 429, 500, 502] {
        assert_eq!(
            grok_oauth_quota_invalid_state(
                &key,
                (None, None),
                &failed("weekly", status_code, None),
                &failed("monthly", status_code, None),
                1_800_000_000,
            ),
            (Some(7), Some("before".to_string()))
        );
    }
}

#[test]
fn success_state_of_the_key_is_taken_over() {
    let key = sample_key();
    assert_eq!(
        grok_oauth_quota_invalid_state(
            &key,
            (Some(3), Some("kept".to_string())),
            &failed("weekly", 401, None),
            &read("monthly", "{}"),
            1_800_000_000,
        ),
        (Some(3), Some("kept".to_string()))
    );
}

#[test]
fn auth_config_is_parsed_without_white_space() {
    assert_eq!(
        grok_oauth_auth_config(&Some("  {\"headers\":{\"a\":\"b\"}}\u{3000}".to_string())),
        Some(json(r#"{"headers":{"a":"b"}}"#))
    );
    assert_eq!(grok_oauth_auth_config(&Some("[1, 2]".to_string())), Some(json("[1,2]")));
    assert_eq!(grok_oauth_auth_config(&Some(" \n ".to_string())), None);
    assert_eq!(grok_oauth_auth_config(&Some("not json".to_string())), None);
    assert_eq!(grok_oauth_auth_config(&Some("{} {}".to_string())), None);
    assert_eq!(grok_oauth_auth_config(&None), None);
}

#[test]
fn auth_config_of_ordinary_length_fits() {
    assert!(grok_oauth_auth_config_fits(&None));
    assert!(grok_oauth_auth_config_fits(&Some(String::new())));
    assert!(grok_oauth_auth_config_fits(&Some(" {} ".to_string())));
}

#[test]
fn body_is_read_of_good_answers_only() {
    let body = monthly_body();
    assert_eq!(grok_oauth_billing_body(&successful_outcome(monthly_body())), Some(&body));
    assert_eq!(grok_oauth_billing_body(&outcome(201, Some(monthly_body()), None)), None);
    assert_eq!(grok_oauth_billing_body(&outcome(200, None, None)), None);
    assert_eq!(
        grok_oauth_billing_body(&ProviderQuotaExecutionOutcome::Response(ExecutionResult {
            status_code: 200,
            body: None,
            error_message: None,
        })),
        None
    );
    assert_eq!(
        grok_oauth_billing_body(&ProviderQuotaExecutionOutcome::Failure("x".to_string())),
        None
    );
}

#[test]
fn failed_execution_counts_as_bad_gateway() {
    let part = parse_grok_oauth_billing_part(
        ProviderQuotaExecutionOutcome::Failure("timeout".to_string()),
        true,
        Some(monthly_billing()),
    );
    assert_eq!(part.window, "weekly");
    assert!(!part.succeeded());
    assert_eq!(part.status_code, 502);
    assert_eq!(
        part.message,
        Some("billing?format=credits 请求执行失败: timeout".to_string())
    );
}

#[test]
fn other_status_is_named_with_its_detail() {
    let part = parse_grok_oauth_billing_part(
        outcome(429, Some(monthly_body()), Some("slow down")),
        false,
        Some(monthly_billing()),
    );
    assert_eq!(part.window, "monthly");
    assert!(!part.succeeded());
    assert_eq!(part.status_code, 429);
    assert_eq!(part.message, Some("billing 返回状态码 429: slow down".to_string()));
    for detail in [None, Some("")] {
        let part = parse_grok_oauth_billing_part(outcome(503, None, detail), true, None);
        assert_eq!(
            part.message,
            Some("billing?format=credits 返回状态码 503".to_string())
        );
    }
}

#[test]
fn good_answer_without_usage_says_so() {
    for (body, parsed) in [
        (Some(monthly_body()), None),
        (Some(monthly_body()), Some(json("[1]"))),
        (None, Some(monthly_billing())),
    ] {
        let part = parse_grok_oauth_billing_part(outcome(200, body, None), false, parsed);
        assert!(!part.succeeded());
        assert_eq!(part.status_code, 200);
        assert_eq!(part.message, Some("billing 响应中未包含额度信息".to_string()));
    }
}

#[test]
fn good_answer_with_usage_is_read() {
    let part = parse_grok_oauth_billing_part(
        successful_outcome(monthly_body()),
        false,
        Some(monthly_billing()),
    );
    assert!(part.succeeded());
    assert_eq!(part.window, "monthly");
    assert_eq!(part.status_code, 200);
    assert_eq!(part.message, None);
    assert_eq!(part.metadata.as_ref(), monthly_billing().as_object());
}

#[test]
fn removed_window_takes_its_fields_along() {
    let text = r#"{
        "weekly_used_percent": 1, "weekly_period_type": 1, "weekly_period_start": 1,
        "weekly_period_end": 1, "weekly_reset_at": 1, "weekly_product_usage": 1,
        "weekly_updated_at": 1, "monthly_limit_cents": 2, "monthly_used_cents": 2,
        "monthly_included_used_cents": 2, "monthly_used_percent": 2, "monthly_period_start": 2,
        "monthly_period_end": 2, "monthly_reset_at": 2, "monthly_updated_at": 2,
        "plan_type": 2, "weekly_status_code": 3, "updated_at": 3, "email": 3
    }"#;
    let mut metadata = json(text).as_object().cloned().unwrap();
    remove_grok_oauth_billing_window(&mut metadata, true);
    assert_eq!(metadata.len(), 12);
    assert!(metadata.values().all(|value| value != &Value::from(1)));
    remove_grok_oauth_billing_window(&mut metadata, true);
    assert_eq!(metadata.len(), 12);
    remove_grok_oauth_billing_window(&mut metadata, false);
    assert_eq!(
        Value::Object(metadata),
        json(r#"{"weekly_status_code":3,"updated_at":3,"email":3}"#)
    );
}

#[test]
fn windows_are_removed_in_either_order() {
    let text = r#"{"weekly_used_percent":1,"plan_type":2,"monthly_reset_at":3,"partial":true}"#;
    let mut first = json(text).as_object().cloned().unwrap();
    remove_grok_oauth_billing_window(&mut first, true);
    remove_grok_oauth_billing_window(&mut first, false);
    let mut second = json(text).as_object().cloned().unwrap();
    remove_grok_oauth_billing_window(&mut second, false);
    remove_grok_oauth_billing_window(&mut second, true);
    assert_eq!(first, second);
    assert_eq!(Value::Object(first), json(r#"{"partial":true}"#));
}

#[test]
fn metadata_of_a_full_success_is_complete() {
    let mut key = sample_key();
    key.upstream_metadata = Some(json(
        r#"{"grok_oauth":{"weekly_used_percent":70.0,"weekly_reset_at":5,"plan_type":"old",
            "monthly_used_percent":10.0,"email":"a@example.com","partial":true},"other":{"x":1}}"#,
    ));
    let metadata = build_grok_oauth_billing_metadata(
        &key,
        &read("weekly", r#"{"weekly_used_percent":1.5}"#),
        &read("monthly", r#"{"monthly_used_percent":2.5,"plan_type":"new"}"#),
        1_800_000_000,
    );
    assert_eq!(
        metadata,
        Some(json(
            r#"{"grok_oauth":{"weekly_used_percent":1.5,"monthly_used_percent":2.5,
                "plan_type":"new","email":"a@example.com","updated_at":1800000000,
                "source":"billing_probe","weekly_status_code":200,"monthly_status_code":200,
                "partial":false,"failed_windows":[]}}"#,
        ))
    );
}

#[test]
fn metadata_of_an_unknown_account_starts_empty() {
    for stored in [None, Some("null"), Some("[]"), Some(r#"{"grok_oauth":7}"#), Some("{}")] {
        let mut key = sample_key();
        key.upstream_metadata = stored.map(json);
        let metadata = build_grok_oauth_billing_metadata(
            &key,
            &read("weekly", r#"{"weekly_used_percent":1.5}"#),
            &failed("monthly", 500, Some("x")),
            9,
        );
        assert_eq!(
            metadata,
            Some(json(
                r#"{"grok_oauth":{"weekly_used_percent":1.5,"updated_at":9,
                    "source":"billing_probe","weekly_status_code":200,"monthly_status_code":500,
                    "partial":true,"failed_windows":["monthly"]}}"#,
            ))
        );
    }
}

#[test]
fn no_metadata_without_a_read_window() {
    let key = sample_key();
    assert_eq!(
        build_grok_oauth_billing_metadata(
            &key,
            &failed("weekly", 500, None),
            &failed("monthly", 200, None),
            1,
        ),
        None
    );
}

#[test]
fn refreshing_again_with_the_same_answers_changes_nothing() {
    let mut key = sample_key();
    key.upstream_metadata = Some(json(
        r#"{"grok_oauth":{"weekly_used_percent":70.0,"monthly_used_percent":10.0,"email":"e"}}"#,
    ));
    let weekly = read("weekly", r#"{"weekly_used_percent":3.0,"weekly_reset_at":8}"#);
    let monthly = failed("monthly", 429, Some("x"));
    let once = build_grok_oauth_billing_metadata(&key, &weekly, &monthly, 11);
    key.upstream_metadata = once.clone();
    assert_eq!(build_grok_oauth_billing_metadata(&key, &weekly, &monthly, 11), once);
}

#[test]
fn failure_message_names_each_window() {
    let weekly = failed("weekly", 500, Some("a"));
    let monthly = failed("monthly", 500, Some("b"));
    let good = read("monthly", "{}");
    assert_eq!(
        grok_oauth_failure_message(&weekly, &monthly),
        Some("weekly: a；monthly: b".to_string())
    );
    assert_eq!(grok_oauth_failure_message(&weekly, &good), Some("weekly: a".to_string()));
    assert_eq!(grok_oauth_failure_message(&good, &monthly), Some("monthly: b".to_string()));
    assert_eq!(grok_oauth_failure_message(&good, &good), None);
}
