use grok_oauth::billing::{
    ExecutionResult, ProviderQuotaExecutionOutcome, ResponseBody, StoredProviderCatalogKey,
};
use grok_oauth::refresh::{QuotaRefresh, RefreshAction, RefreshEvent};
use serde_json::Value;

fn json(text: &str) -> Value {
    serde_json::from_str(text).unwrap()
}

fn key(id: &str) -> StoredProviderCatalogKey {
    StoredProviderCatalogKey {
        id: id.to_string(),
        name: format!("name of {id}"),
        upstream_metadata: None,
        status_snapshot: None,
        oauth_invalid_at_unix_secs: Some(5),
        oauth_invalid_reason: Some("before".to_string()),
    }
}

fn start(base_url: &str, keys: Vec<StoredProviderCatalogKey>) -> (QuotaRefresh, RefreshAction) {
    QuotaRefresh::start(
        "provider-1".to_string(),
        "endpoint-1".to_string(),
        base_url.to_string(),
        false,
        keys,
    )
}

fn answered(status_code: u16, body: Option<&str>) -> ProviderQuotaExecutionOutcome {
    ProviderQuotaExecutionOutcome::Response(ExecutionResult {
        status_code,
        body: Some(ResponseBody { json_body: body.map(json) }),
        error_message: None,
    })
}

fn transport_read() -> RefreshEvent {
    RefreshEvent::TransportRead {
        decrypted_auth_config: Some(r#" {"headers":{"X-Grok-Client-Version":"7"}} "#.to_string()),
    }
}

fn authorized() -> RefreshEvent {
    RefreshEvent::AuthorizationResolved {
        name: "Authorization".to_string(),
        value: "Bearer token-1".to_string(),
    }
}

fn executed(weekly_status: u16, monthly_status: u16) -> RefreshEvent {
    RefreshEvent::Executed {
        weekly: answered(weekly_status, Some("{}")),
        weekly_billing: Some(json(r#"{"weekly_used_percent":1.5}"#)),
        monthly: answered(monthly_status, Some("{}")),
        monthly_billing: Some(json(r#"{"monthly_used_percent":2.5}"#)),
        now_unix_secs: Some(1_800_000_000),
        success_invalid_at: None,
        success_invalid_reason: Some("after".to_string()),
    }
}

fn at_execution(base_url: &str) -> (QuotaRefresh, RefreshAction) {
    let (refresh, _) = start(base_url, vec![key("key-1")]);
    let (refresh, _) = refresh.advance(transport_read());
    refresh.advance(authorized())
}

fn finished(refresh: QuotaRefresh, action: RefreshAction) -> Value {
    assert!(matches!(action, RefreshAction::Finish));
    assert!(refresh.current_key().is_none());
    refresh.into_summary()
}

#[test]
fn refresh_of_no_keys_is_finished() {
    let (refresh, action) = start("", vec![]);
    assert_eq!(
        finished(refresh, action),
        json(
            r#"{"success":0,"failed":0,"total":0,"results":[],"message":"已处理 0 个 Key",
                "auto_removed":0}"#
        )
    );
}

#[test]
fn refresh_starts_with_the_transport_of_the_first_key() {
    let (refresh, action) = start("", vec![key("key-1"), key("key-2")]);
    match action {
        RefreshAction::ReadTransport { provider_id, endpoint_id, key_id } => {
            assert_eq!(provider_id, "provider-1");
            assert_eq!(endpoint_id, "endpoint-1");
            assert_eq!(key_id, "key-1");
        }
        other => panic!("{other:?}"),
    }
    assert_eq!(refresh.current_key().map(|key| key.id.as_str()), Some("key-1"));
}

#[test]
fn missing_transport_fails_the_key() {
    let (refresh, _) = start("", vec![key("key-1")]);
    let (refresh, action) = refresh.advance(RefreshEvent::TransportMissing);
    assert_eq!(
        finished(refresh, action),
        json(
            r#"{"success":0,"failed":1,"total":1,"results":[{"key_id":"key-1",
                "key_name":"name of key-1","status":"error",
                "message":"Provider transport snapshot unavailable"}],
                "message":"已处理 1 个 Key","auto_removed":0}"#
        )
    );
}

#[test]
fn key_without_authorization_fails_unless_it_was_removed() {
    let (refresh, _) = start("", vec![key("key-1"), key("key-2")]);
    let (refresh, action) = refresh.advance(transport_read());
    assert!(matches!(action, RefreshAction::ResolveAuthorization));
    let (refresh, action) = refresh.advance(RefreshEvent::AuthorizationMissing);
    match action {
        RefreshAction::CheckRemoval { key_id } => assert_eq!(key_id, "key-1"),
        other => panic!("{other:?}"),
    }
    let removed = json(r#"{"key_id":"key-1","status":"auto_removed"}"#);
    let (refresh, action) = refresh.advance(RefreshEvent::KeyRemoved { result: removed.clone() });
    match action {
        RefreshAction::ReadTransport { key_id, .. } => assert_eq!(key_id, "key-2"),
        other => panic!("{other:?}"),
    }
    let (refresh, _) = refresh.advance(transport_read());
    let (refresh, _) = refresh.advance(RefreshEvent::AuthorizationMissing);
    let (refresh, action) = refresh.advance(RefreshEvent::KeyPresent);
    let summary = finished(refresh, action);
    assert_eq!(summary["auto_removed"], Value::from(1));
    assert_eq!(summary["failed"], Value::from(1));
    assert_eq!(summary["success"], Value::from(0));
    assert_eq!(summary["total"], Value::from(2));
    assert_eq!(summary["results"][0], removed);
    assert_eq!(
        summary["results"][1],
        json(
            r#"{"key_id":"key-2","key_name":"name of key-2","status":"error",
                "message":"缺少 Grok OAuth 认证信息，请先授权/刷新 Token"}"#
        )
    );
}

#[test]
fn authorized_key_is_asked_for_both_windows() {
    let (_, action) = at_execution("https://example.com/v1");
    match action {
        RefreshAction::Execute { weekly, weekly_probe, monthly, monthly_probe, resolve_proxy } => {
            assert_eq!(weekly.url, "https://example.com/v1/billing?format=credits");
            assert_eq!(weekly.request_id, "grok-oauth-billing-weekly:key-1");
            assert_eq!(
                weekly.headers.get("x-grok-client-version").map(String::as_str),
                Some("7")
            );
            assert_eq!(weekly_probe, "grok_oauth_weekly");
            assert_eq!(monthly.url, "https://example.com/v1/billing");
            assert_eq!(
                monthly.headers.get("authorization").map(String::as_str),
                Some("Bearer token-1")
            );
            assert_eq!(monthly_probe, "grok_oauth_monthly");
            assert!(resolve_proxy);
        }
        other => panic!("{other:?}"),
    }
}

#[test]
fn proxy_of_the_caller_is_used_where_it_is_set() {
    let (refresh, _) = QuotaRefresh::start(
        "provider-1".to_string(),
        "endpoint-1".to_string(),
        String::new(),
        true,
        vec![key("key-1")],
    );
    let (refresh, _) = refresh.advance(RefreshEvent::TransportRead { decrypted_auth_config: None });
    let (_, action) = refresh.advance(authorized());
    match action {
        RefreshAction::Execute { resolve_proxy, .. } => assert!(!resolve_proxy),
        other => panic!("{other:?}"),
    }
}

#[test]
fn request_that_cannot_be_made_fails_the_key() {
    for (base_url, message) in [
        ("not a url", "Grok OAuth base_url 无效"),
        ("ftp://example.com", "Grok OAuth base_url 仅支持 http/https"),
    ] {
        let (refresh, action) = at_execution(base_url);
        let summary = finished(refresh, action);
        assert_eq!(summary["failed"], Value::from(1));
        assert_eq!(summary["results"][0]["status"], Value::from("error"));
        assert_eq!(summary["results"][0]["message"], Value::from(message));
    }
}

#[test]
fn blank_authorization_fails_the_key() {
    let (refresh, _) = start("", vec![key("key-1")]);
    let (refresh, _) = refresh.advance(transport_read());
    let (refresh, action) = refresh.advance(RefreshEvent::AuthorizationResolved {
        name: "authorization".to_string(),
        value: " ".to_string(),
    });
    let summary = finished(refresh, action);
    assert_eq!(
        summary["results"][0]["message"],
        Value::from("缺少 Grok OAuth 认证信息，请先授权/刷新 Token")
    );
}

#[test]
fn full_success_is_stored_and_reported() {
    let (refresh, _) = at_execution("");
    let (refresh, action) = refresh.advance(executed(200, 200));
    let stored = json(
        r#"{"weekly_used_percent":1.5,"monthly_used_percent":2.5,"updated_at":1800000000,
            "source":"billing_probe","weekly_status_code":200,"monthly_status_code":200,
            "partial":false,"failed_windows":[]}"#,
    );
    match action {
        RefreshAction::Persist {
            key_id,
            metadata_update,
            oauth_invalid_at,
            oauth_invalid_reason,
        } => {
            assert_eq!(key_id, "key-1");
            assert_eq!(metadata_update.unwrap()["grok_oauth"], stored);
            assert_eq!(oauth_invalid_at, None);
            assert_eq!(oauth_invalid_reason, Some("after".to_string()));
        }
        other => panic!("{other:?}"),
    }
    let (refresh, action) =
        refresh.advance(RefreshEvent::Persisted { quota_snapshot: Some(json(r#"{"q":1}"#)) });
    let summary = finished(refresh, action);
    assert_eq!(summary["success"], Value::from(1));
    assert_eq!(summary["message"], Value::from("已处理 1 个 Key"));
    let result = &summary["results"][0];
    assert_eq!(result.as_object().unwrap().len(), 6);
    assert_eq!(result["key_id"], Value::from("key-1"));
    assert_eq!(result["key_name"], Value::from("name of key-1"));
    assert_eq!(result["status"], Value::from("success"));
    assert_eq!(result["partial"], Value::from(false));
    assert_eq!(result["metadata"], stored);
    assert_eq!(result["quota_snapshot"], json(r#"{"q":1}"#));
}

#[test]
fn partial_success_is_a_success_with_a_message() {
    let (refresh, _) = at_execution("");
    let (refresh, _) = refresh.advance(executed(503, 200));
    let (refresh, action) = refresh.advance(RefreshEvent::Persisted { quota_snapshot: None });
    let summary = finished(refresh, action);
    assert_eq!(summary["success"], Value::from(1));
    assert_eq!(summary["failed"], Value::from(0));
    let result = &summary["results"][0];
    assert_eq!(result["status"], Value::from("success"));
    assert_eq!(result["partial"], Value::from(true));
    assert_eq!(
        result["message"],
        Value::from("weekly: billing?format=credits 返回状态码 503")
    );
    assert_eq!(result["metadata"]["failed_windows"], json(r#"["weekly"]"#));
    assert!(result.get("quota_snapshot").is_none());
}

#[test]
fn refused_windows_are_stored_as_a_failure() {
    for (status, invalid_at, invalid_reason) in [
        (403, Some(5), "before"),
        (401, Some(1_800_000_000), "[OAUTH_EXPIRED] Grok OAuth Token 无效或已过期"),
    ] {
        let (refresh, _) = at_execution("");
        let (refresh, action) = refresh.advance(executed(status, status));
        match action {
            RefreshAction::Persist {
                metadata_update,
                oauth_invalid_at,
                oauth_invalid_reason,
                ..
            } => {
                assert_eq!(metadata_update, None);
                assert_eq!(oauth_invalid_at, invalid_at);
                assert_eq!(oauth_invalid_reason, Some(invalid_reason.to_string()));
            }
            other => panic!("{other:?}"),
        }
        let (refresh, action) = refresh.advance(RefreshEvent::Persisted { quota_snapshot: None });
        let summary = finished(refresh, action);
        assert_eq!(summary["success"], Value::from(0));
        assert_eq!(summary["failed"], Value::from(1));
        let result = &summary["results"][0];
        assert_eq!(result["status"], Value::from("error"));
        assert_eq!(result["partial"], Value::from(false));
        assert_eq!(
            result["message"],
            Value::from(format!(
                "weekly: billing?format=credits 返回状态码 {status}；monthly: billing 返回状态码 {status}"
            ))
        );
        assert!(result.get("metadata").is_none());
    }
}

#[test]
fn unknown_time_counts_as_the_epoch() {
    let (refresh, _) = at_execution("");
    let (_, action) = refresh.advance(RefreshEvent::Executed {
        weekly: answered(401, None),
        weekly_billing: None,
        monthly: ProviderQuotaExecutionOutcome::Failure("down".to_string()),
        monthly_billing: None,
        now_unix_secs: None,
        success_invalid_at: None,
        success_invalid_reason: None,
    });
    match action {
        RefreshAction::Persist { oauth_invalid_at, .. } => assert_eq!(oauth_invalid_at, Some(0)),
        other => panic!("{other:?}"),
    }
}

#[test]
fn state_that_cannot_be_stored_fails_the_key() {
    let (refresh, _) = at_execution("");
    let (refresh, _) = refresh.advance(executed(200, 200));
    let (refresh, action) = refresh.advance(RefreshEvent::PersistFailed);
    let summary = finished(refresh, action);
    assert_eq!(summary["success"], Value::from(0));
    assert_eq!(summary["failed"], Value::from(1));
    assert_eq!(
        summary["results"][0],
        json(
            r#"{"key_id":"key-1","key_name":"name of key-1","status":"error",
                "message":"Key 状态写入失败"}"#
        )
    );
}

#[test]
fn event_out_of_turn_changes_nothing() {
    let (refresh, _) = start("", vec![key("key-1")]);
    for event in [
        RefreshEvent::AuthorizationMissing,
        authorized(),
        RefreshEvent::KeyPresent,
        RefreshEvent::KeyRemoved { result: Value::Null },
        executed(200, 200),
        RefreshEvent::PersistFailed,
        RefreshEvent::Persisted { quota_snapshot: None },
    ] {
        let (refresh, _) = start("", vec![key("key-1")]);
        let (refresh, action) = refresh.advance(event);
        assert!(matches!(action, RefreshAction::OutOfTurn));
        assert!(refresh.results.is_empty());
        let (_, action) = refresh.advance(transport_read());
        assert!(matches!(action, RefreshAction::ResolveAuthorization));
    }
    let (refresh, _) = refresh.advance(RefreshEvent::TransportMissing);
    let (refresh, action) = refresh.advance(RefreshEvent::TransportMissing);
    assert!(matches!(action, RefreshAction::OutOfTurn));
    assert_eq!(refresh.into_summary()["total"], Value::from(1));
}

#[test]
fn every_key_is_counted_once_within_four_answers() {
    let (mut refresh, mut action) =
        start("", vec![key("key-1"), key("key-2"), key("key-3"), key("key-4")]);
    let mut answers = 0;
    loop {
        let id = refresh.current_key().map(|key| key.id.clone()).unwrap_or_default();
        let event = match action {
            RefreshAction::ReadTransport { .. } => {
                if id == "key-2" {
                    RefreshEvent::TransportMissing
                } else {
                    transport_read()
                }
            }
            RefreshAction::ResolveAuthorization => {
                if id == "key-3" {
                    RefreshEvent::AuthorizationMissing
                } else {
                    authorized()
                }
            }
            RefreshAction::CheckRemoval { .. } => {
                RefreshEvent::KeyRemoved { result: json(r#"{"key_id":"key-3"}"#) }
            }
            RefreshAction::Execute { .. } => {
                if id == "key-4" {
                    executed(500, 500)
                } else {
                    executed(200, 500)
                }
            }
            RefreshAction::Persist { .. } => RefreshEvent::Persisted { quota_snapshot: None },
            RefreshAction::Finish => break,
            RefreshAction::BaseUrlTooLong
            | RefreshAction::AuthConfigTooLong
            | RefreshAction::OutOfTurn => unreachable!(),
        };
        answers += 1;
        (refresh, action) = refresh.advance(event);
    }
    assert!(answers <= 16);
    let summary = refresh.into_summary();
    assert_eq!(summary["success"], Value::from(1));
    assert_eq!(summary["failed"], Value::from(2));
    assert_eq!(summary["auto_removed"], Value::from(1));
    assert_eq!(summary["total"], Value::from(4));
    assert_eq!(summary["message"], Value::from("已处理 4 个 Key"));
    let ids: Vec<&str> = summary["results"]
        .as_array()
        .unwrap()
        .iter()
        .map(|result| result["key_id"].as_str().unwrap())
        .collect();
    assert_eq!(ids, vec!["key-1", "key-2", "key-3", "key-4"]);
    let statuses: Vec<Option<&str>> = summary["results"]
        .as_array()
        .unwrap()
        .iter()
        .map(|result| result["status"].as_str())
        .collect();
    assert_eq!(statuses, vec![Some("success"), Some("error"), None, Some("error")]);
}
