//! What is seen of a value is all that it holds: each law says, field by field,
//! how a value is read.
use crate::billing::{
    body_json, opt_members, ExecutionResult, GrokOAuthBillingPart, PartView,
    ProviderQuotaExecutionOutcome, OutcomeView, ResponseBody, StoredProviderCatalogKey,
    OAUTH_EXPIRED_PREFIX, TOKEN_EXPIRED,
};
use crate::headers::{header_pairs, named_at, Headers};
use crate::json::{
    is_listing, json_of, jsons_of, listing_of, member_of, members_in, members_of, no_members,
    opt_json, opt_json_ref, Json,
};
use crate::link::{opt_query, opt_url_text, url_text};
use crate::refresh::{
    key_views, ActionView, EventView, QuotaRefresh, RefreshAction, RefreshEvent, RefreshStage,
    StageView, MONTHLY_PROBE, PERSIST_FAILED, TRANSPORT_UNAVAILABLE, WEEKLY_PROBE,
};
use crate::request::{
    request_result, ProviderPoolQuotaRequestSpec, AUTHORIZATION_MISSING, BASE_URL_INVALID,
    BASE_URL_SCHEME_UNSUPPORTED, GROK_OAUTH_BILLING_MONTHLY_PATH, GROK_OAUTH_BILLING_WEEKLY_PATH,
    GROK_OAUTH_CLI_VERSION, GROK_OAUTH_DEFAULT_BASE_URL, GROK_OAUTH_TOKEN_AUTH_VALUE,
};
use crate::text::{opt_text, precedes, text_result};
use serde_json::Value;
use vstd::prelude::*;

verus! {

/// The constants hold what they are known for.
pub proof fn law_constants()
    ensures
        GROK_OAUTH_DEFAULT_BASE_URL@ == "https://cli-chat-proxy.grok.com/v1"@,
        GROK_OAUTH_BILLING_WEEKLY_PATH@ == "/billing?format=credits"@,
        GROK_OAUTH_BILLING_MONTHLY_PATH@ == "/billing"@,
        GROK_OAUTH_CLI_VERSION@ == "0.2.93"@,
        GROK_OAUTH_TOKEN_AUTH_VALUE@ == "xai-grok-cli"@,
        BASE_URL_INVALID@ == "Grok OAuth base_url 无效"@,
        BASE_URL_SCHEME_UNSUPPORTED@ == "Grok OAuth base_url 仅支持 http/https"@,
        AUTHORIZATION_MISSING@ == "缺少 Grok OAuth 认证信息，请先授权/刷新 Token"@,
        OAUTH_EXPIRED_PREFIX@ == "[OAUTH_EXPIRED] "@,
        TOKEN_EXPIRED@ == "Grok OAuth Token 无效或已过期"@,
        TRANSPORT_UNAVAILABLE@ == "Provider transport snapshot unavailable"@,
        PERSIST_FAILED@ == "Key 状态写入失败"@,
        WEEKLY_PROBE@ == "grok_oauth_weekly"@,
        MONTHLY_PROBE@ == "grok_oauth_monthly"@,
{
}

/// An optional value is seen where there is one, as it is.
pub proof fn law_optional_values(
    text: String,
    query: &str,
    value: Value,
    url: url::Url,
    object: serde_json::Map<String, Value>,
)
    ensures
        opt_text(Some(text)) == Some(text@) && opt_text(None) is None,
        opt_query(Some(query)) == Some(query@) && opt_query(None) is None,
        opt_json(Some(value)) == Some(json_of(value)) && opt_json(None) is None,
        opt_json_ref(Some(&value)) == Some(json_of(value)) && opt_json_ref(None) is None,
        opt_url_text(Some(url)) == Some(url_text(url)) && opt_url_text(None) is None,
        opt_members(Some(object)) == Some(members_of(object)) && opt_members(None) is None,
{
}

/// A result is seen on the side on which it stands, as it is.
pub proof fn law_results(text: String, message: String, request: ProviderPoolQuotaRequestSpec)
    ensures
        text_result(Ok(text)) matches Ok(seen) && seen == text@,
        text_result(Err(message)) matches Err(seen) && seen == message@,
        request_result(Ok(request)) matches Ok(seen) && seen == request@,
        request_result(Err(message)) matches Err(seen) && seen == message@,
{
}

/// Lists are seen item by item.
pub proof fn law_lists(
    values: Seq<Value>,
    keys: Seq<StoredProviderCatalogKey>,
    members: Seq<(&String, &Value)>,
)
    ensures
        jsons_of(values).len() == values.len(),
        forall|i: int| 0 <= i < values.len() ==> #[trigger] jsons_of(values)[i] == json_of(values[i]),
        key_views(keys).len() == keys.len(),
        forall|i: int| 0 <= i < keys.len() ==> #[trigger] key_views(keys)[i] == keys[i]@,
        listing_of(members).len() == members.len(),
        forall|i: int|
            0 <= i < members.len() ==> #[trigger] listing_of(members)[i] == (
                members[i].0@,
                json_of(*members[i].1),
            ),
{
}

/// A member is found in an object that has it, and nowhere else.
pub proof fn law_members(value: Json, name: Seq<char>)
    ensures
        match value {
            Json::Object(members) => {
                &&& members.contains_key(name) ==> member_of(value, name) == Some(members[name])
                &&& !members.contains_key(name) ==> member_of(value, name) is None
                &&& members_in(Some(value)) == Some(members)
            },
            _ => member_of(value, name) is None && members_in(Some(value)) is None,
        },
        members_in(None) is None,
        !no_members().contains_key(name),
{
}

/// A listing goes through the members in the order of their names, and has each
/// of them.
pub proof fn law_listing(listing: Seq<(Seq<char>, Json)>, members: Map<Seq<char>, Json>)
    requires
        is_listing(listing, members),
    ensures
        forall|i: int, j: int|
            0 <= i < j < listing.len() ==> precedes(#[trigger] listing[i].0, #[trigger] listing[j].0),
        forall|name: Seq<char>, value: Json|
            members.contains_pair(name, value) <==> #[trigger] listing.contains((name, value)),
{
    assert forall|name: Seq<char>, value: Json|
        members.contains_pair(name, value) implies #[trigger] listing.contains((name, value)) by {
        assert(members.contains_key(name));
        let i = choose|i: int| 0 <= i < listing.len() && (#[trigger] listing[i]).0 == name;
        assert(members.contains_pair(listing[i].0, listing[i].1));
        assert(listing[i] == (name, value));
    }
    assert forall|name: Seq<char>, value: Json| #[trigger]
        listing.contains((name, value)) implies members.contains_pair(name, value) by {
        let i = choose|i: int| 0 <= i < listing.len() && listing[i] == (name, value);
        assert(members.contains_pair(listing[i].0, listing[i].1));
    }
}

/// Headers in the order of their names are seen as the map of all their lines.
pub proof fn law_headers(headers: Headers, name: Seq<char>, text: Seq<char>)
    requires
        headers.well_formed(),
    ensures
        forall|i: int, j: int|
            0 <= i < j < headers.entries@.len() ==> precedes(
                #[trigger] headers.entries@[i].0@,
                #[trigger] headers.entries@[j].0@,
            ),
        headers@.contains_pair(name, text) <==> exists|i: int|
            0 <= i < headers.entries@.len() && #[trigger] headers.entries@[i].0@ == name
                && headers.entries@[i].1@ == text,
{
    let pairs = header_pairs(headers.entries@);
    assert forall|i: int, j: int| 0 <= i < j < headers.entries@.len() implies precedes(
        #[trigger] headers.entries@[i].0@,
        #[trigger] headers.entries@[j].0@,
    ) by {
        assert(precedes(pairs[i].0, pairs[j].0));
    }
    if headers@.contains_pair(name, text) {
        let i = choose|i: int| named_at(pairs, name, i);
        assert(pairs[i] == (headers.entries@[i].0@, headers.entries@[i].1@));
    }
    if exists|i: int|
        0 <= i < headers.entries@.len() && #[trigger] headers.entries@[i].0@ == name
            && headers.entries@[i].1@ == text {
        let i = choose|i: int|
            0 <= i < headers.entries@.len() && #[trigger] headers.entries@[i].0@ == name
                && headers.entries@[i].1@ == text;
        assert(pairs[i] == (headers.entries@[i].0@, headers.entries@[i].1@));
        crate::headers::lemma_lookup(pairs, i);
    }
}

/// A request is seen with all its fields.
pub proof fn law_request(request: ProviderPoolQuotaRequestSpec)
    ensures
        request@.request_id == request.request_id@,
        request@.provider_name == request.provider_name@,
        request@.quota_kind == request.quota_kind@,
        request@.method == request.method@,
        request@.url == request.url@,
        request@.headers == request.headers@,
        request@.content_type is Some <==> request.content_type is Some,
        request.content_type matches Some(text) ==> request@.content_type == Some(text@),
        request@.json_body is Some <==> request.json_body is Some,
        request.json_body matches Some(value) ==> request@.json_body == Some(json_of(value)),
        request@.client_api_format == request.client_api_format@,
        request@.provider_api_format == request.provider_api_format@,
        request@.model_name is Some <==> request.model_name is Some,
        request.model_name matches Some(text) ==> request@.model_name == Some(text@),
        request@.accept_invalid_certs == request.accept_invalid_certs,
{
}

/// A stored key is seen with all its fields.
pub proof fn law_key(key: StoredProviderCatalogKey)
    ensures
        key@.id == key.id@,
        key@.name == key.name@,
        key@.upstream_metadata == opt_json(key.upstream_metadata),
        key@.status_snapshot == opt_json(key.status_snapshot),
        key@.invalid.0 == key.oauth_invalid_at_unix_secs,
        key@.invalid.1 == opt_text(key.oauth_invalid_reason),
{
}

/// An outcome is seen with its status, JSON body and detail, or with its failure.
pub proof fn law_outcome(
    status_code: u16,
    json_body: Option<Value>,
    error_message: Option<String>,
    detail: String,
)
    ensures
        ProviderQuotaExecutionOutcome::Response(
            ExecutionResult { status_code, body: Some(ResponseBody { json_body }), error_message },
        )@ == OutcomeView::Response(status_code, opt_json(json_body), opt_text(error_message)),
        ProviderQuotaExecutionOutcome::Response(
            ExecutionResult { status_code, body: None, error_message },
        )@ == OutcomeView::Response(status_code, None, opt_text(error_message)),
        ProviderQuotaExecutionOutcome::Failure(detail)@ == OutcomeView::Failure(detail@),
        body_json(None) is None,
        body_json(Some(ResponseBody { json_body })) == opt_json(json_body),
{
}

/// A window is seen with all its fields, and has succeeded where it has metadata.
pub proof fn law_part(part: GrokOAuthBillingPart, seen: PartView)
    ensures
        part@.window == part.window@,
        part@.metadata == opt_members(part.metadata),
        part@.status_code == part.status_code,
        part@.message == opt_text(part.message),
        seen.succeeded() <==> seen.metadata is Some,
{
}

/// A stage is seen with all that it holds.
pub proof fn law_stage(stage: RefreshStage)
    ensures
        match stage {
            RefreshStage::Transport => stage@ is Transport,
            RefreshStage::Authorization { decrypted_auth_config } => stage@
                == StageView::Authorization(opt_text(decrypted_auth_config)),
            RefreshStage::Removal => stage@ is Removal,
            RefreshStage::Execution => stage@ is Execution,
            RefreshStage::Persistence { weekly, monthly, metadata_update } => stage@
                == StageView::Persistence(weekly@, monthly@, opt_json(metadata_update)),
            RefreshStage::Finished => stage@ is Finished,
        },
{
}

/// An event is seen with all that it brings.
pub proof fn law_event(event: RefreshEvent)
    ensures
        match event {
            RefreshEvent::TransportMissing => event@ is TransportMissing,
            RefreshEvent::TransportRead { decrypted_auth_config } => event@
                == EventView::TransportRead(opt_text(decrypted_auth_config)),
            RefreshEvent::AuthorizationMissing => event@ is AuthorizationMissing,
            RefreshEvent::AuthorizationResolved { name, value } => event@
                == EventView::AuthorizationResolved((name@, value@)),
            RefreshEvent::KeyRemoved { result } => event@ == EventView::KeyRemoved(json_of(result)),
            RefreshEvent::KeyPresent => event@ is KeyPresent,
            RefreshEvent::Executed {
                weekly,
                weekly_billing,
                monthly,
                monthly_billing,
                now_unix_secs,
                success_invalid_at,
                success_invalid_reason,
            } => event@ matches EventView::Executed(executed) && {
                &&& executed.weekly == weekly@
                &&& executed.weekly_billing == opt_json(weekly_billing)
                &&& executed.monthly == monthly@
                &&& executed.monthly_billing == opt_json(monthly_billing)
                &&& executed.now_unix_secs == now_unix_secs
                &&& executed.on_success.0 == success_invalid_at
                &&& executed.on_success.1 == opt_text(success_invalid_reason)
            },
            RefreshEvent::PersistFailed => event@ is PersistFailed,
            RefreshEvent::Persisted { quota_snapshot } => event@ == EventView::Persisted(
                opt_json(quota_snapshot),
            ),
        },
{
}

/// An action is seen with all that it asks for.
pub proof fn law_action(action: RefreshAction)
    ensures
        match action {
            RefreshAction::ReadTransport { provider_id, endpoint_id, key_id } => action@
                == ActionView::ReadTransport(provider_id@, endpoint_id@, key_id@),
            RefreshAction::ResolveAuthorization => action@ is ResolveAuthorization,
            RefreshAction::CheckRemoval { key_id } => action@ == ActionView::CheckRemoval(key_id@),
            RefreshAction::Execute {
                weekly,
                weekly_probe,
                monthly,
                monthly_probe,
                resolve_proxy,
            } => action@ == (ActionView::Execute {
                weekly: (weekly@, weekly_probe@),
                monthly: (monthly@, monthly_probe@),
                resolve_proxy,
            }),
            RefreshAction::Persist {
                key_id,
                metadata_update,
                oauth_invalid_at,
                oauth_invalid_reason,
            } => action@ == (ActionView::Persist {
                key_id: key_id@,
                metadata_update: opt_json(metadata_update),
                invalid: (oauth_invalid_at, opt_text(oauth_invalid_reason)),
            }),
            RefreshAction::Finish => action@ is Finish,
            RefreshAction::BaseUrlTooLong => action@ is BaseUrlTooLong,
            RefreshAction::AuthConfigTooLong => action@ is AuthConfigTooLong,
            RefreshAction::OutOfTurn => action@ is OutOfTurn,
        },
{
}

/// A refresh is seen with all its fields.
pub proof fn law_refresh(refresh: QuotaRefresh)
    ensures
        refresh@.provider_id == refresh.provider_id@,
        refresh@.endpoint_id == refresh.endpoint_id@,
        refresh@.base_url == refresh.base_url@,
        refresh@.proxy_override == refresh.proxy_override,
        refresh@.keys == key_views(refresh.keys@),
        refresh@.stage == refresh.stage@,
        refresh@.results == jsons_of(refresh.results@),
        refresh@.success == refresh.success,
        refresh@.failed == refresh.failed,
        refresh@.auto_removed == refresh.auto_removed,
{
}

} // verus!
