//! What the answers to the billing requests say of an account, and what is kept
//! of it.
use crate::json::{
    array_value, bool_value, copy_object, extend_object, jsons_of, member_in, member_of, members_in,
    members_of, new_object, no_members, number_value, object_in, object_value, opt_json,
    opt_json_ref, parse_json, parsed_json, put, remove_member, text_value, Json,
};
use crate::limits::{json_counters_hold, json_text_fits};
use crate::request::window_name;
use crate::text::{copy_text, decimal, decimal_text, joined, opt_text, same_text, trim, trimmed};
use serde_json::Value;
use vstd::prelude::*;
use vstd::string::*;

verus! {

/// Starts the reason why a key is invalid where its token has expired.
pub const OAUTH_EXPIRED_PREFIX: &'static str = "[OAUTH_EXPIRED] ";

/// Said of a key whose token the upstream refuses.
pub const TOKEN_EXPIRED: &'static str = "Grok OAuth Token 无效或已过期";

/// What is stored of a provider key.
#[derive(Debug)]
pub struct StoredProviderCatalogKey {
    /// What the key is known by.
    pub id: String,
    /// What the key is called.
    pub name: String,
    /// What was last heard of the account, by provider type.
    pub upstream_metadata: Option<Value>,
    /// The status that was last worked out.
    pub status_snapshot: Option<Value>,
    /// Since when the key is invalid, in seconds of the Unix epoch.
    pub oauth_invalid_at_unix_secs: Option<u64>,
    /// Why the key is invalid.
    pub oauth_invalid_reason: Option<String>,
}

/// What a stored key holds.
pub struct KeyView {
    /// What the key is known by.
    pub id: Seq<char>,
    /// What the key is called.
    pub name: Seq<char>,
    /// What was last heard of the account, by provider type.
    pub upstream_metadata: Option<Json>,
    /// The status that was last worked out.
    pub status_snapshot: Option<Json>,
    /// Since when and why the key is invalid.
    pub invalid: (Option<u64>, Option<Seq<char>>),
}

impl View for StoredProviderCatalogKey {
    type V = KeyView;

    open spec fn view(&self) -> KeyView {
        KeyView {
            id: self.id@,
            name: self.name@,
            upstream_metadata: opt_json(self.upstream_metadata),
            status_snapshot: opt_json(self.status_snapshot),
            invalid: (self.oauth_invalid_at_unix_secs, opt_text(self.oauth_invalid_reason)),
        }
    }
}

/// The body of an answer.
#[derive(Debug)]
pub struct ResponseBody {
    /// The body as JSON, where it is that.
    pub json_body: Option<Value>,
}

/// An answer to a billing request.
#[derive(Debug)]
pub struct ExecutionResult {
    /// The HTTP status.
    pub status_code: u16,
    /// The body, if there is one.
    pub body: Option<ResponseBody>,
    /// What the answer says of its failure, if anything.
    pub error_message: Option<String>,
}

/// What came of a billing request.
#[derive(Debug)]
pub enum ProviderQuotaExecutionOutcome {
    /// The upstream answered.
    Response(ExecutionResult),
    /// The request could not be carried out, and why.
    Failure(String),
}

/// What came of a billing request, as it is read.
pub enum OutcomeView {
    /// The upstream answered with a status, a JSON body where it has one, and
    /// what it says of its failure.
    Response(u16, Option<Json>, Option<Seq<char>>),
    /// The request could not be carried out, and why.
    Failure(Seq<char>),
}

/// The JSON that a body holds, if any.
pub open spec fn body_json(body: Option<ResponseBody>) -> Option<Json> {
    match body {
        Some(body) => opt_json(body.json_body),
        None => None,
    }
}

impl View for ProviderQuotaExecutionOutcome {
    type V = OutcomeView;

    open spec fn view(&self) -> OutcomeView {
        match self {
            ProviderQuotaExecutionOutcome::Response(result) => OutcomeView::Response(
                result.status_code,
                body_json(result.body),
                opt_text(result.error_message),
            ),
            ProviderQuotaExecutionOutcome::Failure(detail) => OutcomeView::Failure(detail@),
        }
    }
}

/// What one usage window came to.
#[derive(Debug)]
pub struct GrokOAuthBillingPart {
    /// The name of the window.
    pub window: &'static str,
    /// What was read of it, where the request succeeded.
    pub metadata: Option<serde_json::Map<String, Value>>,
    /// The HTTP status.
    pub status_code: u16,
    /// What went wrong, if anything.
    pub message: Option<String>,
}

/// What one usage window came to, as it is read.
pub struct PartView {
    /// The name of the window.
    pub window: Seq<char>,
    /// What was read of it, where the request succeeded.
    pub metadata: Option<Map<Seq<char>, Json>>,
    /// The HTTP status.
    pub status_code: u16,
    /// What went wrong, if anything.
    pub message: Option<Seq<char>>,
}

/// The members of an optional object.
pub open spec fn opt_members(object: Option<serde_json::Map<String, Value>>) -> Option<
    Map<Seq<char>, Json>,
> {
    match object {
        Some(object) => Some(members_of(object)),
        None => None,
    }
}

impl View for GrokOAuthBillingPart {
    type V = PartView;

    open spec fn view(&self) -> PartView {
        PartView {
            window: self.window@,
            metadata: opt_members(self.metadata),
            status_code: self.status_code,
            message: opt_text(self.message),
        }
    }
}

impl PartView {
    /// Whether the usage of the window was read.
    pub open spec fn succeeded(self) -> bool {
        self.metadata is Some
    }
}

impl GrokOAuthBillingPart {
    /// Whether the usage of the window was read.
    pub fn succeeded(&self) -> (succeeded: bool)
        ensures
            succeeded == self@.succeeded(),
    {
        self.metadata.is_some()
    }
}

/// The authorization configuration that a decrypted text holds: what it parses
/// to without surrounding white space.
pub open spec fn auth_config_in(decrypted: Option<Seq<char>>) -> Option<Json> {
    match decrypted {
        Some(text) => if trimmed(text).len() == 0 {
            None
        } else {
            parsed_json(trimmed(text))
        },
        None => None,
    }
}

/// Whether a decrypted text can be parsed: `serde_json` can count the digits of
/// its numbers.
pub open spec fn auth_config_fits(decrypted: Option<Seq<char>>) -> bool {
    decrypted matches Some(text) ==> json_counters_hold(trimmed(text))
}

/// Whether a decrypted text can be parsed.
pub fn grok_oauth_auth_config_fits(decrypted_auth_config: &Option<String>) -> (fits: bool)
    ensures
        fits == auth_config_fits(opt_text(*decrypted_auth_config)),
{
    match decrypted_auth_config {
        Some(text) => json_text_fits(trim(text.as_str())),
        None => true,
    }
}

/// The authorization configuration that a decrypted text holds, if any.
pub fn grok_oauth_auth_config(decrypted_auth_config: &Option<String>) -> (auth_config: Option<Value>)
    requires
        auth_config_fits(opt_text(*decrypted_auth_config)),
    ensures
        opt_json(auth_config) == auth_config_in(opt_text(*decrypted_auth_config)),
{
    let text = match decrypted_auth_config {
        Some(text) => trim(text.as_str()),
        None => return None,
    };
    if text.is_empty() {
        return None;
    }
    match parse_json(text) {
        Ok(value) => Some(value),
        Err(_) => None,
    }
}

/// How a failure names the endpoint of a usage window.
pub open spec fn endpoint_label(weekly: bool) -> Seq<char> {
    if weekly {
        "billing?format=credits"@
    } else {
        "billing"@
    }
}

/// The body in which the usage of a window is to be read: that of a good answer.
pub open spec fn billing_body(outcome: OutcomeView) -> Option<Json> {
    match outcome {
        OutcomeView::Response(status_code, json_body, _) => if status_code == 200 {
            json_body
        } else {
            None
        },
        OutcomeView::Failure(_) => None,
    }
}

/// What is said of an answer with another status than 200.
pub open spec fn status_message(weekly: bool, status_code: u16, detail: Option<Seq<char>>) -> Seq<
    char,
> {
    let message = endpoint_label(weekly) + " 返回状态码 "@ + decimal(status_code as nat);
    match detail {
        Some(detail) => if detail.len() == 0 {
            message
        } else {
            message + ": "@ + detail
        },
        None => message,
    }
}

/// What a usage window came to, given what was read in the body of the answer.
pub open spec fn billing_part(outcome: OutcomeView, weekly: bool, parsed: Option<Json>) -> PartView {
    match outcome {
        OutcomeView::Failure(detail) => PartView {
            window: window_name(weekly),
            metadata: None,
            status_code: 502,
            message: Some(endpoint_label(weekly) + " 请求执行失败: "@ + detail),
        },
        OutcomeView::Response(status_code, json_body, detail) => if status_code != 200 {
            PartView {
                window: window_name(weekly),
                metadata: None,
                status_code,
                message: Some(status_message(weekly, status_code, detail)),
            }
        } else {
            let metadata = if json_body is Some {
                members_in(parsed)
            } else {
                None
            };
            PartView {
                window: window_name(weekly),
                metadata,
                status_code,
                message: if metadata is Some {
                    None
                } else {
                    Some(endpoint_label(weekly) + " 响应中未包含额度信息"@)
                },
            }
        },
    }
}

/// The body in which the usage of a window is to be read: that of a good answer.
pub fn grok_oauth_billing_body(outcome: &ProviderQuotaExecutionOutcome) -> (body: Option<&Value>)
    ensures
        opt_json_ref(body) == billing_body(outcome@),
{
    match outcome {
        ProviderQuotaExecutionOutcome::Response(result) => {
            if result.status_code != 200 {
                return None;
            }
            match &result.body {
                Some(body) => match &body.json_body {
                    Some(json_body) => Some(json_body),
                    None => None,
                },
                None => None,
            }
        },
        ProviderQuotaExecutionOutcome::Failure(_) => None,
    }
}

/// The name of a usage window.
fn window_text(weekly: bool) -> (window: &'static str)
    ensures
        window@ == window_name(weekly),
{
    if weekly {
        "weekly"
    } else {
        "monthly"
    }
}

/// How a failure names the endpoint of a usage window.
fn endpoint_label_text(weekly: bool) -> (label: &'static str)
    ensures
        label@ == endpoint_label(weekly),
{
    if weekly {
        "billing?format=credits"
    } else {
        "billing"
    }
}

/// What is said of an answer with another status than 200.
fn status_message_text(weekly: bool, status_code: u16, detail: &Option<String>) -> (message: String)
    ensures
        message@ == status_message(weekly, status_code, opt_text(*detail)),
{
    let mut message: String = joined(endpoint_label_text(weekly), " 返回状态码 ");
    message.append(decimal_text(status_code as u64).as_str());
    if let Some(detail) = detail {
        if !detail.as_str().is_empty() {
            message.append(": ");
            message.append(detail.as_str());
        }
    }
    message
}

/// What a usage window came to, given what was read in the body of the answer
/// that [`grok_oauth_billing_body`] hands out.
pub fn parse_grok_oauth_billing_part(
    outcome: ProviderQuotaExecutionOutcome,
    weekly: bool,
    parsed: Option<Value>,
) -> (part: GrokOAuthBillingPart)
    ensures
        part@ == billing_part(outcome@, weekly, opt_json(parsed)),
{
    let window = window_text(weekly);
    let endpoint_label = endpoint_label_text(weekly);
    let result = match outcome {
        ProviderQuotaExecutionOutcome::Response(result) => result,
        ProviderQuotaExecutionOutcome::Failure(detail) => {
            let mut message: String = joined(endpoint_label, " 请求执行失败: ");
            message.append(detail.as_str());
            return GrokOAuthBillingPart {
                window,
                metadata: None,
                status_code: 502,
                message: Some(message),
            };
        },
    };
    if result.status_code != 200 {
        let message = status_message_text(weekly, result.status_code, &result.error_message);
        return GrokOAuthBillingPart {
            window,
            metadata: None,
            status_code: result.status_code,
            message: Some(message),
        };
    }
    let has_json_body = match &result.body {
        Some(body) => body.json_body.is_some(),
        None => false,
    };
    let metadata = if has_json_body {
        match object_in(parsed.as_ref()) {
            Some(object) => Some(copy_object(object)),
            None => None,
        }
    } else {
        None
    };
    let message = if metadata.is_none() {
        Some(joined(endpoint_label, " 响应中未包含额度信息"))
    } else {
        None
    };
    GrokOAuthBillingPart { window, metadata, status_code: result.status_code, message }
}

/// What the metadata of an account holds of a usage window.
pub open spec fn window_fields(weekly: bool) -> Set<Seq<char>> {
    if weekly {
        set![
            "weekly_used_percent"@,
            "weekly_period_type"@,
            "weekly_period_start"@,
            "weekly_period_end"@,
            "weekly_reset_at"@,
            "weekly_product_usage"@,
            "weekly_updated_at"@,
        ]
    } else {
        set![
            "monthly_limit_cents"@,
            "monthly_used_cents"@,
            "monthly_included_used_cents"@,
            "monthly_used_percent"@,
            "monthly_period_start"@,
            "monthly_period_end"@,
            "monthly_reset_at"@,
            "monthly_updated_at"@,
            "plan_type"@,
        ]
    }
}

/// Takes what is held of a usage window out of the metadata of an account.
pub fn remove_grok_oauth_billing_window(metadata: &mut serde_json::Map<String, Value>, weekly: bool)
    ensures
        members_of(*final(metadata)) == members_of(*old(metadata)).remove_keys(
            window_fields(weekly),
        ),
{
    if weekly {
        remove_member(metadata, "weekly_used_percent");
        remove_member(metadata, "weekly_period_type");
        remove_member(metadata, "weekly_period_start");
        remove_member(metadata, "weekly_period_end");
        remove_member(metadata, "weekly_reset_at");
        remove_member(metadata, "weekly_product_usage");
        remove_member(metadata, "weekly_updated_at");
    } else {
        remove_member(metadata, "monthly_limit_cents");
        remove_member(metadata, "monthly_used_cents");
        remove_member(metadata, "monthly_included_used_cents");
        remove_member(metadata, "monthly_used_percent");
        remove_member(metadata, "monthly_period_start");
        remove_member(metadata, "monthly_period_end");
        remove_member(metadata, "monthly_reset_at");
        remove_member(metadata, "monthly_updated_at");
        remove_member(metadata, "plan_type");
    }
    proof {
        assert(members_of(*metadata) =~= members_of(*old(metadata)).remove_keys(
            window_fields(weekly),
        ));
    }
}

/// What is stored of the account under `grok_oauth`.
pub open spec fn stored_members(upstream_metadata: Option<Json>) -> Map<Seq<char>, Json> {
    match upstream_metadata {
        Some(metadata) => match members_in(member_of(metadata, "grok_oauth"@)) {
            Some(members) => members,
            None => no_members(),
        },
        None => no_members(),
    }
}

/// Metadata with a usage window brought up to date: what was held of the window
/// goes and what was read comes in. A window that was not read stays.
pub open spec fn with_window(metadata: Map<Seq<char>, Json>, part: PartView) -> Map<
    Seq<char>,
    Json,
> {
    match part.metadata {
        Some(update) => metadata.remove_keys(window_fields(part.window == "weekly"@)).union_prefer_right(
            update,
        ),
        None => metadata,
    }
}

/// The name of a usage window that was not read, as a list of none or one.
pub open spec fn failed_window(part: PartView) -> Seq<Json> {
    if part.succeeded() {
        Seq::empty()
    } else {
        seq![Json::Text(part.window)]
    }
}

/// The names of the usage windows that were not read.
pub open spec fn failed_windows(weekly: PartView, monthly: PartView) -> Seq<Json> {
    failed_window(weekly) + failed_window(monthly)
}

/// What is kept of an account after its usage has been read.
pub open spec fn refreshed_members(
    stored: Map<Seq<char>, Json>,
    weekly: PartView,
    monthly: PartView,
    now_unix_secs: u64,
) -> Map<Seq<char>, Json> {
    with_window(with_window(stored, weekly), monthly).insert(
        "updated_at"@,
        Json::Integer(now_unix_secs as int),
    ).insert("source"@, Json::Text("billing_probe"@)).insert(
        "weekly_status_code"@,
        Json::Integer(weekly.status_code as int),
    ).insert("monthly_status_code"@, Json::Integer(monthly.status_code as int)).insert(
        "partial"@,
        Json::Bool(failed_windows(weekly, monthly).len() > 0),
    ).insert("failed_windows"@, Json::Array(failed_windows(weekly, monthly)))
}

/// The metadata to store for an account, where any of its usage was read.
pub open spec fn billing_metadata(
    upstream_metadata: Option<Json>,
    weekly: PartView,
    monthly: PartView,
    now_unix_secs: u64,
) -> Option<Json> {
    if weekly.succeeded() || monthly.succeeded() {
        Some(
            Json::Object(
                no_members().insert(
                    "grok_oauth"@,
                    Json::Object(
                        refreshed_members(
                            stored_members(upstream_metadata),
                            weekly,
                            monthly,
                            now_unix_secs,
                        ),
                    ),
                ),
            ),
        )
    } else {
        None
    }
}

/// Brings a usage window in the metadata of an account up to date.
fn update_window(metadata: &mut serde_json::Map<String, Value>, part: &GrokOAuthBillingPart)
    ensures
        members_of(*final(metadata)) == with_window(members_of(*old(metadata)), part@),
{
    if let Some(update) = &part.metadata {
        remove_grok_oauth_billing_window(metadata, same_text(part.window, "weekly"));
        extend_object(metadata, copy_object(update));
    }
}

/// The metadata to store for an account, where any of its usage was read. A
/// window that was not read keeps what was held of it.
pub fn build_grok_oauth_billing_metadata(
    key: &StoredProviderCatalogKey,
    weekly: &GrokOAuthBillingPart,
    monthly: &GrokOAuthBillingPart,
    now_unix_secs: u64,
) -> (metadata: Option<Value>)
    ensures
        opt_json(metadata) == billing_metadata(
            key@.upstream_metadata,
            weekly@,
            monthly@,
            now_unix_secs,
        ),
{
    if !weekly.succeeded() && !monthly.succeeded() {
        return None;
    }
    let mut metadata = match object_in(member_in(key.upstream_metadata.as_ref(), "grok_oauth")) {
        Some(stored) => copy_object(stored),
        None => new_object(),
    };
    update_window(&mut metadata, weekly);
    update_window(&mut metadata, monthly);
    put(&mut metadata, "updated_at", number_value(now_unix_secs));
    put(&mut metadata, "source", text_value("billing_probe"));
    put(&mut metadata, "weekly_status_code", number_value(weekly.status_code as u64));
    put(&mut metadata, "monthly_status_code", number_value(monthly.status_code as u64));
    let mut failed: Vec<Value> = Vec::new();
    if !weekly.succeeded() {
        failed.push(text_value(weekly.window));
    }
    if !monthly.succeeded() {
        failed.push(text_value(monthly.window));
    }
    proof {
        assert(jsons_of(failed@) =~= failed_windows(weekly@, monthly@));
    }
    put(&mut metadata, "partial", bool_value(!failed.is_empty()));
    put(&mut metadata, "failed_windows", array_value(failed));
    let mut wrapped = new_object();
    put(&mut wrapped, "grok_oauth", object_value(metadata));
    Some(object_value(wrapped))
}

/// What a usage window says of its failure, if anything.
pub open spec fn part_message(part: PartView) -> Option<Seq<char>> {
    match part.message {
        Some(message) => Some(part.window + ": "@ + message),
        None => None,
    }
}

/// What the usage windows say of their failures, if anything.
pub open spec fn failure_message(weekly: PartView, monthly: PartView) -> Option<Seq<char>> {
    match (part_message(weekly), part_message(monthly)) {
        (Some(first), Some(second)) => Some(first + "；"@ + second),
        (Some(first), None) => Some(first),
        (None, Some(second)) => Some(second),
        (None, None) => None,
    }
}

/// What a usage window says of its failure, if anything.
fn part_message_text(part: &GrokOAuthBillingPart) -> (message: Option<String>)
    ensures
        opt_text(message) == part_message(part@),
{
    match &part.message {
        Some(message) => {
            let mut text: String = joined(part.window, ": ");
            text.append(message.as_str());
            Some(text)
        },
        None => None,
    }
}

/// What the usage windows say of their failures, if anything.
pub fn grok_oauth_failure_message(
    weekly: &GrokOAuthBillingPart,
    monthly: &GrokOAuthBillingPart,
) -> (message: Option<String>)
    ensures
        opt_text(message) == failure_message(weekly@, monthly@),
{
    match (part_message_text(weekly), part_message_text(monthly)) {
        (Some(first), Some(second)) => {
            let mut text: String = first;
            text.append("；");
            text.append(second.as_str());
            Some(text)
        },
        (Some(first), None) => Some(first),
        (None, Some(second)) => Some(second),
        (None, None) => None,
    }
}

/// Since when and why a key is invalid after its usage has been asked for. One
/// good answer counts as a success, whose own invalid state is `on_success`. Without
/// one, a refused token marks the key as expired, and anything else leaves it as
/// it was.
pub open spec fn invalid_state(
    stored: (Option<u64>, Option<Seq<char>>),
    on_success: (Option<u64>, Option<Seq<char>>),
    weekly: PartView,
    monthly: PartView,
    now_unix_secs: u64,
) -> (Option<u64>, Option<Seq<char>>) {
    if weekly.succeeded() || monthly.succeeded() {
        on_success
    } else if weekly.status_code == 401 || monthly.status_code == 401 {
        (Some(now_unix_secs), Some(OAUTH_EXPIRED_PREFIX@ + TOKEN_EXPIRED@))
    } else {
        stored
    }
}

/// Since when and why a key is invalid after its usage has been asked for.
/// `on_success` is the invalid state of the key after a success.
pub fn grok_oauth_quota_invalid_state(
    key: &StoredProviderCatalogKey,
    on_success: (Option<u64>, Option<String>),
    weekly: &GrokOAuthBillingPart,
    monthly: &GrokOAuthBillingPart,
    now_unix_secs: u64,
) -> (state: (Option<u64>, Option<String>))
    ensures
        (state.0, opt_text(state.1)) == invalid_state(
            key@.invalid,
            (on_success.0, opt_text(on_success.1)),
            weekly@,
            monthly@,
            now_unix_secs,
        ),
{
    if weekly.succeeded() || monthly.succeeded() {
        return on_success;
    }
    if weekly.status_code == 401 || monthly.status_code == 401 {
        return (Some(now_unix_secs), Some(joined(OAUTH_EXPIRED_PREFIX, TOKEN_EXPIRED)));
    }
    (key.oauth_invalid_at_unix_secs, copy_text(&key.oauth_invalid_reason))
}

} // verus!
