//! The refresh of the quota of a provider's keys, as a machine: it says what is
//! to be done next, and is told what came of it.
//!
//! The keys have their turn one after the other. The turn of a key ends with a
//! result for it, and with that the turn of the next key begins.
use crate::billing::{
    auth_config_fits, auth_config_in, billing_metadata, billing_part,
    build_grok_oauth_billing_metadata, failure_message, grok_oauth_auth_config,
    grok_oauth_auth_config_fits, grok_oauth_failure_message, grok_oauth_quota_invalid_state,
    invalid_state, parse_grok_oauth_billing_part, GrokOAuthBillingPart, KeyView, OutcomeView,
    PartView, ProviderQuotaExecutionOutcome, StoredProviderCatalogKey,
};
use crate::json::{
    array_value, bool_value, copy_value, json_of, jsons_of, member_in, member_of, members_of,
    new_object, no_members, number_value, object_value, opt_json, put, text_value, Json,
};
use crate::request::{
    base_url_fits, billing_request, is_billing_url, lemma_weekly_fits, request_fits,
    try_build_grok_oauth_pool_billing_request, ProviderPoolQuotaRequestSpec, QuotaRequest,
    AUTHORIZATION_MISSING,
};
use crate::text::{copy_text, decimal, decimal_text, joined, opt_text};
use serde_json::Value;
use vstd::prelude::*;
use vstd::string::*;

verus! {

/// Said of a key whose transport is not there.
pub const TRANSPORT_UNAVAILABLE: &'static str = "Provider transport snapshot unavailable";

/// Said of a key whose new state could not be stored.
pub const PERSIST_FAILED: &'static str = "Key 状态写入失败";

/// What the weekly billing request is called while it is carried out.
pub const WEEKLY_PROBE: &'static str = "grok_oauth_weekly";

/// What the monthly billing request is called while it is carried out.
pub const MONTHLY_PROBE: &'static str = "grok_oauth_monthly";

/// Where the turn of a key has got to.
#[derive(Debug)]
pub enum RefreshStage {
    /// Its transport is being read.
    Transport,
    /// Its authorization header is being resolved.
    Authorization {
        /// The decrypted authorization configuration of the transport.
        decrypted_auth_config: Option<String>,
    },
    /// It is being checked whether the key is still there.
    Removal,
    /// Its billing requests are being carried out.
    Execution,
    /// Its new state is being stored.
    Persistence {
        /// What the weekly window came to.
        weekly: GrokOAuthBillingPart,
        /// What the monthly window came to.
        monthly: GrokOAuthBillingPart,
        /// The metadata to store, where any usage was read.
        metadata_update: Option<Value>,
    },
    /// All keys have had their turn.
    Finished,
}

/// What came of what was to be done.
#[derive(Debug)]
pub enum RefreshEvent {
    /// The transport of the key is not there.
    TransportMissing,
    /// The transport of the key was read.
    TransportRead {
        /// Its decrypted authorization configuration.
        decrypted_auth_config: Option<String>,
    },
    /// The transport has no authorization header.
    AuthorizationMissing,
    /// The transport has an authorization header.
    AuthorizationResolved {
        /// The name of the header.
        name: String,
        /// The value of the header.
        value: String,
    },
    /// The key has been removed since.
    KeyRemoved {
        /// The result for a key that has been removed.
        result: Value,
    },
    /// The key is still there.
    KeyPresent,
    /// The billing requests were carried out.
    Executed {
        /// What came of the weekly request.
        weekly: ProviderQuotaExecutionOutcome,
        /// What was read in the body of the weekly answer.
        weekly_billing: Option<Value>,
        /// What came of the monthly request.
        monthly: ProviderQuotaExecutionOutcome,
        /// What was read in the body of the monthly answer.
        monthly_billing: Option<Value>,
        /// The time, in seconds of the Unix epoch, if it is known.
        now_unix_secs: Option<u64>,
        /// Since when the key is invalid after a success.
        success_invalid_at: Option<u64>,
        /// Why the key is invalid after a success.
        success_invalid_reason: Option<String>,
    },
    /// The new state could not be stored.
    PersistFailed,
    /// The new state was stored.
    Persisted {
        /// The status that follows from it.
        quota_snapshot: Option<Value>,
    },
}

/// What is to be done next.
#[derive(Debug)]
pub enum RefreshAction {
    /// Read the transport of a key.
    ReadTransport {
        /// The provider of the key.
        provider_id: String,
        /// The endpoint over which the quota is read.
        endpoint_id: String,
        /// The key.
        key_id: String,
    },
    /// Resolve the authorization header of the transport.
    ResolveAuthorization,
    /// Check whether the key is still there.
    CheckRemoval {
        /// The key.
        key_id: String,
    },
    /// Carry out both billing requests.
    Execute {
        /// The weekly request.
        weekly: ProviderPoolQuotaRequestSpec,
        /// What it is called.
        weekly_probe: &'static str,
        /// The monthly request.
        monthly: ProviderPoolQuotaRequestSpec,
        /// What it is called.
        monthly_probe: &'static str,
        /// Whether the proxy of the transport is to be used.
        resolve_proxy: bool,
    },
    /// Store the new state of the key.
    Persist {
        /// The key.
        key_id: String,
        /// The metadata to store, where any usage was read.
        metadata_update: Option<Value>,
        /// Since when the key is invalid.
        oauth_invalid_at: Option<u64>,
        /// Why the key is invalid.
        oauth_invalid_reason: Option<String>,
    },
    /// Hand out the summary: all keys have had their turn.
    Finish,
    /// Nothing: the base URL is too long for billing requests.
    BaseUrlTooLong,
    /// Nothing: the authorization configuration is too long to be parsed.
    AuthConfigTooLong,
    /// Nothing: what was told does not answer what was to be done.
    OutOfTurn,
}

/// The refresh of the quota of a provider's keys.
#[derive(Debug)]
pub struct QuotaRefresh {
    /// The provider of the keys.
    pub provider_id: String,
    /// The endpoint over which the quota is read.
    pub endpoint_id: String,
    /// The base URL of the endpoint.
    pub base_url: String,
    /// Whether the caller has set the proxy.
    pub proxy_override: bool,
    /// The keys.
    pub keys: Vec<StoredProviderCatalogKey>,
    /// Where the turn of the current key has got to.
    pub stage: RefreshStage,
    /// The results of the keys that have had their turn.
    pub results: Vec<Value>,
    /// How many keys were refreshed.
    pub success: usize,
    /// How many keys were not.
    pub failed: usize,
    /// How many keys had been removed.
    pub auto_removed: usize,
}

/// Where the turn of a key has got to, as it is read.
pub enum StageView {
    /// Its transport is being read.
    Transport,
    /// Its authorization header is being resolved.
    Authorization(Option<Seq<char>>),
    /// It is being checked whether the key is still there.
    Removal,
    /// Its billing requests are being carried out.
    Execution,
    /// Its new state is being stored.
    Persistence(PartView, PartView, Option<Json>),
    /// All keys have had their turn.
    Finished,
}

impl View for RefreshStage {
    type V = StageView;

    open spec fn view(&self) -> StageView {
        match self {
            RefreshStage::Transport => StageView::Transport,
            RefreshStage::Authorization { decrypted_auth_config } => StageView::Authorization(
                opt_text(*decrypted_auth_config),
            ),
            RefreshStage::Removal => StageView::Removal,
            RefreshStage::Execution => StageView::Execution,
            RefreshStage::Persistence {
                weekly,
                monthly,
                metadata_update,
            } => StageView::Persistence(weekly@, monthly@, opt_json(*metadata_update)),
            RefreshStage::Finished => StageView::Finished,
        }
    }
}

/// What came of the billing requests, as it is read.
pub struct ExecutedView {
    /// What came of the weekly request.
    pub weekly: OutcomeView,
    /// What was read in the body of the weekly answer.
    pub weekly_billing: Option<Json>,
    /// What came of the monthly request.
    pub monthly: OutcomeView,
    /// What was read in the body of the monthly answer.
    pub monthly_billing: Option<Json>,
    /// The time, in seconds of the Unix epoch, if it is known.
    pub now_unix_secs: Option<u64>,
    /// Since when and why the key is invalid after a success.
    pub on_success: (Option<u64>, Option<Seq<char>>),
}

/// What came of what was to be done, as it is read.
pub enum EventView {
    /// The transport of the key is not there.
    TransportMissing,
    /// The transport of the key was read.
    TransportRead(Option<Seq<char>>),
    /// The transport has no authorization header.
    AuthorizationMissing,
    /// The transport has an authorization header.
    AuthorizationResolved((Seq<char>, Seq<char>)),
    /// The key has been removed since.
    KeyRemoved(Json),
    /// The key is still there.
    KeyPresent,
    /// The billing requests were carried out.
    Executed(ExecutedView),
    /// The new state could not be stored.
    PersistFailed,
    /// The new state was stored.
    Persisted(Option<Json>),
}

impl View for RefreshEvent {
    type V = EventView;

    open spec fn view(&self) -> EventView {
        match self {
            RefreshEvent::TransportMissing => EventView::TransportMissing,
            RefreshEvent::TransportRead { decrypted_auth_config } => EventView::TransportRead(
                opt_text(*decrypted_auth_config),
            ),
            RefreshEvent::AuthorizationMissing => EventView::AuthorizationMissing,
            RefreshEvent::AuthorizationResolved { name, value } => EventView::AuthorizationResolved(
                (name@, value@),
            ),
            RefreshEvent::KeyRemoved { result } => EventView::KeyRemoved(json_of(*result)),
            RefreshEvent::KeyPresent => EventView::KeyPresent,
            RefreshEvent::Executed {
                weekly,
                weekly_billing,
                monthly,
                monthly_billing,
                now_unix_secs,
                success_invalid_at,
                success_invalid_reason,
            } => EventView::Executed(
                ExecutedView {
                    weekly: weekly@,
                    weekly_billing: opt_json(*weekly_billing),
                    monthly: monthly@,
                    monthly_billing: opt_json(*monthly_billing),
                    now_unix_secs: *now_unix_secs,
                    on_success: (*success_invalid_at, opt_text(*success_invalid_reason)),
                },
            ),
            RefreshEvent::PersistFailed => EventView::PersistFailed,
            RefreshEvent::Persisted { quota_snapshot } => EventView::Persisted(
                opt_json(*quota_snapshot),
            ),
        }
    }
}

/// What is to be done next, as it is read.
pub enum ActionView {
    /// Read the transport of a key, by provider, endpoint and key.
    ReadTransport(Seq<char>, Seq<char>, Seq<char>),
    /// Resolve the authorization header of the transport.
    ResolveAuthorization,
    /// Check whether the key is still there.
    CheckRemoval(Seq<char>),
    /// Carry out both billing requests, each under its name.
    Execute {
        /// The weekly request and what it is called.
        weekly: (QuotaRequest, Seq<char>),
        /// The monthly request and what it is called.
        monthly: (QuotaRequest, Seq<char>),
        /// Whether the proxy of the transport is to be used.
        resolve_proxy: bool,
    },
    /// Store the new state of the key.
    Persist {
        /// The key.
        key_id: Seq<char>,
        /// The metadata to store, where any usage was read.
        metadata_update: Option<Json>,
        /// Since when and why the key is invalid.
        invalid: (Option<u64>, Option<Seq<char>>),
    },
    /// Hand out the summary: all keys have had their turn.
    Finish,
    /// Nothing: the base URL is too long for billing requests.
    BaseUrlTooLong,
    /// Nothing: the authorization configuration is too long to be parsed.
    AuthConfigTooLong,
    /// Nothing: what was told does not answer what was to be done.
    OutOfTurn,
}

impl ActionView {
    /// Whether nothing is to be done, since what was told could not be taken.
    pub open spec fn is_refusal(self) -> bool {
        self is BaseUrlTooLong || self is AuthConfigTooLong || self is OutOfTurn
    }
}

impl View for RefreshAction {
    type V = ActionView;

    open spec fn view(&self) -> ActionView {
        match self {
            RefreshAction::ReadTransport {
                provider_id,
                endpoint_id,
                key_id,
            } => ActionView::ReadTransport(provider_id@, endpoint_id@, key_id@),
            RefreshAction::ResolveAuthorization => ActionView::ResolveAuthorization,
            RefreshAction::CheckRemoval { key_id } => ActionView::CheckRemoval(key_id@),
            RefreshAction::Execute {
                weekly,
                weekly_probe,
                monthly,
                monthly_probe,
                resolve_proxy,
            } => ActionView::Execute {
                weekly: (weekly@, weekly_probe@),
                monthly: (monthly@, monthly_probe@),
                resolve_proxy: *resolve_proxy,
            },
            RefreshAction::Persist {
                key_id,
                metadata_update,
                oauth_invalid_at,
                oauth_invalid_reason,
            } => ActionView::Persist {
                key_id: key_id@,
                metadata_update: opt_json(*metadata_update),
                invalid: (*oauth_invalid_at, opt_text(*oauth_invalid_reason)),
            },
            RefreshAction::Finish => ActionView::Finish,
            RefreshAction::BaseUrlTooLong => ActionView::BaseUrlTooLong,
            RefreshAction::AuthConfigTooLong => ActionView::AuthConfigTooLong,
            RefreshAction::OutOfTurn => ActionView::OutOfTurn,
        }
    }
}

impl RefreshAction {
    /// Whether the headers of the requests that are to be carried out, if any,
    /// are in the order of their names, and their URLs have the parts of billing
    /// URLs below the base URL.
    pub open spec fn well_formed(&self, base_url: Seq<char>) -> bool {
        self matches RefreshAction::Execute { weekly, monthly, .. } ==> {
            &&& weekly.headers.well_formed() && monthly.headers.well_formed()
            &&& is_billing_url(weekly.url@, base_url, true)
            &&& is_billing_url(monthly.url@, base_url, false)
        }
    }
}

/// A refresh, as it is read.
pub struct RefreshView {
    /// The provider of the keys.
    pub provider_id: Seq<char>,
    /// The endpoint over which the quota is read.
    pub endpoint_id: Seq<char>,
    /// The base URL of the endpoint.
    pub base_url: Seq<char>,
    /// Whether the caller has set the proxy.
    pub proxy_override: bool,
    /// The keys.
    pub keys: Seq<KeyView>,
    /// Where the turn of the current key has got to.
    pub stage: StageView,
    /// The results of the keys that have had their turn.
    pub results: Seq<Json>,
    /// How many keys were refreshed.
    pub success: nat,
    /// How many keys were not.
    pub failed: nat,
    /// How many keys had been removed.
    pub auto_removed: nat,
}

/// What each of a sequence of keys holds.
pub open spec fn key_views(keys: Seq<StoredProviderCatalogKey>) -> Seq<KeyView> {
    keys.map_values(|key: StoredProviderCatalogKey| key@)
}

impl View for QuotaRefresh {
    type V = RefreshView;

    open spec fn view(&self) -> RefreshView {
        RefreshView {
            provider_id: self.provider_id@,
            endpoint_id: self.endpoint_id@,
            base_url: self.base_url@,
            proxy_override: self.proxy_override,
            keys: key_views(self.keys@),
            stage: self.stage@,
            results: jsons_of(self.results@),
            success: self.success as nat,
            failed: self.failed as nat,
            auto_removed: self.auto_removed as nat,
        }
    }
}

/// What the turn of a key comes to.
pub enum Tally {
    /// The key was refreshed.
    Success,
    /// The key was not refreshed.
    Failed,
    /// The key had been removed.
    AutoRemoved,
}

impl RefreshView {
    /// The key whose turn it is.
    pub open spec fn current(self) -> KeyView {
        self.keys[self.results.len() as int]
    }

    /// The key whose turn it is, if any is left.
    pub open spec fn turn(self) -> Option<KeyView> {
        if self.results.len() < self.keys.len() {
            Some(self.current())
        } else {
            None
        }
    }

    /// Whether the refresh is one that can come about: each key that has had
    /// its turn has one result and is counted once, and the refresh is finished
    /// when all have. Metadata is being stored where a window was read.
    pub open spec fn well_formed(self) -> bool {
        &&& self.results.len() <= self.keys.len()
        &&& self.success + self.failed + self.auto_removed == self.results.len()
        &&& self.stage is Finished <==> self.results.len() == self.keys.len()
        &&& self.stage matches StageView::Persistence(weekly, monthly, metadata_update)
            ==> (metadata_update is Some <==> weekly.succeeded() || monthly.succeeded())
    }

    /// Whether the refresh is one of those keys that has just started.
    pub open spec fn is_started(self, keys: Seq<KeyView>) -> bool {
        &&& self.keys == keys
        &&& self.results.len() == 0
        &&& self.success == 0 && self.failed == 0 && self.auto_removed == 0
        &&& self == self.next_turn().0
    }

    /// The refresh at another stage of the current turn.
    pub open spec fn at(self, stage: StageView) -> RefreshView {
        RefreshView { stage, ..self }
    }

    /// The refresh with a result for the current key.
    pub open spec fn settled(self, result: Json, tally: Tally) -> RefreshView {
        RefreshView {
            results: self.results.push(result),
            success: self.success + if tally is Success {
                1nat
            } else {
                0
            },
            failed: self.failed + if tally is Failed {
                1nat
            } else {
                0
            },
            auto_removed: self.auto_removed + if tally is AutoRemoved {
                1nat
            } else {
                0
            },
            ..self
        }
    }

    /// The start of the next turn, or the end where all keys have had theirs.
    pub open spec fn next_turn(self) -> (RefreshView, ActionView) {
        if self.results.len() < self.keys.len() {
            (
                self.at(StageView::Transport),
                ActionView::ReadTransport(self.provider_id, self.endpoint_id, self.current().id),
            )
        } else {
            (self.at(StageView::Finished), ActionView::Finish)
        }
    }

    /// The turn of the current key ends with that failure.
    pub open spec fn failed_with(self, message: Seq<char>) -> (RefreshView, ActionView) {
        self.settled(key_failure(self.current(), message), Tally::Failed).next_turn()
    }

    /// What follows once the authorization header is known: the billing requests
    /// are carried out, or the turn ends with what keeps them from being made.
    pub open spec fn authorized(
        self,
        decrypted_auth_config: Option<Seq<char>>,
        authorization: (Seq<char>, Seq<char>),
    ) -> (RefreshView, ActionView) {
        let auth_config = auth_config_in(decrypted_auth_config);
        if !auth_config_fits(decrypted_auth_config) {
            (self, ActionView::AuthConfigTooLong)
        } else if !request_fits(self.base_url, authorization, true) {
            (self, ActionView::BaseUrlTooLong)
        } else {
            match (
                billing_request(self.current().id, self.base_url, authorization, auth_config, true),
                billing_request(self.current().id, self.base_url, authorization, auth_config, false),
            ) {
                (Ok(weekly), Ok(monthly)) => (
                    self.at(StageView::Execution),
                    ActionView::Execute {
                        weekly: (weekly, WEEKLY_PROBE@),
                        monthly: (monthly, MONTHLY_PROBE@),
                        resolve_proxy: !self.proxy_override,
                    },
                ),
                (Err(message), _) => self.failed_with(message),
                (Ok(_), Err(message)) => self.failed_with(message),
            }
        }
    }

    /// What follows once the billing requests were carried out: the new state
    /// of the key is stored.
    pub open spec fn executed(self, executed: ExecutedView) -> (RefreshView, ActionView) {
        let now_unix_secs = match executed.now_unix_secs {
            Some(now_unix_secs) => now_unix_secs,
            None => 0,
        };
        let weekly = billing_part(executed.weekly, true, executed.weekly_billing);
        let monthly = billing_part(executed.monthly, false, executed.monthly_billing);
        let metadata_update = billing_metadata(
            self.current().upstream_metadata,
            weekly,
            monthly,
            now_unix_secs,
        );
        (
            self.at(StageView::Persistence(weekly, monthly, metadata_update)),
            ActionView::Persist {
                key_id: self.current().id,
                metadata_update,
                invalid: invalid_state(
                    self.current().invalid,
                    executed.on_success,
                    weekly,
                    monthly,
                    now_unix_secs,
                ),
            },
        )
    }

    /// What follows from what came of what was to be done.
    pub open spec fn advanced(self, event: EventView) -> (RefreshView, ActionView) {
        match (self.stage, event) {
            (StageView::Transport, EventView::TransportMissing) => self.failed_with(
                TRANSPORT_UNAVAILABLE@,
            ),
            (StageView::Transport, EventView::TransportRead(decrypted_auth_config)) => (
                self.at(StageView::Authorization(decrypted_auth_config)),
                ActionView::ResolveAuthorization,
            ),
            (StageView::Authorization(_), EventView::AuthorizationMissing) => (
                self.at(StageView::Removal),
                ActionView::CheckRemoval(self.current().id),
            ),
            (
                StageView::Authorization(decrypted_auth_config),
                EventView::AuthorizationResolved(authorization),
            ) => self.authorized(decrypted_auth_config, authorization),
            (StageView::Removal, EventView::KeyRemoved(result)) => self.settled(
                result,
                Tally::AutoRemoved,
            ).next_turn(),
            (StageView::Removal, EventView::KeyPresent) => self.failed_with(AUTHORIZATION_MISSING@),
            (StageView::Execution, EventView::Executed(executed)) => self.executed(executed),
            (StageView::Persistence(_, _, _), EventView::PersistFailed) => self.failed_with(
                PERSIST_FAILED@,
            ),
            (
                StageView::Persistence(weekly, monthly, metadata_update),
                EventView::Persisted(quota_snapshot),
            ) => self.settled(
                key_report(self.current(), weekly, monthly, metadata_update, quota_snapshot),
                if metadata_update is Some {
                    Tally::Success
                } else {
                    Tally::Failed
                },
            ).next_turn(),
            _ => (self, ActionView::OutOfTurn),
        }
    }

    /// The summary of a refresh.
    pub open spec fn summary(self) -> Json {
        Json::Object(
            no_members().insert("success"@, Json::Integer(self.success as int)).insert(
                "failed"@,
                Json::Integer(self.failed as int),
            ).insert("total"@, Json::Integer(self.results.len() as int)).insert(
                "results"@,
                Json::Array(self.results),
            ).insert(
                "message"@,
                Json::Text("已处理 "@ + decimal(self.results.len()) + " 个 Key"@),
            ).insert("auto_removed"@, Json::Integer(self.auto_removed as int)),
        )
    }
}

/// A refresh in which no key has had its turn.
pub open spec fn fresh_refresh(
    provider_id: Seq<char>,
    endpoint_id: Seq<char>,
    base_url: Seq<char>,
    proxy_override: bool,
    keys: Seq<KeyView>,
) -> RefreshView {
    RefreshView {
        provider_id,
        endpoint_id,
        base_url,
        proxy_override,
        keys,
        stage: StageView::Finished,
        results: Seq::empty(),
        success: 0,
        failed: 0,
        auto_removed: 0,
    }
}

/// The result for a key that was not refreshed.
pub open spec fn key_failure(key: KeyView, message: Seq<char>) -> Json {
    Json::Object(
        no_members().insert("key_id"@, Json::Text(key.id)).insert(
            "key_name"@,
            Json::Text(key.name),
        ).insert("status"@, Json::Text("error"@)).insert("message"@, Json::Text(message)),
    )
}

/// The members with one more, where there is a value for it.
pub open spec fn with_optional(
    members: Map<Seq<char>, Json>,
    name: Seq<char>,
    value: Option<Json>,
) -> Map<Seq<char>, Json> {
    match value {
        Some(value) => members.insert(name, value),
        None => members,
    }
}

/// The result for a key whose new state was stored.
pub open spec fn key_report(
    key: KeyView,
    weekly: PartView,
    monthly: PartView,
    metadata_update: Option<Json>,
    quota_snapshot: Option<Json>,
) -> Json {
    let any_success = metadata_update is Some;
    let members = no_members().insert("key_id"@, Json::Text(key.id)).insert(
        "key_name"@,
        Json::Text(key.name),
    ).insert(
        "status"@,
        Json::Text(
            if any_success {
                "success"@
            } else {
                "error"@
            },
        ),
    ).insert(
        "partial"@,
        Json::Bool(any_success && (!weekly.succeeded() || !monthly.succeeded())),
    );
    let message = match failure_message(weekly, monthly) {
        Some(message) => Some(Json::Text(message)),
        None => None,
    };
    let metadata = match metadata_update {
        Some(update) => member_of(update, "grok_oauth"@),
        None => None,
    };
    Json::Object(
        with_optional(
            with_optional(with_optional(members, "message"@, message), "metadata"@, metadata),
            "quota_snapshot"@,
            quota_snapshot,
        ),
    )
}

/// The result for a key that was not refreshed.
fn key_failure_value(key: &StoredProviderCatalogKey, message: &str) -> (result: Value)
    ensures
        json_of(result) == key_failure(key@, message@),
{
    let mut object = new_object();
    put(&mut object, "key_id", text_value(key.id.as_str()));
    put(&mut object, "key_name", text_value(key.name.as_str()));
    put(&mut object, "status", text_value("error"));
    put(&mut object, "message", text_value(message));
    object_value(object)
}

/// Adds a member where there is a value for it.
fn put_optional(object: &mut serde_json::Map<String, Value>, name: &str, value: Option<Value>)
    ensures
        members_of(*final(object)) == with_optional(
            members_of(*old(object)),
            name@,
            opt_json(value),
        ),
{
    if let Some(value) = value {
        put(object, name, value);
    }
}

/// The result for a key whose new state was stored.
fn key_report_value(
    key: &StoredProviderCatalogKey,
    weekly: &GrokOAuthBillingPart,
    monthly: &GrokOAuthBillingPart,
    metadata_update: &Option<Value>,
    quota_snapshot: Option<Value>,
) -> (result: Value)
    ensures
        json_of(result) == key_report(
            key@,
            weekly@,
            monthly@,
            opt_json(*metadata_update),
            opt_json(quota_snapshot),
        ),
{
    let any_success = metadata_update.is_some();
    let mut object = new_object();
    put(&mut object, "key_id", text_value(key.id.as_str()));
    put(&mut object, "key_name", text_value(key.name.as_str()));
    put(
        &mut object,
        "status",
        text_value(
            if any_success {
                "success"
            } else {
                "error"
            },
        ),
    );
    put(
        &mut object,
        "partial",
        bool_value(any_success && (!weekly.succeeded() || !monthly.succeeded())),
    );
    let message = match grok_oauth_failure_message(weekly, monthly) {
        Some(message) => Some(text_value(message.as_str())),
        None => None,
    };
    put_optional(&mut object, "message", message);
    let metadata = match member_in(metadata_update.as_ref(), "grok_oauth") {
        Some(metadata) => Some(copy_value(metadata)),
        None => None,
    };
    put_optional(&mut object, "metadata", metadata);
    put_optional(&mut object, "quota_snapshot", quota_snapshot);
    object_value(object)
}

/// A copy of an optional value.
fn copy_optional(value: &Option<Value>) -> (copy: Option<Value>)
    ensures
        opt_json(copy) == opt_json(*value),
{
    match value {
        Some(value) => Some(copy_value(value)),
        None => None,
    }
}

impl QuotaRefresh {
    /// Starts the refresh of the keys of a provider over an endpoint.
    pub fn start(
        provider_id: String,
        endpoint_id: String,
        base_url: String,
        proxy_override: bool,
        keys: Vec<StoredProviderCatalogKey>,
    ) -> (started: (QuotaRefresh, RefreshAction))
        ensures
            (started.0@, started.1@) == (RefreshView {
                provider_id: provider_id@,
                endpoint_id: endpoint_id@,
                base_url: base_url@,
                proxy_override,
                keys: key_views(keys@),
                stage: StageView::Finished,
                results: Seq::empty(),
                success: 0,
                failed: 0,
                auto_removed: 0,
            }).next_turn(),
            (started.0@, started.1@) == fresh_refresh(
                provider_id@,
                endpoint_id@,
                base_url@,
                proxy_override,
                key_views(keys@),
            ).next_turn(),
            started.0@.is_started(key_views(keys@)),
            started.0@.well_formed(),
    {
        let refresh = QuotaRefresh {
            provider_id,
            endpoint_id,
            base_url,
            proxy_override,
            keys,
            stage: RefreshStage::Finished,
            results: Vec::new(),
            success: 0,
            failed: 0,
            auto_removed: 0,
        };
        proof {
            assert(jsons_of(refresh.results@) =~= Seq::<Json>::empty());
        }
        refresh.take_turn()
    }

    /// Starts the next turn, or ends the refresh where all keys have had theirs.
    fn take_turn(self) -> (next: (QuotaRefresh, RefreshAction))
        ensures
            (next.0@, next.1@) == self@.next_turn(),
    {
        let at: usize = self.results.len();
        if at < self.keys.len() {
            let action = RefreshAction::ReadTransport {
                provider_id: self.provider_id.clone(),
                endpoint_id: self.endpoint_id.clone(),
                key_id: self.keys[at].id.clone(),
            };
            (QuotaRefresh { stage: RefreshStage::Transport, ..self }, action)
        } else {
            (QuotaRefresh { stage: RefreshStage::Finished, ..self }, RefreshAction::Finish)
        }
    }

    /// The key whose turn it is, if any is left.
    pub fn current_key(&self) -> (key: Option<&StoredProviderCatalogKey>)
        ensures
            match key {
                Some(key) => self@.results.len() < self@.keys.len() && key@ == self@.current(),
                None => self@.results.len() >= self@.keys.len(),
            },
            match key {
                Some(key) => self@.turn() == Some(key@),
                None => self@.turn() is None,
            },
    {
        let at: usize = self.results.len();
        if at < self.keys.len() {
            Some(&self.keys[at])
        } else {
            None
        }
    }

    /// Ends the turn of the current key with that result.
    fn settle(self, result: Value, success: bool, auto_removed: bool) -> (next: (
        QuotaRefresh,
        RefreshAction,
    ))
        requires
            self@.well_formed(),
            self@.results.len() < self@.keys.len(),
            !(success && auto_removed),
        ensures
            (next.0@, next.1@) == self@.settled(
                json_of(result),
                if success {
                    Tally::Success
                } else if auto_removed {
                    Tally::AutoRemoved
                } else {
                    Tally::Failed
                },
            ).next_turn(),
            next.0@.well_formed(),
    {
        let ghost before = self@;
        let total: usize = self.keys.len();
        assert(before.success + before.failed + before.auto_removed < total);
        let mut refresh = self;
        refresh.results.push(result);
        if success {
            refresh.success = refresh.success + 1;
        } else if auto_removed {
            refresh.auto_removed = refresh.auto_removed + 1;
        } else {
            refresh.failed = refresh.failed + 1;
        }
        proof {
            assert(refresh@.results =~= before.results.push(json_of(result)));
        }
        refresh.take_turn()
    }

    /// Ends the turn of the current key with that failure.
    fn fail_key(self, message: &str) -> (next: (QuotaRefresh, RefreshAction))
        requires
            self@.well_formed(),
            self@.results.len() < self@.keys.len(),
        ensures
            (next.0@, next.1@) == self@.failed_with(message@),
            next.0@.well_formed(),
    {
        let result = key_failure_value(&self.keys[self.results.len()], message);
        self.settle(result, false, false)
    }

    /// Makes the billing requests of the current key, or ends its turn with what
    /// keeps them from being made.
    fn authorize(self, decrypted_auth_config: Option<String>, name: String, value: String) -> (next:
        (QuotaRefresh, RefreshAction))
        requires
            self@.well_formed(),
            self@.results.len() < self@.keys.len(),
            self@.stage == StageView::Authorization(opt_text(decrypted_auth_config)),
        ensures
            (next.0@, next.1@) == self@.authorized(
                opt_text(decrypted_auth_config),
                (name@, value@),
            ),
            next.0@.well_formed(),
            next.1.well_formed(self@.base_url),
    {
        if !grok_oauth_auth_config_fits(&decrypted_auth_config) {
            return (self, RefreshAction::AuthConfigTooLong);
        }
        let auth_config = grok_oauth_auth_config(&decrypted_auth_config);
        let key_id = self.keys[self.results.len()].id.clone();
        let weekly = match try_build_grok_oauth_pool_billing_request(
            key_id.as_str(),
            self.base_url.as_str(),
            (name.clone(), value.clone()),
            auth_config.as_ref(),
            true,
        ) {
            Some(Ok(weekly)) => weekly,
            Some(Err(message)) => return self.fail_key(message.as_str()),
            None => return (self, RefreshAction::BaseUrlTooLong),
        };
        proof {
            if base_url_fits(self.base_url@, true) {
                lemma_weekly_fits(self.base_url@);
            }
        }
        let monthly = match try_build_grok_oauth_pool_billing_request(
            key_id.as_str(),
            self.base_url.as_str(),
            (name, value),
            auth_config.as_ref(),
            false,
        ) {
            Some(Ok(monthly)) => monthly,
            Some(Err(message)) => return self.fail_key(message.as_str()),
            None => return (self, RefreshAction::BaseUrlTooLong),
        };
        let resolve_proxy = !self.proxy_override;
        (
            QuotaRefresh { stage: RefreshStage::Execution, ..self },
            RefreshAction::Execute {
                weekly,
                weekly_probe: WEEKLY_PROBE,
                monthly,
                monthly_probe: MONTHLY_PROBE,
                resolve_proxy,
            },
        )
    }

    /// Works out the new state of the current key.
    fn execute(
        self,
        weekly: GrokOAuthBillingPart,
        monthly: GrokOAuthBillingPart,
        now_unix_secs: u64,
        on_success: (Option<u64>, Option<String>),
    ) -> (next: (QuotaRefresh, RefreshAction))
        requires
            self@.well_formed(),
            self@.results.len() < self@.keys.len(),
        ensures
            ({
                let metadata_update = billing_metadata(
                    self@.current().upstream_metadata,
                    weekly@,
                    monthly@,
                    now_unix_secs,
                );
                &&& next.0@ == self@.at(
                    StageView::Persistence(weekly@, monthly@, metadata_update),
                )
                &&& next.1@ == ActionView::Persist {
                    key_id: self@.current().id,
                    metadata_update,
                    invalid: invalid_state(
                        self@.current().invalid,
                        (on_success.0, opt_text(on_success.1)),
                        weekly@,
                        monthly@,
                        now_unix_secs,
                    ),
                }
            }),
            next.0@.well_formed(),
    {
        let key = &self.keys[self.results.len()];
        let metadata_update = build_grok_oauth_billing_metadata(
            key,
            &weekly,
            &monthly,
            now_unix_secs,
        );
        let (oauth_invalid_at, oauth_invalid_reason) = grok_oauth_quota_invalid_state(
            key,
            on_success,
            &weekly,
            &monthly,
            now_unix_secs,
        );
        let action = RefreshAction::Persist {
            key_id: key.id.clone(),
            metadata_update: copy_optional(&metadata_update),
            oauth_invalid_at,
            oauth_invalid_reason,
        };
        (
            QuotaRefresh {
                stage: RefreshStage::Persistence { weekly, monthly, metadata_update },
                ..self
            },
            action,
        )
    }

    /// Goes on with what came of what was to be done. What does not answer that
    /// changes nothing.
    pub fn advance(self, event: RefreshEvent) -> (next: (QuotaRefresh, RefreshAction))
        requires
            self@.well_formed(),
        ensures
            (next.0@, next.1@) == self@.advanced(event@),
            next.0@.well_formed(),
            next.1.well_formed(self@.base_url),
    {
        match event {
            RefreshEvent::TransportMissing => match self.stage {
                RefreshStage::Transport => self.fail_key(TRANSPORT_UNAVAILABLE),
                _ => (self, RefreshAction::OutOfTurn),
            },
            RefreshEvent::TransportRead { decrypted_auth_config } => match self.stage {
                RefreshStage::Transport => (
                    QuotaRefresh {
                        stage: RefreshStage::Authorization { decrypted_auth_config },
                        ..self
                    },
                    RefreshAction::ResolveAuthorization,
                ),
                _ => (self, RefreshAction::OutOfTurn),
            },
            RefreshEvent::AuthorizationMissing => match self.stage {
                RefreshStage::Authorization { .. } => {
                    let key_id = self.keys[self.results.len()].id.clone();
                    (
                        QuotaRefresh { stage: RefreshStage::Removal, ..self },
                        RefreshAction::CheckRemoval { key_id },
                    )
                },
                _ => (self, RefreshAction::OutOfTurn),
            },
            RefreshEvent::AuthorizationResolved { name, value } => match &self.stage {
                RefreshStage::Authorization { decrypted_auth_config } => {
                    let decrypted_auth_config = copy_text(decrypted_auth_config);
                    self.authorize(decrypted_auth_config, name, value)
                },
                _ => (self, RefreshAction::OutOfTurn),
            },
            RefreshEvent::KeyRemoved { result } => match self.stage {
                RefreshStage::Removal => self.settle(result, false, true),
                _ => (self, RefreshAction::OutOfTurn),
            },
            RefreshEvent::KeyPresent => match self.stage {
                RefreshStage::Removal => self.fail_key(AUTHORIZATION_MISSING),
                _ => (self, RefreshAction::OutOfTurn),
            },
            RefreshEvent::Executed {
                weekly,
                weekly_billing,
                monthly,
                monthly_billing,
                now_unix_secs,
                success_invalid_at,
                success_invalid_reason,
            } => match self.stage {
                RefreshStage::Execution => self.execute(
                    parse_grok_oauth_billing_part(weekly, true, weekly_billing),
                    parse_grok_oauth_billing_part(monthly, false, monthly_billing),
                    now_unix_secs.unwrap_or(0),
                    (success_invalid_at, success_invalid_reason),
                ),
                _ => (self, RefreshAction::OutOfTurn),
            },
            RefreshEvent::PersistFailed => match self.stage {
                RefreshStage::Persistence { .. } => self.fail_key(PERSIST_FAILED),
                _ => (self, RefreshAction::OutOfTurn),
            },
            RefreshEvent::Persisted { quota_snapshot } => match &self.stage {
                RefreshStage::Persistence { weekly, monthly, metadata_update } => {
                    let result = key_report_value(
                        &self.keys[self.results.len()],
                        weekly,
                        monthly,
                        metadata_update,
                        quota_snapshot,
                    );
                    let any_success = metadata_update.is_some();
                    self.settle(result, any_success, false)
                },
                _ => (self, RefreshAction::OutOfTurn),
            },
        }
    }

    /// The summary of the keys that have had their turn.
    pub fn into_summary(self) -> (summary: Value)
        ensures
            json_of(summary) == self@.summary(),
    {
        let total: usize = self.results.len();
        let mut message: String = joined("已处理 ", decimal_text(total as u64).as_str());
        message.append(" 个 Key");
        let mut object = new_object();
        put(&mut object, "success", number_value(self.success as u64));
        put(&mut object, "failed", number_value(self.failed as u64));
        put(&mut object, "total", number_value(total as u64));
        put(&mut object, "results", array_value(self.results));
        put(&mut object, "message", text_value(message.as_str()));
        put(&mut object, "auto_removed", number_value(self.auto_removed as u64));
        object_value(object)
    }
}

} // verus!
