//! What each event does to a refresh, and what comes out at the end.
use crate::billing::{
    auth_config_fits, auth_config_in, billing_part, failure_message, stored_members, KeyView,
    OutcomeView, PartView,
};
use crate::json::{member_of, Json};
use crate::laws::billing::{
    brought_up_to_date, is_bookkeeping, law_bookkeeping_of_a_refresh, law_metadata_by_name,
    law_when_a_key_is_invalid, members_read, status_of,
};
use crate::refresh::{
    fresh_refresh, ActionView, EventView, ExecutedView, RefreshView, StageView,
};
use crate::request::{billing_request, request_fits};
use crate::text::decimal;
use vstd::prelude::*;

verus! {

/// The key whose turn it is.
pub open spec fn key_of_turn(refresh: RefreshView) -> KeyView {
    refresh.keys[refresh.results.len() as int]
}

// What came of the requests
/// Each window is read from its own answer alone: where a refresh has carried out
/// the requests of a key, the weekly part succeeds exactly where the weekly answer
/// is a good one with a JSON body in which an object was read, whatever the
/// monthly answer is, and the other way round. What was read is taken over whole,
/// and each part has the status of its own answer.
pub proof fn law_each_window_is_read_from_its_own_answer(
    refresh: RefreshView,
    executed: ExecutedView,
)
    requires
        refresh.stage is Execution,
    ensures
        refresh.advanced(EventView::Executed(executed)).0.stage matches StageView::Persistence(
            weekly,
            monthly,
            _,
        ) && {
            &&& weekly.window == "weekly"@
            &&& monthly.window == "monthly"@
            &&& weekly.metadata == match (executed.weekly, executed.weekly_billing) {
                (
                    OutcomeView::Response(200, Some(_), _),
                    Some(Json::Object(members)),
                ) => Some(members),
                _ => None,
            }
            &&& monthly.metadata == match (executed.monthly, executed.monthly_billing) {
                (
                    OutcomeView::Response(200, Some(_), _),
                    Some(Json::Object(members)),
                ) => Some(members),
                _ => None,
            }
            &&& weekly.status_code == match executed.weekly {
                OutcomeView::Response(status_code, _, _) => status_code,
                OutcomeView::Failure(_) => 502,
            }
            &&& monthly.status_code == match executed.monthly {
                OutcomeView::Response(status_code, _, _) => status_code,
                OutcomeView::Failure(_) => 502,
            }
        },
{
}

/// The part of a window depends on nothing but its own answer and reading: two
/// refreshes of any keys that agree on these agree on the part.
pub proof fn law_windows_do_not_meddle(
    one: RefreshView,
    a: ExecutedView,
    other: RefreshView,
    b: ExecutedView,
)
    requires
        one.stage is Execution,
        other.stage is Execution,
    ensures
        one.advanced(EventView::Executed(a)).0.stage matches StageView::Persistence(
            weekly_a,
            monthly_a,
            _,
        ) && other.advanced(EventView::Executed(b)).0.stage matches StageView::Persistence(
            weekly_b,
            monthly_b,
            _,
        ) && {
            &&& a.weekly == b.weekly && a.weekly_billing == b.weekly_billing ==> weekly_a == weekly_b
            &&& a.monthly == b.monthly && a.monthly_billing == b.monthly_billing ==> monthly_a
                == monthly_b
        },
{
}

/// What is said of a window that was not read is what its own answer gives.
pub proof fn law_each_window_speaks_of_its_own_answer(
    refresh: RefreshView,
    executed: ExecutedView,
)
    requires
        refresh.stage is Execution,
    ensures
        refresh.advanced(EventView::Executed(executed)).0.stage matches StageView::Persistence(
            weekly,
            monthly,
            _,
        ) && {
            &&& weekly.message == billing_part(
                executed.weekly,
                true,
                executed.weekly_billing,
            ).message
            &&& monthly.message == billing_part(
                executed.monthly,
                false,
                executed.monthly_billing,
            ).message
        },
{
}

/// Whether an answer is a good one with a JSON body in which an object was read.
pub open spec fn is_read(outcome: OutcomeView, reading: Option<Json>) -> bool {
    &&& outcome matches OutcomeView::Response(status_code, body, _)
    &&& status_code == 200
    &&& body is Some
    &&& reading matches Some(value)
    &&& value is Object
}

/// Whether the upstream has answered with 401.
pub open spec fn is_unauthorized(outcome: OutcomeView) -> bool {
    outcome matches OutcomeView::Response(status_code, _, _) && status_code == 401
}

/// The state that is stored for a key follows from its answers: one window that
/// was read brings the state after a success, without one a status of 401 marks
/// the key as expired at the time of the answers, and otherwise it stays as it
/// was.
pub proof fn law_stored_state_follows_from_the_answers(
    refresh: RefreshView,
    executed: ExecutedView,
)
    requires
        refresh.stage is Execution,
    ensures
        refresh.advanced(EventView::Executed(executed)).1 matches ActionView::Persist {
            key_id,
            metadata_update: _,
            invalid,
        } && {
            let now = match executed.now_unix_secs {
                Some(now) => now,
                None => 0,
            };
            &&& key_id == key_of_turn(refresh).id
            &&& invalid == if is_read(executed.weekly, executed.weekly_billing) || is_read(
                executed.monthly,
                executed.monthly_billing,
            ) {
                executed.on_success
            } else if is_unauthorized(executed.weekly) || is_unauthorized(executed.monthly) {
                (Some(now), Some("[OAUTH_EXPIRED] Grok OAuth Token 无效或已过期"@))
            } else {
                key_of_turn(refresh).invalid
            }
        },
{
    let now: u64 = match executed.now_unix_secs {
        Some(now) => now,
        None => 0,
    };
    law_when_a_key_is_invalid(
        key_of_turn(refresh).invalid,
        executed.on_success,
        billing_part(executed.weekly, true, executed.weekly_billing),
        billing_part(executed.monthly, false, executed.monthly_billing),
        now,
    );
}

/// What is stored of an account follows from what was stored and from the
/// answers: nothing where no window was read, and otherwise one object under
/// `grok_oauth`. There the bookkeeping is that of the answers, and under every
/// other name stands what the windows make of what stood there.
pub proof fn law_stored_metadata_follows_from_the_answers(
    refresh: RefreshView,
    executed: ExecutedView,
    name: Seq<char>,
)
    requires
        refresh.stage is Execution,
    ensures
        refresh.advanced(EventView::Executed(executed)).0.stage matches StageView::Persistence(
            weekly,
            monthly,
            metadata,
        ) && refresh.advanced(EventView::Executed(executed)).1 matches ActionView::Persist {
            metadata_update,
            ..
        } && {
            let now = match executed.now_unix_secs {
                Some(now) => now,
                None => 0,
            };
            let stored = match key_of_turn(refresh).upstream_metadata {
                Some(upstream) => match member_of(upstream, "grok_oauth"@) {
                    Some(Json::Object(stored)) => stored.get(name),
                    _ => None,
                },
                None => None,
            };
            &&& metadata_update == metadata
            &&& metadata_update is Some <==> is_read(executed.weekly, executed.weekly_billing)
                || is_read(executed.monthly, executed.monthly_billing)
            &&& metadata_update matches Some(update) ==> {
                &&& update is Object
                &&& forall|other: Seq<char>| #[trigger]
                    update->Object_0.contains_key(other) <==> other == "grok_oauth"@
                &&& update->Object_0["grok_oauth"@] matches Json::Object(kept) && {
                    &&& kept.contains_pair("updated_at"@, Json::Integer(now as int))
                    &&& kept.contains_pair("source"@, Json::Text("billing_probe"@))
                    &&& kept.contains_pair(
                        "weekly_status_code"@,
                        Json::Integer(status_of(executed.weekly) as int),
                    )
                    &&& kept.contains_pair(
                        "monthly_status_code"@,
                        Json::Integer(status_of(executed.monthly) as int),
                    )
                    &&& kept.contains_pair(
                        "partial"@,
                        Json::Bool(
                            !is_read(executed.weekly, executed.weekly_billing) || !is_read(
                                executed.monthly,
                                executed.monthly_billing,
                            ),
                        ),
                    )
                    &&& kept.contains_pair(
                        "failed_windows"@,
                        Json::Array(
                            if !is_read(executed.weekly, executed.weekly_billing) {
                                seq![Json::Text("weekly"@)]
                            } else if !is_read(executed.monthly, executed.monthly_billing) {
                                seq![Json::Text("monthly"@)]
                            } else {
                                Seq::empty()
                            },
                        ),
                    )
                    &&& !is_bookkeeping(name) ==> kept.get(name) == brought_up_to_date(
                        brought_up_to_date(stored, weekly, name),
                        monthly,
                        name,
                    )
                }
            }
        },
{
    let now: u64 = match executed.now_unix_secs {
        Some(now) => now,
        None => 0,
    };
    let weekly = billing_part(executed.weekly, true, executed.weekly_billing);
    let monthly = billing_part(executed.monthly, false, executed.monthly_billing);
    let stored = stored_members(key_of_turn(refresh).upstream_metadata);
    law_bookkeeping_of_a_refresh(stored, weekly, monthly, now);
    if !is_bookkeeping(name) {
        law_metadata_by_name(stored, weekly, monthly, now, name);
    }
    assert(weekly.metadata == members_read(executed.weekly, executed.weekly_billing));
}

// What an event does
/// An event changes nothing but the stage, the results and the counters.
pub proof fn law_events_leave_the_rest(refresh: RefreshView, event: EventView)
    ensures
        refresh.advanced(event).0.provider_id == refresh.provider_id,
        refresh.advanced(event).0.endpoint_id == refresh.endpoint_id,
        refresh.advanced(event).0.base_url == refresh.base_url,
        refresh.advanced(event).0.proxy_override == refresh.proxy_override,
        refresh.advanced(event).0.keys == refresh.keys,
{
}

/// Which events answer what is to be done at each stage.
pub proof fn law_which_events_answer(refresh: RefreshView, event: EventView)
    ensures
        refresh.advanced(event).1 is OutOfTurn <==> match refresh.stage {
            StageView::Transport => !(event is TransportMissing) && !(event is TransportRead),
            StageView::Authorization(_) => !(event is AuthorizationMissing) && !(event
                is AuthorizationResolved),
            StageView::Removal => !(event is KeyRemoved) && !(event is KeyPresent),
            StageView::Execution => !(event is Executed),
            StageView::Persistence(_, _, _) => !(event is PersistFailed) && !(event is Persisted),
            StageView::Finished => true,
        },
{
}

/// How many keys a refresh counts as refreshed, failed and removed.
pub open spec fn counters(refresh: RefreshView) -> (nat, nat, nat) {
    (refresh.success, refresh.failed, refresh.auto_removed)
}

/// Whether the turn of a key has ended with that result: it stands behind the
/// earlier ones, and the transport of the next key is to be read, or the refresh
/// is finished where there is none.
pub open spec fn ends_turn(
    refresh: RefreshView,
    after: RefreshView,
    action: ActionView,
    result: Json,
) -> bool {
    &&& after.results.len() == refresh.results.len() + 1
    &&& after.results.last() == result
    &&& forall|i: int| 0 <= i < refresh.results.len() ==> after.results[i] == refresh.results[i]
    &&& if after.results.len() < refresh.keys.len() {
        after.stage is Transport && action == ActionView::ReadTransport(
            refresh.provider_id,
            refresh.endpoint_id,
            refresh.keys[after.results.len() as int].id,
        )
    } else {
        after.stage is Finished && action is Finish
    }
}

/// Whether a result says of a key that it failed, and why, and nothing else.
pub open spec fn is_failure(result: Json, key: KeyView, message: Seq<char>) -> bool {
    result matches Json::Object(members) && {
        &&& members.contains_pair("key_id"@, Json::Text(key.id))
        &&& members.contains_pair("key_name"@, Json::Text(key.name))
        &&& members.contains_pair("status"@, Json::Text("error"@))
        &&& members.contains_pair("message"@, Json::Text(message))
        &&& forall|name: Seq<char>| #[trigger]
            members.contains_key(name) ==> name == "key_id"@ || name == "key_name"@ || name
                == "status"@ || name == "message"@
    }
}

/// Whether the turn of a key has ended with that failure.
pub open spec fn fails_key(
    refresh: RefreshView,
    after: RefreshView,
    action: ActionView,
    message: Seq<char>,
) -> bool {
    &&& ends_turn(refresh, after, action, after.results.last())
    &&& is_failure(after.results.last(), key_of_turn(refresh), message)
    &&& counters(after) == (refresh.success, refresh.failed + 1, refresh.auto_removed)
}

/// Whether the turn of a key has gone on to another stage, with nothing counted.
pub open spec fn goes_on(refresh: RefreshView, after: RefreshView, stage: StageView) -> bool {
    &&& after.stage == stage
    &&& after.results == refresh.results
    &&& counters(after) == counters(refresh)
}

/// A key whose transport is not there fails.
pub proof fn law_transport_missing(refresh: RefreshView)
    requires
        refresh.stage is Transport,
    ensures
        ({
            let (after, action) = refresh.advanced(EventView::TransportMissing);
            fails_key(refresh, after, action, "Provider transport snapshot unavailable"@)
        }),
{
    lemma_names_differ();
}

/// With the transport of a key its authorization is to be resolved.
pub proof fn law_transport_read(refresh: RefreshView, decrypted: Option<Seq<char>>)
    requires
        refresh.stage is Transport,
    ensures
        ({
            let (after, action) = refresh.advanced(EventView::TransportRead(decrypted));
            goes_on(refresh, after, StageView::Authorization(decrypted)) && action
                is ResolveAuthorization
        }),
{
}

/// Of a key without authorization it is checked whether it is still there.
pub proof fn law_authorization_missing(refresh: RefreshView)
    requires
        refresh.stage is Authorization,
    ensures
        ({
            let (after, action) = refresh.advanced(EventView::AuthorizationMissing);
            goes_on(refresh, after, StageView::Removal) && action == ActionView::CheckRemoval(
                key_of_turn(refresh).id,
            )
        }),
{
}

/// A key that has been removed counts as removed, with the result that came.
pub proof fn law_key_removed(refresh: RefreshView, result: Json)
    requires
        refresh.stage is Removal,
    ensures
        ({
            let (after, action) = refresh.advanced(EventView::KeyRemoved(result));
            &&& ends_turn(refresh, after, action, result)
            &&& counters(after) == (refresh.success, refresh.failed, refresh.auto_removed + 1)
        }),
{
}

/// A key without authorization that is still there fails.
pub proof fn law_key_present(refresh: RefreshView)
    requires
        refresh.stage is Removal,
    ensures
        ({
            let (after, action) = refresh.advanced(EventView::KeyPresent);
            fails_key(
                refresh,
                after,
                action,
                "缺少 Grok OAuth 认证信息，请先授权/刷新 Token"@,
            )
        }),
{
    lemma_names_differ();
}

/// With its authorization both requests of a key are to be carried out, as they
/// are made for its id, the base URL, the authorization and what the decrypted
/// configuration holds, each under its name, over the proxy of the transport
/// unless the caller has set one. A key for which they cannot be made fails with
/// what keeps them from being made.
pub proof fn law_authorization_resolved(
    refresh: RefreshView,
    decrypted: Option<Seq<char>>,
    authorization: (Seq<char>, Seq<char>),
)
    requires
        refresh.stage == StageView::Authorization(decrypted),
    ensures
        ({
            let (after, action) = refresh.advanced(
                EventView::AuthorizationResolved(authorization),
            );
            let key_id = key_of_turn(refresh).id;
            let auth_config = auth_config_in(decrypted);
            let made_weekly = billing_request(
                key_id,
                refresh.base_url,
                authorization,
                auth_config,
                true,
            );
            let made_monthly = billing_request(
                key_id,
                refresh.base_url,
                authorization,
                auth_config,
                false,
            );
            if !auth_config_fits(decrypted) {
                after == refresh && action is AuthConfigTooLong
            } else if !request_fits(refresh.base_url, authorization, true) {
                after == refresh && action is BaseUrlTooLong
            } else {
                match (made_weekly, made_monthly) {
                    (Ok(weekly_request), Ok(monthly_request)) => {
                        &&& goes_on(refresh, after, StageView::Execution)
                        &&& action matches ActionView::Execute { weekly, monthly, resolve_proxy }
                            && {
                            &&& weekly.0 == weekly_request
                            &&& weekly.1 == "grok_oauth_weekly"@
                            &&& monthly.0 == monthly_request
                            &&& monthly.1 == "grok_oauth_monthly"@
                            &&& resolve_proxy <==> !refresh.proxy_override
                        }
                    },
                    (Err(message), _) => fails_key(refresh, after, action, message),
                    (Ok(_), Err(message)) => fails_key(refresh, after, action, message),
                }
            }
        }),
{
    lemma_names_differ();
}

/// With its answers the turn of a key goes on to the storing of its new state.
pub proof fn law_executed_goes_on(refresh: RefreshView, executed: ExecutedView)
    requires
        refresh.stage is Execution,
    ensures
        ({
            let (after, action) = refresh.advanced(EventView::Executed(executed));
            &&& after.stage is Persistence
            &&& goes_on(refresh, after, after.stage)
            &&& action is Persist
        }),
{
}

/// A key whose new state could not be stored fails.
pub proof fn law_persist_failed(refresh: RefreshView)
    requires
        refresh.stage is Persistence,
    ensures
        ({
            let (after, action) = refresh.advanced(EventView::PersistFailed);
            fails_key(refresh, after, action, "Key 状态写入失败"@)
        }),
{
    lemma_names_differ();
}

/// A key whose new state was stored counts as refreshed where there is metadata
/// to store and as failed where there is none, and its result says so: it names
/// the key, its status, whether one window alone was read, and as far as there is
/// any, what went wrong, what is kept of the account and the snapshot. It says
/// nothing else.
pub proof fn law_persisted(
    refresh: RefreshView,
    weekly: PartView,
    monthly: PartView,
    metadata: Option<Json>,
    quota_snapshot: Option<Json>,
    name: Seq<char>,
)
    requires
        refresh.stage == StageView::Persistence(weekly, monthly, metadata),
    ensures
        ({
            let (after, action) = refresh.advanced(EventView::Persisted(quota_snapshot));
            let said = match failure_message(weekly, monthly) {
                Some(message) => Some(Json::Text(message)),
                None => None,
            };
            let kept = match metadata {
                Some(Json::Object(members)) => members.get("grok_oauth"@),
                _ => None,
            };
            &&& ends_turn(refresh, after, action, after.results.last())
            &&& counters(after) == if metadata is Some {
                (refresh.success + 1, refresh.failed, refresh.auto_removed)
            } else {
                (refresh.success, refresh.failed + 1, refresh.auto_removed)
            }
            &&& after.results.last() matches Json::Object(members) && members.get(name) == if name
                == "key_id"@ {
                Some(Json::Text(key_of_turn(refresh).id))
            } else if name == "key_name"@ {
                Some(Json::Text(key_of_turn(refresh).name))
            } else if name == "status"@ {
                Some(
                    Json::Text(
                        if metadata is Some {
                            "success"@
                        } else {
                            "error"@
                        },
                    ),
                )
            } else if name == "partial"@ {
                Some(
                    Json::Bool(
                        metadata is Some && (weekly.metadata is None || monthly.metadata is None),
                    ),
                )
            } else if name == "message"@ {
                said
            } else if name == "metadata"@ {
                kept
            } else if name == "quota_snapshot"@ {
                quota_snapshot
            } else {
                None
            }
        }),
{
    lemma_names_differ();
}

/// A refresh starts with what it is given, without results and with nothing
/// counted. The first turn is that of the first key, and a refresh without keys
/// is finished at once.
pub proof fn law_first_turn(
    provider_id: Seq<char>,
    endpoint_id: Seq<char>,
    base_url: Seq<char>,
    proxy_override: bool,
    keys: Seq<KeyView>,
)
    ensures
        ({
            let (after, action) = fresh_refresh(
                provider_id,
                endpoint_id,
                base_url,
                proxy_override,
                keys,
            ).next_turn();
            &&& after.provider_id == provider_id
            &&& after.endpoint_id == endpoint_id
            &&& after.base_url == base_url
            &&& after.proxy_override == proxy_override
            &&& after.keys == keys
            &&& after.results.len() == 0
            &&& counters(after) == (0nat, 0nat, 0nat)
            &&& if keys.len() > 0 {
                after.stage is Transport && action == ActionView::ReadTransport(
                    provider_id,
                    endpoint_id,
                    keys[0].id,
                )
            } else {
                after.stage is Finished && action is Finish
            }
        }),
{
}

/// The summary holds the counters, the number of the results, the results, and a
/// message with their number, and nothing else.
pub proof fn law_summary(refresh: RefreshView, name: Seq<char>)
    ensures
        refresh.summary() matches Json::Object(members) && members.get(name) == if name
            == "success"@ {
            Some(Json::Integer(refresh.success as int))
        } else if name == "failed"@ {
            Some(Json::Integer(refresh.failed as int))
        } else if name == "auto_removed"@ {
            Some(Json::Integer(refresh.auto_removed as int))
        } else if name == "total"@ {
            Some(Json::Integer(refresh.results.len() as int))
        } else if name == "results"@ {
            Some(Json::Array(refresh.results))
        } else if name == "message"@ {
            Some(Json::Text("已处理 "@ + decimal(refresh.results.len()) + " 个 Key"@))
        } else {
            None
        },
{
    reveal_strlit("success");
    reveal_strlit("failed");
    reveal_strlit("total");
    reveal_strlit("results");
    reveal_strlit("message");
    reveal_strlit("auto_removed");
    assert("success"@[0] == 's' && "results"@[0] == 'r' && "message"@[0] == 'm');
    assert("failed"@[0] == 'f' && "total"@[0] == 't' && "auto_removed"@[0] == 'a');
}

/// The key whose turn it is stands at the place of the next result.
pub proof fn law_current_key(refresh: RefreshView)
    ensures
        refresh.current() == refresh.keys[refresh.results.len() as int],
        refresh.results.len() < refresh.keys.len() ==> refresh.turn() == Some(
            refresh.keys[refresh.results.len() as int],
        ),
        refresh.results.len() >= refresh.keys.len() ==> refresh.turn() is None,
{
}

/// The names in a result differ from each other.
proof fn lemma_names_differ()
    ensures
        "key_id"@.len() == 6 && "key_id"@[0] == 'k',
        "key_name"@.len() == 8 && "key_name"@[0] == 'k',
        "status"@.len() == 6 && "status"@[0] == 's',
        "partial"@.len() == 7 && "partial"@[0] == 'p',
        "message"@.len() == 7 && "message"@[0] == 'm',
        "metadata"@.len() == 8 && "metadata"@[0] == 'm',
        "quota_snapshot"@.len() == 14,
{
    reveal_strlit("key_id");
    reveal_strlit("key_name");
    reveal_strlit("status");
    reveal_strlit("partial");
    reveal_strlit("message");
    reveal_strlit("metadata");
    reveal_strlit("quota_snapshot");
}

} // verus!
