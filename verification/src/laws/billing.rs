//! What an answer to a billing request comes to, and what is kept of an account,
//! field by field.
use crate::billing::{
    auth_config_fits, auth_config_in, billing_body, billing_metadata, billing_part,
    failure_message, invalid_state, refreshed_members, stored_members, window_fields, OutcomeView,
    PartView,
};
use crate::json::{parsed_json, Json};
use crate::limits::lemma_short_json_fits;
use crate::text::{decimal, trimmed};
use vstd::prelude::*;

verus! {

// The answer to a request
/// What an outcome and what was read in its body amount to: the members of the
/// object that was read, where the answer is a good one with a JSON body.
pub open spec fn members_read(outcome: OutcomeView, reading: Option<Json>) -> Option<
    Map<Seq<char>, Json>,
> {
    match outcome {
        OutcomeView::Response(status_code, Some(_), _) => match reading {
            Some(Json::Object(members)) => if status_code == 200 {
                Some(members)
            } else {
                None
            },
            _ => None,
        },
        _ => None,
    }
}

/// The status of an outcome: that of the answer, or 502 where there is none.
pub open spec fn status_of(outcome: OutcomeView) -> u16 {
    match outcome {
        OutcomeView::Response(status_code, _, _) => status_code,
        OutcomeView::Failure(_) => 502,
    }
}

/// A window takes over all that was read in its answer, and nothing else, has the
/// status of its own answer and its own name.
pub proof fn law_window_takes_over_what_was_read(
    outcome: OutcomeView,
    weekly: bool,
    reading: Option<Json>,
)
    ensures
        billing_part(outcome, weekly, reading).metadata == members_read(outcome, reading),
        billing_part(outcome, weekly, reading).status_code == status_of(outcome),
        billing_part(outcome, weekly, reading).window == if weekly {
            "weekly"@
        } else {
            "monthly"@
        },
{
}

/// Whenever a window succeeds, the members of its metadata are exactly those of
/// the object that was read.
pub proof fn law_metadata_is_the_reading(
    outcome: OutcomeView,
    weekly: bool,
    reading: Option<Json>,
    members: Map<Seq<char>, Json>,
)
    requires
        billing_part(outcome, weekly, reading).metadata == Some(members),
    ensures
        reading == Some(Json::Object(members)),
{
}

/// A good answer with a JSON body in which an object was read always succeeds.
pub proof fn law_reading_of_a_good_answer_succeeds(
    body: Json,
    detail: Option<Seq<char>>,
    weekly: bool,
    members: Map<Seq<char>, Json>,
)
    ensures
        billing_part(
            OutcomeView::Response(200, Some(body), detail),
            weekly,
            Some(Json::Object(members)),
        ).metadata == Some(members),
{
}

/// The window makes no difference to what is taken over of an answer.
pub proof fn law_windows_are_read_alike(outcome: OutcomeView, reading: Option<Json>)
    ensures
        billing_part(outcome, true, reading).metadata == billing_part(
            outcome,
            false,
            reading,
        ).metadata,
        billing_part(outcome, true, reading).status_code == billing_part(
            outcome,
            false,
            reading,
        ).status_code,
{
}

/// How a failure names the endpoint of a window.
pub open spec fn label(weekly: bool) -> Seq<char> {
    if weekly {
        "billing?format=credits"@
    } else {
        "billing"@
    }
}

/// A request that could not be carried out is explained with its detail.
pub proof fn law_failed_request_is_explained(
    detail: Seq<char>,
    weekly: bool,
    reading: Option<Json>,
)
    ensures
        billing_part(OutcomeView::Failure(detail), weekly, reading).message == Some(
            label(weekly) + " 请求执行失败: "@ + detail,
        ),
{
}

/// An answer with another status than 200 is explained with its status, and with
/// its detail where that is not empty; its body makes no difference.
pub proof fn law_other_status_is_explained(
    status_code: u16,
    body: Option<Json>,
    detail: Option<Seq<char>>,
    weekly: bool,
    reading: Option<Json>,
)
    requires
        status_code != 200,
    ensures
        ({
            let message = billing_part(
                OutcomeView::Response(status_code, body, detail),
                weekly,
                reading,
            ).message;
            let said = label(weekly) + " 返回状态码 "@ + decimal(status_code as nat);
            match detail {
                Some(text) => if text.len() > 0 {
                    message == Some(said + ": "@ + text)
                } else {
                    message == Some(said)
                },
                None => message == Some(said),
            }
        }),
{
}

/// A good answer is explained where nothing was read in it, and only there; its
/// detail makes no difference.
pub proof fn law_good_answer_is_explained(
    body: Option<Json>,
    detail: Option<Seq<char>>,
    weekly: bool,
    reading: Option<Json>,
)
    ensures
        billing_part(OutcomeView::Response(200, body, detail), weekly, reading).message == if body
            is Some && reading is Some && reading->0 is Object {
            None::<Seq<char>>
        } else {
            Some(label(weekly) + " 响应中未包含额度信息"@)
        },
{
}

/// Usage is looked for in the JSON body of a good answer, whatever it holds, and
/// nowhere else.
pub proof fn law_body_of_good_answers(outcome: OutcomeView)
    ensures
        match outcome {
            OutcomeView::Response(status_code, body, _) => if status_code == 200 {
                billing_body(outcome) == body
            } else {
                billing_body(outcome) is None
            },
            OutcomeView::Failure(_) => billing_body(outcome) is None,
        },
{
}

/// The authorization configuration is what the text parses to without white space
/// around it, and there is none without text. A text of up to 2^31 - 1 characters
/// can always be parsed.
pub proof fn law_auth_config_is_the_parsed_text(text: Seq<char>)
    ensures
        auth_config_in(None) is None,
        trimmed(text).len() == 0 ==> auth_config_in(Some(text)) is None,
        trimmed(text).len() > 0 ==> auth_config_in(Some(text)) == parsed_json(trimmed(text)),
        auth_config_fits(None),
        trimmed(text).len() <= 0x7fff_ffff ==> auth_config_fits(Some(text)),
{
    if trimmed(text).len() <= 0x7fff_ffff {
        lemma_short_json_fits(trimmed(text));
    }
}

// What is kept of an account
/// The fields of the weekly window.
pub open spec fn is_weekly_field(name: Seq<char>) -> bool {
    ||| name == "weekly_used_percent"@
    ||| name == "weekly_period_type"@
    ||| name == "weekly_period_start"@
    ||| name == "weekly_period_end"@
    ||| name == "weekly_reset_at"@
    ||| name == "weekly_product_usage"@
    ||| name == "weekly_updated_at"@
}

/// The fields of the monthly window.
pub open spec fn is_monthly_field(name: Seq<char>) -> bool {
    ||| name == "monthly_limit_cents"@
    ||| name == "monthly_used_cents"@
    ||| name == "monthly_included_used_cents"@
    ||| name == "monthly_used_percent"@
    ||| name == "monthly_period_start"@
    ||| name == "monthly_period_end"@
    ||| name == "monthly_reset_at"@
    ||| name == "monthly_updated_at"@
    ||| name == "plan_type"@
}

/// What a refresh writes of itself.
pub open spec fn is_bookkeeping(name: Seq<char>) -> bool {
    ||| name == "updated_at"@
    ||| name == "source"@
    ||| name == "weekly_status_code"@
    ||| name == "monthly_status_code"@
    ||| name == "partial"@
    ||| name == "failed_windows"@
}

/// The fields that go with a window are those of the window.
pub proof fn law_fields_of_the_windows(name: Seq<char>)
    ensures
        window_fields(true).contains(name) <==> is_weekly_field(name),
        window_fields(false).contains(name) <==> is_monthly_field(name),
{
}

/// What stands under a name once a window has been brought up to date, given what
/// stood there before.
pub open spec fn brought_up_to_date(before: Option<Json>, part: PartView, name: Seq<char>) -> Option<
    Json,
> {
    match part.metadata {
        None => before,
        Some(read) => if read.contains_key(name) {
            Some(read[name])
        } else if part.window == "weekly"@ && is_weekly_field(name) || part.window != "weekly"@
            && is_monthly_field(name) {
            None
        } else {
            before
        },
    }
}

/// Under every name besides the bookkeeping stands what the monthly window makes
/// of what the weekly one makes of what was stored: what was read comes in, what
/// was held of a window that was read goes, and everything else stays.
pub proof fn law_metadata_by_name(
    stored: Map<Seq<char>, Json>,
    weekly: PartView,
    monthly: PartView,
    now_unix_secs: u64,
    name: Seq<char>,
)
    requires
        !is_bookkeeping(name),
    ensures
        refreshed_members(stored, weekly, monthly, now_unix_secs).get(name) == brought_up_to_date(
            brought_up_to_date(stored.get(name), weekly, name),
            monthly,
            name,
        ),
{
}

/// The bookkeeping holds the time, the source, the status of each window, whether
/// one was not read and which.
pub proof fn law_bookkeeping_of_a_refresh(
    stored: Map<Seq<char>, Json>,
    weekly: PartView,
    monthly: PartView,
    now_unix_secs: u64,
)
    ensures
        ({
            let kept = refreshed_members(stored, weekly, monthly, now_unix_secs);
            let failed = match (weekly.metadata, monthly.metadata) {
                (Some(_), Some(_)) => Seq::empty(),
                (None, Some(_)) => seq![Json::Text(weekly.window)],
                (Some(_), None) => seq![Json::Text(monthly.window)],
                (None, None) => seq![Json::Text(weekly.window), Json::Text(monthly.window)],
            };
            &&& kept.contains_pair("updated_at"@, Json::Integer(now_unix_secs as int))
            &&& kept.contains_pair("source"@, Json::Text("billing_probe"@))
            &&& kept.contains_pair(
                "weekly_status_code"@,
                Json::Integer(weekly.status_code as int),
            )
            &&& kept.contains_pair(
                "monthly_status_code"@,
                Json::Integer(monthly.status_code as int),
            )
            &&& kept.contains_pair(
                "partial"@,
                Json::Bool(weekly.metadata is None || monthly.metadata is None),
            )
            &&& kept.contains_pair("failed_windows"@, Json::Array(failed))
        }),
{
    reveal_strlit("updated_at");
    reveal_strlit("source");
    reveal_strlit("weekly_status_code");
    reveal_strlit("monthly_status_code");
    reveal_strlit("partial");
    reveal_strlit("failed_windows");
    assert("updated_at"@[0] == 'u' && "source"@[0] == 's' && "weekly_status_code"@[0] == 'w');
    assert("monthly_status_code"@[0] == 'm' && "partial"@[0] == 'p' && "failed_windows"@[0] == 'f');
    let failed = match (weekly.metadata, monthly.metadata) {
        (Some(_), Some(_)) => Seq::empty(),
        (None, Some(_)) => seq![Json::Text(weekly.window)],
        (Some(_), None) => seq![Json::Text(monthly.window)],
        (None, None) => seq![Json::Text(weekly.window), Json::Text(monthly.window)],
    };
    assert(crate::billing::failed_windows(weekly, monthly) =~= failed);
}

/// What is stored for an account is an object whose one member is `grok_oauth`,
/// with what is kept of the account; nothing is stored where no window was read.
pub proof fn law_stored_under_grok_oauth_alone(
    upstream_metadata: Option<Json>,
    weekly: PartView,
    monthly: PartView,
    now_unix_secs: u64,
)
    ensures
        match billing_metadata(upstream_metadata, weekly, monthly, now_unix_secs) {
            None => weekly.metadata is None && monthly.metadata is None,
            Some(metadata) => {
                &&& weekly.metadata is Some || monthly.metadata is Some
                &&& metadata is Object
                &&& forall|name: Seq<char>| #[trigger]
                    metadata->Object_0.contains_key(name) <==> name == "grok_oauth"@
                &&& metadata->Object_0["grok_oauth"@] == Json::Object(
                    refreshed_members(
                        stored_members(upstream_metadata),
                        weekly,
                        monthly,
                        now_unix_secs,
                    ),
                )
            },
        },
{
}

/// What was stored of an account is the object under `grok_oauth`, and nothing
/// where there is no such object.
pub proof fn law_what_was_stored(upstream_metadata: Option<Json>)
    ensures
        match upstream_metadata {
            Some(Json::Object(members)) => if members.contains_key("grok_oauth"@)
                && members["grok_oauth"@] is Object {
                stored_members(upstream_metadata) == members["grok_oauth"@]->Object_0
            } else {
                forall|name: Seq<char>|
                    !#[trigger] stored_members(upstream_metadata).contains_key(name)
            },
            _ => forall|name: Seq<char>|
                !#[trigger] stored_members(upstream_metadata).contains_key(name),
        },
{
}

// What is said and when a key is invalid
/// The windows that have something to say say it under their names, the weekly
/// one first.
pub proof fn law_windows_speak_under_their_names(weekly: PartView, monthly: PartView)
    ensures
        match (weekly.message, monthly.message) {
            (None, None) => failure_message(weekly, monthly) is None,
            (Some(first), None) => failure_message(weekly, monthly) == Some(
                weekly.window + ": "@ + first,
            ),
            (None, Some(second)) => failure_message(weekly, monthly) == Some(
                monthly.window + ": "@ + second,
            ),
            (Some(first), Some(second)) => failure_message(weekly, monthly) == Some(
                weekly.window + ": "@ + first + "；"@ + monthly.window + ": "@ + second,
            ),
        },
{
    if weekly.message is Some && monthly.message is Some {
        let first = weekly.window + ": "@ + weekly.message->0;
        let second = monthly.window + ": "@ + monthly.message->0;
        assert(first + "；"@ + second =~= first + "；"@ + monthly.window + ": "@
            + monthly.message->0);
    }
}

/// One window that was read is enough to take over the state after a success.
/// Without one, a status of 401 marks the key as expired now, and otherwise the
/// key stays as it was.
pub proof fn law_when_a_key_is_invalid(
    stored: (Option<u64>, Option<Seq<char>>),
    on_success: (Option<u64>, Option<Seq<char>>),
    weekly: PartView,
    monthly: PartView,
    now_unix_secs: u64,
)
    ensures
        weekly.metadata is Some ==> invalid_state(
            stored,
            on_success,
            weekly,
            monthly,
            now_unix_secs,
        ) == on_success,
        monthly.metadata is Some ==> invalid_state(
            stored,
            on_success,
            weekly,
            monthly,
            now_unix_secs,
        ) == on_success,
        weekly.metadata is None && monthly.metadata is None && (weekly.status_code == 401
            || monthly.status_code == 401) ==> invalid_state(
            stored,
            on_success,
            weekly,
            monthly,
            now_unix_secs,
        ) == (Some(now_unix_secs), Some("[OAUTH_EXPIRED] Grok OAuth Token 无效或已过期"@)),
        weekly.metadata is None && monthly.metadata is None && weekly.status_code != 401
            && monthly.status_code != 401 ==> invalid_state(
            stored,
            on_success,
            weekly,
            monthly,
            now_unix_secs,
        ) == stored,
{
    reveal_strlit("[OAUTH_EXPIRED] ");
    reveal_strlit("Grok OAuth Token 无效或已过期");
    reveal_strlit("[OAUTH_EXPIRED] Grok OAuth Token 无效或已过期");
    assert("[OAUTH_EXPIRED] "@ + "Grok OAuth Token 无效或已过期"@
        =~= "[OAUTH_EXPIRED] Grok OAuth Token 无效或已过期"@);
}

} // verus!
