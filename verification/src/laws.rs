//! What holds of the billing requests, of what is kept of an account and of a
//! refresh as a whole.
pub mod adapter;
pub mod billing;
pub mod refresh;
pub mod request;
pub mod text;
pub mod views;

use crate::adapter::{lemma_full_percent, window_exhausted, QuotaWindowReading};
use crate::billing::{
    billing_metadata, billing_part, failed_windows, failure_message, invalid_state,
    refreshed_members, stored_members, window_fields, KeyView, OutcomeView, PartView,
    OAUTH_EXPIRED_PREFIX, TOKEN_EXPIRED,
};
use crate::json::{member_of, members_in, Json};
use crate::link::{
    is_plain_path, is_web, origin_of, parsed_url, path_end, path_of, path_start,
};
use crate::refresh::{ActionView, EventView, ExecutedView, RefreshView, StageView};
use crate::request::{
    billing_request, billing_suffix, billing_url, billing_url_below,
    configured_header, effective_base_url, is_billing_url_of, is_blank_authorization,
    is_first_match, lemma_billing_url_parts, lemma_first_match_unique, AUTHORIZATION_MISSING,
    GROK_OAUTH_DEFAULT_BASE_URL,
};
use crate::text::{is_white_space, lower, trim_end, trim_start, trimmed, without_end_slashes};
use vstd::prelude::*;

verus! {

// Billing URLs and requests
/// The weekly billing URL is the monthly one with the query `format=credits`,
/// and a base URL that gives one of them gives the other.
pub proof fn law_weekly_url_asks_for_credits(base_url: Seq<char>)
    ensures
        match billing_url(base_url, false) {
            Ok(monthly) => billing_url(base_url, true) == Ok::<Seq<char>, Seq<char>>(
                monthly + "?format=credits"@,
            ),
            Err(message) => billing_url(base_url, true) == Err::<Seq<char>, Seq<char>>(message),
        },
{
    reveal_strlit("/billing");
    reveal_strlit("/billing?format=credits");
    reveal_strlit("?format=credits");
    assert(billing_suffix(true) =~= billing_suffix(false) + "?format=credits"@);
    if let Some(url) = parsed_url(effective_base_url(base_url)) {
        assert(billing_url_below(url, true) =~= billing_url_below(url, false)
            + "?format=credits"@);
    }
}

/// A blank base URL stands for the default one.
pub proof fn law_blank_base_url_is_default(base_url: Seq<char>, weekly: bool)
    requires
        trimmed(base_url).len() == 0,
    ensures
        billing_url(base_url, weekly) == billing_url(GROK_OAUTH_DEFAULT_BASE_URL@, weekly),
{
    reveal_strlit("https://cli-chat-proxy.grok.com/v1");
    let default = GROK_OAUTH_DEFAULT_BASE_URL@;
    assert(!is_white_space(default.first()));
    assert(!is_white_space(default.last()));
    assert(trimmed(default) == default);
}

/// What is left of a text without white space at its ends has none there.
proof fn lemma_trimmed_ends(s: Seq<char>)
    ensures
        trim_start(s).len() > 0 ==> !is_white_space(trim_start(s).first()),
        trim_end(s).len() > 0 ==> !is_white_space(trim_end(s).last()),
        trim_end(s).len() > 0 ==> trim_end(s).first() == s.first(),
        trim_end(s).len() <= s.len(),
    decreases s.len(),
{
    if s.len() > 0 {
        if is_white_space(s.first()) {
            lemma_trimmed_ends(s.drop_first());
        }
        if is_white_space(s.last()) {
            lemma_trimmed_ends(s.drop_last());
        }
    }
}

/// White space around a base URL makes no difference.
pub proof fn law_white_space_around_base_url(base_url: Seq<char>, weekly: bool)
    ensures
        billing_url(trimmed(base_url), weekly) == billing_url(base_url, weekly),
{
    let inner = trimmed(base_url);
    lemma_trimmed_ends(base_url);
    lemma_trimmed_ends(trim_start(base_url));
    assert(trimmed(inner) == inner);
}

/// The query, the fragment and the slashes at the end of the path of a base URL
/// make no difference.
pub proof fn law_only_origin_and_path_count(a: Seq<char>, b: Seq<char>, weekly: bool)
    requires
        origin_of(a) == origin_of(b),
        without_end_slashes(path_of(a)) == without_end_slashes(path_of(b)),
    ensures
        billing_url_below(a, weekly) == billing_url_below(b, weekly),
{
}

/// The billing URL below a web URL is itself one: scheme and authority are
/// those of the base, the path is that of the base with `/billing` behind it,
/// the query is that of the window and there is no fragment.
pub proof fn law_billing_url_parts(url: Seq<char>, weekly: bool)
    requires
        is_web(url),
        path_start(url) < path_end(url),
        is_plain_path(path_of(url)),
    ensures
        is_billing_url_of(billing_url_below(url, weekly), url, weekly),
{
    lemma_billing_url_parts(url, weekly);
}

/// Requests for both windows fail alike, or neither fails.
pub proof fn law_windows_fail_alike(
    key_id: Seq<char>,
    base_url: Seq<char>,
    authorization: (Seq<char>, Seq<char>),
    auth_config: Option<Json>,
)
    ensures
        match billing_request(key_id, base_url, authorization, auth_config, true) {
            Ok(_) => billing_request(key_id, base_url, authorization, auth_config, false) is Ok,
            Err(weekly) => billing_request(
                key_id,
                base_url,
                authorization,
                auth_config,
                false,
            ) matches Err(monthly) && monthly == weekly,
        },
{
}

/// Without an authorization header no request is made, whatever the base URL.
pub proof fn law_no_request_without_authorization(
    key_id: Seq<char>,
    base_url: Seq<char>,
    authorization: (Seq<char>, Seq<char>),
    auth_config: Option<Json>,
    weekly: bool,
)
    requires
        is_blank_authorization(authorization),
    ensures
        billing_request(key_id, base_url, authorization, auth_config, weekly) matches Err(message)
            && message == AUTHORIZATION_MISSING@,
{
}

/// Every billing request carries the authorization header, under its name in
/// lower case and without surrounding white space; and it names what it
/// accepts, the kind of token, the version of the client and a user agent.
pub proof fn law_request_is_authorized(
    key_id: Seq<char>,
    base_url: Seq<char>,
    authorization: (Seq<char>, Seq<char>),
    auth_config: Option<Json>,
    weekly: bool,
)
    ensures
        billing_request(key_id, base_url, authorization, auth_config, weekly) matches Ok(request)
            ==> {
            &&& request.headers.contains_pair(
                lower(trimmed(authorization.0)),
                trimmed(authorization.1),
            )
            &&& trimmed(authorization.1).len() > 0
            &&& request.headers.contains_key("accept"@)
            &&& request.headers.contains_key("content-type"@)
            &&& request.headers.contains_key("x-xai-token-auth"@)
            &&& request.headers.contains_key("x-grok-client-version"@)
            &&& request.headers.contains_key("user-agent"@)
        },
{
}

/// The case of ASCII letters in the name of a configured header makes no
/// difference.
pub proof fn law_header_name_in_any_case(
    auth_config: Option<Json>,
    a: Seq<char>,
    b: Seq<char>,
)
    requires
        lower(a) == lower(b),
    ensures
        configured_header(auth_config, a) == configured_header(auth_config, b),
{
    if let Some(config) = auth_config {
        if let Some(configured) = members_in(member_of(config, "headers"@)) {
            if exists|key: Seq<char>| is_first_match(configured, a, key) {
                let key = choose|key: Seq<char>| is_first_match(configured, a, key);
                lemma_first_match_in_any_case(configured, a, b, key);
                let other = choose|key: Seq<char>| is_first_match(configured, b, key);
                lemma_first_match_unique(configured, b, key, other);
            } else if exists|key: Seq<char>| is_first_match(configured, b, key) {
                let key = choose|key: Seq<char>| is_first_match(configured, b, key);
                lemma_first_match_in_any_case(configured, a, b, key);
            }
        }
    }
}

/// The case of ASCII letters in a name makes no difference to what matches it.
proof fn lemma_first_match_in_any_case(
    configured: Map<Seq<char>, Json>,
    a: Seq<char>,
    b: Seq<char>,
    key: Seq<char>,
)
    requires
        lower(a) == lower(b),
    ensures
        is_first_match(configured, a, key) == is_first_match(configured, b, key),
{
}

// What is kept of an account
/// An answer with another status than 200 reads nothing, whatever its body
/// holds, and a request that could not be carried out counts as status 502.
pub proof fn law_only_good_answers_are_read(
    outcome: OutcomeView,
    weekly: bool,
    parsed: Option<Json>,
)
    ensures
        billing_part(outcome, weekly, parsed).succeeded() <==> match outcome {
            OutcomeView::Response(status_code, json_body, _) => status_code == 200 && json_body is Some
                && members_in(parsed) is Some,
            OutcomeView::Failure(_) => false,
        },
        billing_part(outcome, weekly, parsed).status_code == match outcome {
            OutcomeView::Response(status_code, _, _) => status_code,
            OutcomeView::Failure(_) => 502,
        },
{
}

/// A usage window says what went wrong exactly where its usage was not read.
pub proof fn law_failures_are_explained(
    outcome: OutcomeView,
    weekly: bool,
    parsed: Option<Json>,
)
    ensures
        billing_part(outcome, weekly, parsed).message is None <==> billing_part(
            outcome,
            weekly,
            parsed,
        ).succeeded(),
{
}

/// A status of 403 is no ground for invalidating an account: where both windows
/// are answered with 403, whatever else the answers hold, the key stays as it
/// was.
pub proof fn law_403_keeps_the_account(
    stored: (Option<u64>, Option<Seq<char>>),
    on_success: (Option<u64>, Option<Seq<char>>),
    weekly_body: Option<Json>,
    weekly_detail: Option<Seq<char>>,
    weekly_parsed: Option<Json>,
    monthly_body: Option<Json>,
    monthly_detail: Option<Seq<char>>,
    monthly_parsed: Option<Json>,
    now_unix_secs: u64,
)
    ensures
        invalid_state(
            stored,
            on_success,
            billing_part(
                OutcomeView::Response(403, weekly_body, weekly_detail),
                true,
                weekly_parsed,
            ),
            billing_part(
                OutcomeView::Response(403, monthly_body, monthly_detail),
                false,
                monthly_parsed,
            ),
            now_unix_secs,
        ) == stored,
{
}

/// Only a status of 401 marks a key as expired, and only where no window was
/// read.
pub proof fn law_only_401_without_success_expires(
    stored: (Option<u64>, Option<Seq<char>>),
    on_success: (Option<u64>, Option<Seq<char>>),
    weekly: PartView,
    monthly: PartView,
    now_unix_secs: u64,
)
    ensures
        ({
            let state = invalid_state(stored, on_success, weekly, monthly, now_unix_secs);
            let read = weekly.succeeded() || monthly.succeeded();
            let refused = weekly.status_code == 401 || monthly.status_code == 401;
            &&& read ==> state == on_success
            &&& !read && refused ==> state == (
                Some(now_unix_secs),
                Some(OAUTH_EXPIRED_PREFIX@ + TOKEN_EXPIRED@),
            )
            &&& !read && !refused ==> state == stored
        }),
{
}

/// The names that every refresh writes anew.
pub open spec fn bookkeeping() -> Set<Seq<char>> {
    set![
        "updated_at"@,
        "source"@,
        "weekly_status_code"@,
        "monthly_status_code"@,
        "partial"@,
        "failed_windows"@,
    ]
}

/// Metadata is stored exactly where the usage of a window was read.
pub proof fn law_metadata_follows_success(
    upstream_metadata: Option<Json>,
    weekly: PartView,
    monthly: PartView,
    now_unix_secs: u64,
)
    ensures
        billing_metadata(upstream_metadata, weekly, monthly, now_unix_secs) is Some
            <==> weekly.succeeded() || monthly.succeeded(),
{
}

/// What is stored of an account is what the next refresh finds.
pub proof fn law_stored_metadata_is_found(
    upstream_metadata: Option<Json>,
    weekly: PartView,
    monthly: PartView,
    now_unix_secs: u64,
)
    requires
        weekly.succeeded() || monthly.succeeded(),
    ensures
        stored_members(billing_metadata(upstream_metadata, weekly, monthly, now_unix_secs))
            == refreshed_members(
            stored_members(upstream_metadata),
            weekly,
            monthly,
            now_unix_secs,
        ),
{
}

/// Whether a window has read something under that name.
pub open spec fn has_read(part: PartView, name: Seq<char>) -> bool {
    part.metadata matches Some(update) && update.contains_key(name)
}

/// What is held of one window is not held of the other, and is none of the
/// bookkeeping.
pub proof fn law_window_fields_are_apart(name: Seq<char>)
    ensures
        !(window_fields(true).contains(name) && window_fields(false).contains(name)),
        !(window_fields(true).contains(name) && bookkeeping().contains(name)),
        !(window_fields(false).contains(name) && bookkeeping().contains(name)),
{
    lemma_field_names(name);
}

/// A window that has been taken out is not there to be taken out again.
pub proof fn law_window_removal_is_idempotent(metadata: Map<Seq<char>, Json>, weekly: bool)
    ensures
        metadata.remove_keys(window_fields(weekly)).remove_keys(window_fields(weekly))
            == metadata.remove_keys(window_fields(weekly)),
{
    assert(metadata.remove_keys(window_fields(weekly)).remove_keys(window_fields(weekly))
        =~= metadata.remove_keys(window_fields(weekly)));
}

/// The windows can be taken out in either order, and neither takes anything of
/// the other along.
pub proof fn law_window_removals_commute(metadata: Map<Seq<char>, Json>, name: Seq<char>)
    ensures
        metadata.remove_keys(window_fields(true)).remove_keys(window_fields(false))
            == metadata.remove_keys(window_fields(false)).remove_keys(window_fields(true)),
        window_fields(true).contains(name) ==> metadata.remove_keys(window_fields(false)).get(name)
            == metadata.get(name),
        window_fields(false).contains(name) ==> metadata.remove_keys(window_fields(true)).get(name)
            == metadata.get(name),
{
    lemma_field_names(name);
    assert(metadata.remove_keys(window_fields(true)).remove_keys(window_fields(false))
        =~= metadata.remove_keys(window_fields(false)).remove_keys(window_fields(true)));
}

/// A weekly window that was not read keeps all that was held of it, but for
/// what the monthly one has read under the same name.
pub proof fn law_unread_weekly_window_is_kept(
    stored: Map<Seq<char>, Json>,
    weekly: PartView,
    monthly: PartView,
    now_unix_secs: u64,
    name: Seq<char>,
)
    requires
        !weekly.succeeded(),
        monthly.window == "monthly"@,
        window_fields(true).contains(name),
        !has_read(monthly, name),
    ensures
        refreshed_members(stored, weekly, monthly, now_unix_secs).get(name) == stored.get(name),
{
    lemma_field_names(name);
}

/// A monthly window that was not read keeps all that was held of it, but for
/// what the weekly one has read under the same name.
pub proof fn law_unread_monthly_window_is_kept(
    stored: Map<Seq<char>, Json>,
    weekly: PartView,
    monthly: PartView,
    now_unix_secs: u64,
    name: Seq<char>,
)
    requires
        !monthly.succeeded(),
        weekly.window == "weekly"@,
        window_fields(false).contains(name),
        !has_read(weekly, name),
    ensures
        refreshed_members(stored, weekly, monthly, now_unix_secs).get(name) == stored.get(name),
{
    lemma_field_names(name);
}

/// Of a weekly window that was read nothing is left but what was read, by it or
/// by the monthly window under the same name.
pub proof fn law_read_weekly_window_is_replaced(
    stored: Map<Seq<char>, Json>,
    weekly: PartView,
    monthly: PartView,
    now_unix_secs: u64,
    name: Seq<char>,
)
    requires
        weekly.succeeded(),
        weekly.window == "weekly"@,
        monthly.window == "monthly"@,
        window_fields(true).contains(name),
    ensures
        refreshed_members(stored, weekly, monthly, now_unix_secs).get(name) == if has_read(
            monthly,
            name,
        ) {
            monthly.metadata->0.get(name)
        } else {
            weekly.metadata->0.get(name)
        },
{
    lemma_field_names(name);
}

/// Of a monthly window that was read nothing is left but what was read by it.
pub proof fn law_read_monthly_window_is_replaced(
    stored: Map<Seq<char>, Json>,
    weekly: PartView,
    monthly: PartView,
    now_unix_secs: u64,
    name: Seq<char>,
)
    requires
        monthly.succeeded(),
        monthly.window == "monthly"@,
        window_fields(false).contains(name),
    ensures
        refreshed_members(stored, weekly, monthly, now_unix_secs).get(name)
            == monthly.metadata->0.get(name),
{
    lemma_field_names(name);
}

/// What is held of an account besides its windows stays, but for what was read
/// under the same name.
pub proof fn law_other_metadata_is_kept(
    stored: Map<Seq<char>, Json>,
    weekly: PartView,
    monthly: PartView,
    now_unix_secs: u64,
    name: Seq<char>,
)
    requires
        !window_fields(true).contains(name),
        !window_fields(false).contains(name),
        !bookkeeping().contains(name),
        !has_read(weekly, name),
        !has_read(monthly, name),
    ensures
        refreshed_members(stored, weekly, monthly, now_unix_secs).get(name) == stored.get(name),
{
}

/// To refresh again with the same answers at the same time changes nothing.
pub proof fn law_refresh_is_idempotent(
    stored: Map<Seq<char>, Json>,
    weekly: PartView,
    monthly: PartView,
    now_unix_secs: u64,
)
    ensures
        refreshed_members(
            refreshed_members(stored, weekly, monthly, now_unix_secs),
            weekly,
            monthly,
            now_unix_secs,
        ) == refreshed_members(stored, weekly, monthly, now_unix_secs),
{
    let once = refreshed_members(stored, weekly, monthly, now_unix_secs);
    let twice = refreshed_members(once, weekly, monthly, now_unix_secs);
    assert(twice =~= once);
}

/// Metadata is marked as partial exactly where a window was not read, and names
/// the windows that were not.
pub proof fn law_partial_names_failed_windows(
    stored: Map<Seq<char>, Json>,
    weekly: PartView,
    monthly: PartView,
    now_unix_secs: u64,
)
    requires
        weekly.window == "weekly"@,
        monthly.window == "monthly"@,
    ensures
        refreshed_members(stored, weekly, monthly, now_unix_secs).contains_pair(
            "partial"@,
            Json::Bool(!weekly.succeeded() || !monthly.succeeded()),
        ),
        refreshed_members(stored, weekly, monthly, now_unix_secs).contains_pair(
            "failed_windows"@,
            Json::Array(failed_windows(weekly, monthly)),
        ),
        failed_windows(weekly, monthly).contains(Json::Text("weekly"@)) <==> !weekly.succeeded(),
        failed_windows(weekly, monthly).contains(Json::Text("monthly"@)) <==> !monthly.succeeded(),
{
    reveal_strlit("partial");
    reveal_strlit("failed_windows");
    assert("partial"@.len() != "failed_windows"@.len());
    lemma_field_names("partial"@);
    let failed = failed_windows(weekly, monthly);
    if !weekly.succeeded() {
        assert(failed[0] == Json::Text(weekly.window));
    }
    if !monthly.succeeded() {
        assert(failed[failed.len() - 1] == Json::Text(monthly.window));
    }
}

/// No field of a window is one of the other or of the bookkeeping, and the
/// names of the windows differ.
proof fn lemma_field_names(name: Seq<char>)
    ensures
        "weekly"@ != "monthly"@,
        window_fields(true).contains(name) ==> !window_fields(false).contains(name),
        window_fields(true).contains(name) || window_fields(false).contains(name)
            ==> !bookkeeping().contains(name),
{
    reveal_strlit("weekly");
    reveal_strlit("monthly");
    reveal_strlit("weekly_used_percent");
    reveal_strlit("weekly_period_type");
    reveal_strlit("weekly_period_start");
    reveal_strlit("weekly_period_end");
    reveal_strlit("weekly_reset_at");
    reveal_strlit("weekly_product_usage");
    reveal_strlit("weekly_updated_at");
    reveal_strlit("monthly_limit_cents");
    reveal_strlit("monthly_used_cents");
    reveal_strlit("monthly_included_used_cents");
    reveal_strlit("monthly_used_percent");
    reveal_strlit("monthly_period_start");
    reveal_strlit("monthly_period_end");
    reveal_strlit("monthly_reset_at");
    reveal_strlit("monthly_updated_at");
    reveal_strlit("plan_type");
    reveal_strlit("updated_at");
    reveal_strlit("source");
    reveal_strlit("weekly_status_code");
    reveal_strlit("monthly_status_code");
    reveal_strlit("partial");
    reveal_strlit("failed_windows");
    assert("weekly"@.len() != "monthly"@.len());
    if window_fields(true).contains(name) {
        assert(name[0] == 'w' && name.len() > 7 && name[7] != 's');
    }
    if window_fields(false).contains(name) {
        assert(name[0] == 'm' && name.len() > 8 && name[8] != 's' || name[0] == 'p' && name.len()
            == 9);
    }
    if bookkeeping().contains(name) {
        assert(name[0] == 'u' || name[0] == 's' || name[0] == 'f' || name[0] == 'p' && name.len()
            == 7 || name[0] == 'w' && name[7] == 's' || name[0] == 'm' && name[8] == 's');
    }
}

// When an account is exhausted
/// A window that is known to have started anew is not exhausted, however much
/// of it was used.
pub proof fn law_exhaustion_ends_with_reset(reading: QuotaWindowReading)
    requires
        reading.reset_at matches Some(reset_at) && reading.now matches Some(now) && reset_at <= now,
    ensures
        !window_exhausted(reading),
{
}

/// A window that is not exhausted is not exhausted later either, while nothing
/// new is read of it.
pub proof fn law_exhaustion_ends_for_good(reading: QuotaWindowReading, now: u64, later: u64)
    requires
        now <= later,
        !window_exhausted(QuotaWindowReading { now: Some(now), ..reading }),
    ensures
        !window_exhausted(QuotaWindowReading { now: Some(later), ..reading }),
{
}

/// A window that is exhausted is so at any greater usage too. Usages without
/// sign are ordered as their bits are.
pub proof fn law_more_usage_stays_exhausted(reading: QuotaWindowReading, less: u64, more: u64)
    requires
        less <= more <= 0x7ff0_0000_0000_0000,
        window_exhausted(QuotaWindowReading { used_percent: Some(less), ..reading }),
    ensures
        window_exhausted(QuotaWindowReading { used_percent: Some(more), ..reading }),
{
    if more < 0x7ff0_0000_0000_0000 {
        lemma_full_percent(less);
        lemma_full_percent(more);
    }
}

// A refresh as a whole
/// Where a refresh stands after the events, in their order.
pub open spec fn after_events(refresh: RefreshView, events: Seq<EventView>) -> RefreshView
    decreases events.len(),
{
    if events.len() == 0 {
        refresh
    } else {
        after_events(refresh, events.drop_last()).advanced(events.last()).0
    }
}

/// What an event does to a refresh: at most one result is added, to those that
/// stay as they are, and the key of that result is counted once.
pub proof fn law_event_settles_at_most_one_key(refresh: RefreshView, event: EventView)
    requires
        refresh.well_formed(),
    ensures
        refresh.advanced(event).0.well_formed(),
        refresh.advanced(event).0.keys == refresh.keys,
        refresh.advanced(event).0.results == refresh.results || (refresh.advanced(
            event,
        ).0.results.len() == refresh.results.len() + 1 && refresh.results.is_prefix_of(
            refresh.advanced(event).0.results,
        )),
{
    let after = refresh.advanced(event).0;
    if after.results != refresh.results {
        assert(after.results.len() == refresh.results.len() + 1);
        assert(refresh.results =~= after.results.take(refresh.results.len() as int));
    }
}

/// Whatever comes of what is to be done, each key that has had its turn has one
/// result and is counted once, as refreshed, as failed or as removed; and when
/// the refresh is finished that holds of all keys.
pub proof fn law_every_key_is_counted_once(
    refresh: RefreshView,
    keys: Seq<KeyView>,
    events: Seq<EventView>,
)
    requires
        refresh.is_started(keys),
    ensures
        ({
            let after = after_events(refresh, events);
            &&& after.well_formed()
            &&& after.keys == keys
            &&& after.results.len() <= keys.len()
            &&& after.success + after.failed + after.auto_removed == after.results.len()
            &&& after.stage is Finished <==> after.results.len() == keys.len()
        }),
    decreases events.len(),
{
    if events.len() > 0 {
        law_every_key_is_counted_once(refresh, keys, events.drop_last());
        law_event_settles_at_most_one_key(
            after_events(refresh, events.drop_last()),
            events.last(),
        );
    }
}

/// Whether a result names that key.
pub open spec fn names_key(result: Json, key: KeyView) -> bool {
    &&& member_of(result, "key_id"@) == Some(Json::Text(key.id))
    &&& member_of(result, "key_name"@) == Some(Json::Text(key.name))
}

/// A result names the key whose turn it ends, except that of a key which has
/// been removed: that is taken over as it comes.
pub proof fn law_result_names_its_key(refresh: RefreshView, event: EventView)
    requires
        refresh.well_formed(),
        refresh.advanced(event).0.results.len() > refresh.results.len(),
    ensures
        ({
            let result = refresh.advanced(event).0.results.last();
            if event is KeyRemoved {
                event == EventView::KeyRemoved(result)
            } else {
                names_key(result, refresh.current())
            }
        }),
{
    lemma_result_names();
}

/// Of each result that a refresh has after the events, whether it came with the
/// removal of the key.
pub open spec fn removals(refresh: RefreshView, events: Seq<EventView>) -> Seq<bool>
    decreases events.len(),
{
    if events.len() == 0 {
        Seq::empty()
    } else {
        let before = after_events(refresh, events.drop_last());
        let settled = before.advanced(events.last()).0.results.len() > before.results.len();
        if settled {
            removals(refresh, events.drop_last()).push(events.last() is KeyRemoved)
        } else {
            removals(refresh, events.drop_last())
        }
    }
}

/// How many results did not come with a removal and have that status.
pub open spec fn with_status(results: Seq<Json>, removals: Seq<bool>, status: Seq<char>) -> nat
    decreases results.len(),
{
    if results.len() == 0 {
        0
    } else {
        with_status(results.drop_last(), removals.drop_last(), status) + if !removals.last()
            && member_of(results.last(), "status"@) == Some(Json::Text(status)) {
            1nat
        } else {
            0
        }
    }
}

/// How many results came with a removal.
pub open spec fn removal_count(removals: Seq<bool>) -> nat
    decreases removals.len(),
{
    if removals.len() == 0 {
        0
    } else {
        removal_count(removals.drop_last()) + if removals.last() {
            1nat
        } else {
            0
        }
    }
}

/// Whatever comes of what is to be done, the results stand in the order of the
/// keys: each names the key at its place, or is the one that came with the
/// removal of that key.
pub proof fn law_results_keep_the_order_of_the_keys(
    refresh: RefreshView,
    keys: Seq<KeyView>,
    events: Seq<EventView>,
)
    requires
        refresh.is_started(keys),
    ensures
        ({
            let results = after_events(refresh, events).results;
            let removals = removals(refresh, events);
            &&& removals.len() == results.len() <= keys.len()
            &&& forall|i: int|
                0 <= i < results.len() ==> if removals[i] {
                    events.contains(EventView::KeyRemoved(#[trigger] results[i]))
                } else {
                    names_key(results[i], keys[i])
                }
        }),
    decreases events.len(),
{
    if events.len() > 0 {
        let earlier = events.drop_last();
        let before = after_events(refresh, earlier);
        let event = events.last();
        law_results_keep_the_order_of_the_keys(refresh, keys, earlier);
        law_every_key_is_counted_once(refresh, keys, earlier);
        law_every_key_is_counted_once(refresh, keys, events);
        law_event_settles_at_most_one_key(before, event);
        let after = before.advanced(event).0;
        let n = before.results.len() as int;
        if after.results.len() > n {
            law_result_names_its_key(before, event);
            assert(events[events.len() - 1] == event);
        }
        assert forall|i: int| 0 <= i < after.results.len() implies if removals(
            refresh,
            events,
        )[i] {
            events.contains(EventView::KeyRemoved(#[trigger] after.results[i]))
        } else {
            names_key(after.results[i], keys[i])
        } by {
            if i < n {
                assert(after.results[i] == before.results[i]);
                if removals(refresh, earlier)[i] {
                    let j = choose|j: int|
                        0 <= j < earlier.len() && earlier[j] == EventView::KeyRemoved(
                            before.results[i],
                        );
                    assert(events[j] == earlier[j]);
                }
            }
        }
    }
}

/// Whether a result has the status of a success or of a failure.
pub open spec fn has_known_status(result: Json) -> bool {
    ||| member_of(result, "status"@) == Some(Json::Text("success"@))
    ||| member_of(result, "status"@) == Some(Json::Text("error"@))
}

/// Whatever comes of what is to be done, each result that did not come with a
/// removal has the status of a success or of a failure.
pub proof fn law_statuses_are_success_or_error(
    refresh: RefreshView,
    keys: Seq<KeyView>,
    events: Seq<EventView>,
)
    requires
        refresh.is_started(keys),
    ensures
        forall|i: int|
            0 <= i < after_events(refresh, events).results.len() && !removals(refresh, events)[i]
                ==> has_known_status(#[trigger] after_events(refresh, events).results[i]),
    decreases events.len(),
{
    if events.len() > 0 {
        let earlier = events.drop_last();
        let before = after_events(refresh, earlier);
        let event = events.last();
        law_statuses_are_success_or_error(refresh, keys, earlier);
        law_results_keep_the_order_of_the_keys(refresh, keys, earlier);
        law_every_key_is_counted_once(refresh, keys, earlier);
        law_event_settles_at_most_one_key(before, event);
        let after = before.advanced(event).0;
        lemma_result_names();
        assert forall|i: int|
            0 <= i < after.results.len() && !removals(refresh, events)[i] implies has_known_status(
            #[trigger] after.results[i],
        ) by {
            if i < before.results.len() {
                assert(after.results[i] == before.results[i]);
            }
        }
    }
}

/// Whatever comes of what is to be done, the counters are the numbers of the
/// results with the status of a success, with that of a failure, and of those
/// that came with a removal.
pub proof fn law_counters_are_the_numbers_of_the_statuses(
    refresh: RefreshView,
    keys: Seq<KeyView>,
    events: Seq<EventView>,
)
    requires
        refresh.is_started(keys),
    ensures
        ({
            let after = after_events(refresh, events);
            let removals = removals(refresh, events);
            &&& after.success == with_status(after.results, removals, "success"@)
            &&& after.failed == with_status(after.results, removals, "error"@)
            &&& after.auto_removed == removal_count(removals)
        }),
    decreases events.len(),
{
    if events.len() > 0 {
        let earlier = events.drop_last();
        let before = after_events(refresh, earlier);
        let event = events.last();
        law_counters_are_the_numbers_of_the_statuses(refresh, keys, earlier);
        law_every_key_is_counted_once(refresh, keys, earlier);
        law_results_keep_the_order_of_the_keys(refresh, keys, earlier);
        law_event_settles_at_most_one_key(before, event);
        let after = before.advanced(event).0;
        if after.results.len() > before.results.len() {
            lemma_result_names();
            reveal_strlit("success");
            reveal_strlit("error");
            assert("success"@.len() != "error"@.len());
            assert(after.results.drop_last() =~= before.results);
            assert(removals(refresh, events).drop_last() =~= removals(refresh, earlier));
        }
    }
}

/// A key counts as refreshed only when its new state has been stored and the
/// usage of a window was read.
pub proof fn law_success_needs_a_read_window(refresh: RefreshView, event: EventView)
    requires
        refresh.well_formed(),
        refresh.advanced(event).0.success > refresh.success,
    ensures
        event is Persisted,
        refresh.stage matches StageView::Persistence(weekly, monthly, _) && (weekly.succeeded()
            || monthly.succeeded()),
{
}

/// The result of a key whose new state has been stored says whether the usage of
/// a window was read and whether that of the other was not, holds what is kept
/// of the account, and has a message exactly where a window has one.
pub proof fn law_report_tells_success(
    refresh: RefreshView,
    weekly: PartView,
    monthly: PartView,
    metadata_update: Option<Json>,
    quota_snapshot: Option<Json>,
)
    requires
        refresh.well_formed(),
        refresh.stage == StageView::Persistence(weekly, monthly, metadata_update),
    ensures
        ({
            let report = refresh.advanced(EventView::Persisted(quota_snapshot)).0.results.last();
            let read = weekly.succeeded() || monthly.succeeded();
            &&& member_of(report, "status"@) == Some(
                Json::Text(
                    if read {
                        "success"@
                    } else {
                        "error"@
                    },
                ),
            )
            &&& member_of(report, "partial"@) == Some(
                Json::Bool(weekly.succeeded() != monthly.succeeded()),
            )
            &&& member_of(report, "metadata"@) == match metadata_update {
                Some(update) => member_of(update, "grok_oauth"@),
                None => None,
            }
            &&& member_of(report, "message"@) == match failure_message(weekly, monthly) {
                Some(message) => Some(Json::Text(message)),
                None => None,
            }
            &&& member_of(report, "quota_snapshot"@) == quota_snapshot
        }),
{
    lemma_result_names();
}

/// The windows say together what went wrong exactly where the usage of one of
/// them was not read.
pub proof fn law_partial_failures_are_explained(
    weekly: OutcomeView,
    weekly_parsed: Option<Json>,
    monthly: OutcomeView,
    monthly_parsed: Option<Json>,
)
    ensures
        failure_message(
            billing_part(weekly, true, weekly_parsed),
            billing_part(monthly, false, monthly_parsed),
        ) is None <==> billing_part(weekly, true, weekly_parsed).succeeded() && billing_part(
            monthly,
            false,
            monthly_parsed,
        ).succeeded(),
{
}

/// Where both requests for a key are answered with 403, its account is stored as
/// it was, and no metadata with it.
pub proof fn law_403_stores_the_account_as_it_was(refresh: RefreshView, executed: ExecutedView)
    requires
        refresh.stage is Execution,
        executed.weekly matches OutcomeView::Response(403, _, _),
        executed.monthly matches OutcomeView::Response(403, _, _),
    ensures
        refresh.advanced(EventView::Executed(executed)).1 == (ActionView::Persist {
            key_id: refresh.current().id,
            metadata_update: None,
            invalid: refresh.current().invalid,
        }),
{
}

/// What does not answer what was to be done, or cannot be taken, changes nothing,
/// and neither does anything once the refresh is finished.
pub proof fn law_out_of_turn_changes_nothing(refresh: RefreshView, event: EventView)
    ensures
        refresh.advanced(event).1.is_refusal() ==> refresh.advanced(event).0 == refresh,
        refresh.stage is Finished ==> refresh.advanced(event).1 is OutOfTurn,
{
}

/// How many more answers a refresh can take at most.
pub open spec fn answers_left(refresh: RefreshView) -> int {
    4 * (refresh.keys.len() - refresh.results.len()) - match refresh.stage {
        StageView::Transport => 0int,
        StageView::Authorization(_) => 1,
        StageView::Removal => 2,
        StageView::Execution => 2,
        StageView::Persistence(_, _, _) => 3,
        StageView::Finished => 0,
    }
}

/// Every answer brings a refresh nearer to its end.
pub proof fn law_answers_bring_the_end_nearer(refresh: RefreshView, event: EventView)
    requires
        refresh.well_formed(),
        !refresh.advanced(event).1.is_refusal(),
    ensures
        0 <= answers_left(refresh.advanced(event).0) < answers_left(refresh),
{
}

/// Whether each of the events answers what was to be done when it came.
pub open spec fn all_answer(refresh: RefreshView, events: Seq<EventView>) -> bool
    decreases events.len(),
{
    events.len() == 0 || {
        let action = after_events(refresh, events.drop_last()).advanced(events.last()).1;
        &&& all_answer(refresh, events.drop_last())
        &&& !action.is_refusal()
    }
}

/// A refresh takes at most four answers for each key.
pub proof fn law_refresh_comes_to_an_end(
    refresh: RefreshView,
    keys: Seq<KeyView>,
    events: Seq<EventView>,
)
    requires
        refresh.is_started(keys),
        all_answer(refresh, events),
    ensures
        events.len() <= 4 * keys.len(),
{
    lemma_answers_are_used_up(refresh, keys, events);
}

/// Each answer uses up one of those that are left.
proof fn lemma_answers_are_used_up(
    refresh: RefreshView,
    keys: Seq<KeyView>,
    events: Seq<EventView>,
)
    requires
        refresh.is_started(keys),
        all_answer(refresh, events),
    ensures
        0 <= answers_left(after_events(refresh, events)) <= 4 * keys.len() - events.len(),
    decreases events.len(),
{
    if events.len() > 0 {
        lemma_answers_are_used_up(refresh, keys, events.drop_last());
        law_every_key_is_counted_once(refresh, keys, events.drop_last());
        law_answers_bring_the_end_nearer(
            after_events(refresh, events.drop_last()),
            events.last(),
        );
    }
}

/// What is to be done next concerns the key whose turn it then is, and the end
/// is announced exactly when the last key has had its turn.
pub proof fn law_actions_concern_the_current_key(refresh: RefreshView, event: EventView)
    requires
        refresh.well_formed(),
    ensures
        ({
            let (after, action) = refresh.advanced(event);
            &&& action matches ActionView::ReadTransport(provider_id, endpoint_id, key_id) ==> {
                &&& provider_id == refresh.provider_id
                &&& endpoint_id == refresh.endpoint_id
                &&& key_id == after.current().id
            }
            &&& action matches ActionView::CheckRemoval(key_id) ==> key_id == after.current().id
            &&& action matches ActionView::Execute { weekly, monthly, .. } ==> {
                &&& weekly.0.request_id == "grok-oauth-billing-"@ + "weekly"@ + ":"@
                    + after.current().id
                &&& monthly.0.request_id == "grok-oauth-billing-"@ + "monthly"@ + ":"@
                    + after.current().id
            }
            &&& action matches ActionView::Persist { key_id, .. } ==> key_id == after.current().id
            &&& action is Finish <==> after.stage is Finished && !(refresh.stage is Finished)
        }),
{
}

/// A finished refresh reports as many results as there are keys, and as many
/// successes, failures and removals together.
pub proof fn law_summary_adds_up(refresh: RefreshView)
    requires
        refresh.well_formed(),
        refresh.stage is Finished,
    ensures
        member_of(refresh.summary(), "total"@) == Some(Json::Integer(refresh.keys.len() as int)),
        member_of(refresh.summary(), "success"@) == Some(Json::Integer(refresh.success as int)),
        member_of(refresh.summary(), "failed"@) == Some(Json::Integer(refresh.failed as int)),
        member_of(refresh.summary(), "auto_removed"@) == Some(
            Json::Integer(refresh.auto_removed as int),
        ),
        refresh.success + refresh.failed + refresh.auto_removed == refresh.keys.len(),
{
    reveal_strlit("success");
    reveal_strlit("failed");
    reveal_strlit("total");
    reveal_strlit("results");
    reveal_strlit("message");
    reveal_strlit("auto_removed");
    assert("success"@[0] == 's' && "results"@[0] == 'r' && "message"@[0] == 'm');
    assert("failed"@[0] == 'f' && "total"@[0] == 't' && "auto_removed"@[0] == 'a');
}

/// The names in the result for a key differ from each other.
proof fn lemma_result_names()
    ensures
        "key_id"@ != "key_name"@,
        "key_id"@ != "status"@,
        "key_id"@ != "partial"@,
        "key_id"@ != "message"@,
        "key_id"@ != "metadata"@,
        "key_id"@ != "quota_snapshot"@,
        "key_name"@ != "status"@,
        "key_name"@ != "partial"@,
        "key_name"@ != "message"@,
        "key_name"@ != "metadata"@,
        "key_name"@ != "quota_snapshot"@,
        "status"@ != "partial"@,
        "status"@ != "message"@,
        "status"@ != "metadata"@,
        "status"@ != "quota_snapshot"@,
        "partial"@ != "message"@,
        "partial"@ != "metadata"@,
        "partial"@ != "quota_snapshot"@,
        "message"@ != "metadata"@,
        "message"@ != "quota_snapshot"@,
        "metadata"@ != "quota_snapshot"@,
{
    reveal_strlit("key_id");
    reveal_strlit("key_name");
    reveal_strlit("status");
    reveal_strlit("partial");
    reveal_strlit("message");
    reveal_strlit("metadata");
    reveal_strlit("quota_snapshot");
    assert("key_id"@.len() != "key_name"@.len());
    assert("message"@.len() != "metadata"@.len());
    assert("key_id"@[0] == 'k' && "key_name"@[0] == 'k' && "status"@[0] == 's');
    assert("partial"@[0] == 'p' && "message"@[0] == 'm' && "metadata"@[0] == 'm');
    assert("quota_snapshot"@[0] == 'q');
}

} // verus!
