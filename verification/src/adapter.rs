//! What the provider pool knows of Grok OAuth accounts, and when one of them
//! has used up its quota.
use crate::json::{member_of, members_of, object_member, opt_json_ref, Json};
use crate::text::joined;
use serde_json::Value;
use vstd::arithmetic::power2::{
    lemma2_to64, lemma_pow2_adds, lemma_pow2_pos, lemma_pow2_strictly_increases, pow2,
};
use vstd::prelude::*;

verus! {

/// What the pool can do with the keys of a provider.
#[derive(Debug, Clone, Copy, PartialEq, Eq)]
pub struct ProviderPoolCapabilities {
    /// Whether the plan of an account is known.
    pub plan_tier: bool,
    /// Whether a quota can be reset.
    pub quota_reset: bool,
    /// Whether a quota can be read anew.
    pub quota_refresh: bool,
}

/// What was last read of a usage window.
#[derive(Debug, Clone, Copy, PartialEq, Eq)]
pub struct QuotaWindowReading {
    /// The used part in percent, if known: the bits of a binary64 float.
    pub used_percent: Option<u64>,
    /// When the window starts anew, if known, in seconds of the Unix epoch.
    pub reset_at: Option<u64>,
    /// The time of the question, if known, in seconds of the Unix epoch.
    pub now: Option<u64>,
}

/// The value of the finite binary64 float with these bits and no sign, in units
/// of the least positive one: 2 to the power of -1074.
pub open spec fn double_units(bits: u64) -> nat {
    let exponent = (bits / 0x10_0000_0000_0000) as nat;
    let fraction = (bits % 0x10_0000_0000_0000) as nat;
    if exponent == 0 {
        fraction
    } else {
        (0x10_0000_0000_0000 + fraction) * pow2((exponent - 1) as nat)
    }
}

/// Whether the binary64 float with these bits is at least `n`: it is infinite,
/// or it is finite and its value is. What is not a number or has a minus sign
/// is not.
pub open spec fn double_reaches(bits: u64, n: nat) -> bool {
    ||| bits == 0x7ff0_0000_0000_0000
    ||| bits < 0x7ff0_0000_0000_0000 && double_units(bits) >= n * pow2(1074)
}

/// Whether a usage window is exhausted: all of it is used, and it is not known
/// to have started anew.
pub open spec fn window_exhausted(reading: QuotaWindowReading) -> bool {
    &&& reading.used_percent matches Some(bits) && double_reaches(bits, 100)
    &&& match (reading.now, reading.reset_at) {
        (Some(now), Some(reset_at)) => now < reset_at,
        _ => true,
    }
}

/// Whether an account is exhausted: as its status snapshot decides, and where
/// that decides nothing, where one of the windows in its bucket is.
pub open spec fn account_exhausted(
    snapshot_decision: Option<bool>,
    bucket: Option<(QuotaWindowReading, QuotaWindowReading)>,
) -> bool {
    match (snapshot_decision, bucket) {
        (Some(decided), _) => decided,
        (None, Some((weekly, monthly))) => window_exhausted(weekly) || window_exhausted(monthly),
        (None, None) => false,
    }
}

/// A float without sign is at least one hundred from the bits of one hundred
/// on.
pub(crate) proof fn lemma_full_percent(bits: u64)
    requires
        bits < 0x7ff0_0000_0000_0000,
    ensures
        double_units(bits) >= 100 * pow2(1074) <==> bits >= 0x4059_0000_0000_0000,
{
    let exponent = (bits / 0x10_0000_0000_0000) as nat;
    let fraction = (bits % 0x10_0000_0000_0000) as nat;
    let unit = pow2(1028);
    lemma_pow2_adds(1028, 46);
    lemma2_to64();
    lemma_pow2_pos(1028);
    lemma_pow2_adds(32, 14);
    assert(pow2(46) == 0x4000_0000_0000);
    assert(100 * pow2(1074) == (0x19_0000_0000_0000) * unit) by (nonlinear_arith)
        requires
            pow2(1074) == unit * 0x4000_0000_0000,
    ;
    if exponent == 0 {
        assert(fraction < 0x19_0000_0000_0000 * unit) by (nonlinear_arith)
            requires
                fraction < 0x10_0000_0000_0000,
                unit >= 1,
        ;
    } else if exponent < 1029 {
        let power = pow2((exponent - 1) as nat);
        if exponent - 1 < 1027 {
            lemma_pow2_strictly_increases((exponent - 1) as nat, 1027);
        }
        lemma_pow2_adds(1027, 1);
        assert(pow2(1) == 2);
        let half = pow2(1027);
        lemma_pow2_pos((exponent - 1) as nat);
        assert((0x10_0000_0000_0000 + fraction) * power < 0x19_0000_0000_0000 * unit)
            by (nonlinear_arith)
            requires
                fraction < 0x10_0000_0000_0000,
                1 <= power <= half,
                unit == half * 2,
        ;
    } else if exponent == 1029 {
        assert((0x10_0000_0000_0000 + fraction) * unit >= 0x19_0000_0000_0000 * unit <==> fraction
            >= 0x9_0000_0000_0000) by (nonlinear_arith)
            requires
                unit >= 1,
        ;
    } else {
        let power = pow2((exponent - 1) as nat);
        lemma_pow2_strictly_increases(1028, (exponent - 1) as nat);
        lemma_pow2_adds(1028, 1);
        assert(pow2(1) == 2);
        if exponent - 1 > 1029 {
            lemma_pow2_strictly_increases(1029, (exponent - 1) as nat);
        }
        assert((0x10_0000_0000_0000 + fraction) * power >= 0x19_0000_0000_0000 * unit)
            by (nonlinear_arith)
            requires
                power >= unit * 2,
                unit >= 1,
        ;
    }
}

/// The names under which a bucket holds the usage of a window.
pub open spec fn used_percent_name(prefix: Seq<char>) -> Seq<char> {
    prefix + "_used_percent"@
}

/// The name under which a bucket holds the time when a window starts anew.
pub open spec fn reset_at_name(prefix: Seq<char>) -> Seq<char> {
    prefix + "_reset_at"@
}

/// What a bucket of provider metadata holds of a usage window: the used part in
/// percent and the time when the window starts anew.
pub fn quota_window_fields<'a>(
    bucket: &'a serde_json::Map<String, Value>,
    prefix: &str,
) -> (fields: (Option<&'a Value>, Option<&'a Value>))
    ensures
        opt_json_ref(fields.0) == member_of(
            Json::Object(members_of(*bucket)),
            used_percent_name(prefix@),
        ),
        opt_json_ref(fields.1) == member_of(
            Json::Object(members_of(*bucket)),
            reset_at_name(prefix@),
        ),
{
    (
        object_member(bucket, joined(prefix, "_used_percent").as_str()),
        object_member(bucket, joined(prefix, "_reset_at").as_str()),
    )
}

/// What a bucket of provider metadata holds of the weekly and of the monthly
/// window, each as [`quota_window_fields`] finds it.
pub fn quota_bucket_fields<'a>(bucket: &'a serde_json::Map<String, Value>) -> (fields: (
    (Option<&'a Value>, Option<&'a Value>),
    (Option<&'a Value>, Option<&'a Value>),
))
    ensures
        ({
            let held = Json::Object(members_of(*bucket));
            &&& opt_json_ref(fields.0.0) == member_of(held, "weekly_used_percent"@)
            &&& opt_json_ref(fields.0.1) == member_of(held, "weekly_reset_at"@)
            &&& opt_json_ref(fields.1.0) == member_of(held, "monthly_used_percent"@)
            &&& opt_json_ref(fields.1.1) == member_of(held, "monthly_reset_at"@)
        }),
{
    proof {
        reveal_strlit("weekly");
        reveal_strlit("monthly");
        reveal_strlit("_used_percent");
        reveal_strlit("_reset_at");
        reveal_strlit("weekly_used_percent");
        reveal_strlit("weekly_reset_at");
        reveal_strlit("monthly_used_percent");
        reveal_strlit("monthly_reset_at");
        assert(used_percent_name("weekly"@) =~= "weekly_used_percent"@);
        assert(reset_at_name("weekly"@) =~= "weekly_reset_at"@);
        assert(used_percent_name("monthly"@) =~= "monthly_used_percent"@);
        assert(reset_at_name("monthly"@) =~= "monthly_reset_at"@);
    }
    (quota_window_fields(bucket, "weekly"), quota_window_fields(bucket, "monthly"))
}

/// Whether the binary64 float with these bits is at least one hundred.
fn reaches_full_percent(bits: u64) -> (full: bool)
    ensures
        full == double_reaches(bits, 100),
{
    proof {
        if bits < 0x7ff0_0000_0000_0000 {
            lemma_full_percent(bits);
        }
    }
    0x4059_0000_0000_0000 <= bits && bits <= 0x7ff0_0000_0000_0000
}

/// Whether a usage window is exhausted: all of it is used, and it is not known
/// to have started anew.
pub fn quota_window_exhausted(reading: &QuotaWindowReading) -> (exhausted: bool)
    ensures
        exhausted == window_exhausted(*reading),
{
    let full = match reading.used_percent {
        Some(bits) => reaches_full_percent(bits),
        None => false,
    };
    if !full {
        return false;
    }
    match (reading.now, reading.reset_at) {
        (Some(now), Some(reset_at)) => now < reset_at,
        _ => true,
    }
}

/// Whether an account is exhausted by what its bucket holds: one exhausted
/// window is enough.
pub fn quota_exhausted_from_bucket(
    weekly: &QuotaWindowReading,
    monthly: &QuotaWindowReading,
) -> (exhausted: bool)
    ensures
        exhausted == (window_exhausted(*weekly) || window_exhausted(*monthly)),
        exhausted == account_exhausted(None, Some((*weekly, *monthly))),
{
    quota_window_exhausted(weekly) || quota_window_exhausted(monthly)
}

/// The Grok OAuth provider in the provider pool.
#[derive(Debug, Clone, Default)]
pub struct GrokOAuthProviderPoolAdapter;

impl GrokOAuthProviderPoolAdapter {
    /// The type of provider.
    pub fn provider_type(&self) -> (name: &'static str)
        ensures
            name@ == "grok_oauth"@,
    {
        "grok_oauth"
    }

    /// What the pool can do with the keys.
    pub fn capabilities(&self) -> (capabilities: ProviderPoolCapabilities)
        ensures
            capabilities == (ProviderPoolCapabilities {
                plan_tier: true,
                quota_reset: false,
                quota_refresh: true,
            }),
    {
        ProviderPoolCapabilities { plan_tier: true, quota_reset: false, quota_refresh: true }
    }

    /// Whether a key is exhausted: as its status snapshot decides, and where
    /// that decides nothing, as its metadata bucket says. A key without either
    /// is not.
    pub fn quota_exhausted(
        &self,
        snapshot_decision: Option<bool>,
        bucket: Option<(QuotaWindowReading, QuotaWindowReading)>,
    ) -> (exhausted: bool)
        ensures
            exhausted == match snapshot_decision {
                Some(decided) => decided,
                None => bucket matches Some(windows) && (window_exhausted(windows.0)
                    || window_exhausted(windows.1)),
            },
            exhausted == account_exhausted(snapshot_decision, bucket),
    {
        if let Some(exhausted) = snapshot_decision {
            return exhausted;
        }
        match bucket {
            Some((weekly, monthly)) => quota_exhausted_from_bucket(&weekly, &monthly),
            None => false,
        }
    }

    /// The API format of the endpoints over which a quota is read anew.
    pub fn quota_refresh_endpoint_format(&self) -> (format: &'static str)
        ensures
            format@ == "openai:responses"@,
    {
        "openai:responses"
    }

    /// Said where no endpoint has that format.
    pub fn quota_refresh_missing_endpoint_message(&self) -> (message: String)
        ensures
            message@ == "找不到有效的 openai:responses 端点"@,
    {
        "找不到有效的 openai:responses 端点".to_owned()
    }
}

} // verus!
