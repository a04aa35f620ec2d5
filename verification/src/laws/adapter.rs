//! When a usage window is exhausted. A usage is given by the bits of a binary64
//! float: those of 100 are `0x4059_0000_0000_0000`, those of infinity
//! `0x7ff0_0000_0000_0000`, and what lies between is ordered as the bits are.
use crate::adapter::{
    account_exhausted, double_units, lemma_full_percent, reset_at_name, used_percent_name, window_exhausted,
    QuotaWindowReading,
};
use vstd::arithmetic::power2::{lemma2_to64, lemma_pow2_adds, pow2};
use vstd::prelude::*;

verus! {

/// A window with a usage of at least one hundred percent is exhausted at every
/// time before its reset, and at no time from then on.
pub proof fn law_full_window_is_exhausted_until_its_reset(
    bits: u64,
    reset_at: u64,
    now: u64,
)
    requires
        0x4059_0000_0000_0000 <= bits <= 0x7ff0_0000_0000_0000,
    ensures
        window_exhausted(
            QuotaWindowReading {
                used_percent: Some(bits),
                reset_at: Some(reset_at),
                now: Some(now),
            },
        ) <==> now < reset_at,
{
    if bits < 0x7ff0_0000_0000_0000 {
        lemma_full_percent(bits);
    }
}

/// A window with a usage of at least one hundred percent is exhausted where the
/// time or the reset is not known.
pub proof fn law_full_window_without_times_is_exhausted(reading: QuotaWindowReading)
    requires
        reading.used_percent matches Some(bits) && 0x4059_0000_0000_0000 <= bits
            <= 0x7ff0_0000_0000_0000,
        reading.reset_at is None || reading.now is None,
    ensures
        window_exhausted(reading),
{
    let bits = reading.used_percent->0;
    if bits < 0x7ff0_0000_0000_0000 {
        lemma_full_percent(bits);
    }
}

/// A window is not exhausted, whatever the time, where its usage is not known, is
/// below one hundred percent, is negative or is not a number.
pub proof fn law_window_with_usage_left_is_not_exhausted(reading: QuotaWindowReading)
    requires
        reading.used_percent matches Some(bits) ==> bits < 0x4059_0000_0000_0000 || bits
            > 0x7ff0_0000_0000_0000,
    ensures
        !window_exhausted(reading),
{
    if let Some(bits) = reading.used_percent {
        if bits < 0x7ff0_0000_0000_0000 {
            lemma_full_percent(bits);
        }
    }
}

/// What the status snapshot decides is not changed by any bucket.
pub proof fn law_snapshot_decides_first(
    decided: bool,
    bucket: Option<(QuotaWindowReading, QuotaWindowReading)>,
)
    ensures
        account_exhausted(Some(decided), bucket) == decided,
{
}

/// Where the snapshot decides nothing, one exhausted window is enough, whichever
/// it is, and without one the account is not exhausted.
pub proof fn law_one_window_is_enough(a: QuotaWindowReading, b: QuotaWindowReading)
    ensures
        window_exhausted(a) ==> account_exhausted(None, Some((a, b))) && account_exhausted(
            None,
            Some((b, a)),
        ),
        !window_exhausted(a) && !window_exhausted(b) ==> !account_exhausted(None, Some((a, b))),
        !account_exhausted(None, None),
{
}

/// The float with the bits of one hundred is one hundred.
pub proof fn law_bits_of_one_hundred()
    ensures
        double_units(0x4059_0000_0000_0000) == 100 * pow2(1074),
{
    lemma_pow2_adds(1028, 46);
    lemma2_to64();
    lemma_pow2_adds(32, 14);
    assert(0x19_0000_0000_0000 * pow2(1028) == 100 * (pow2(1028) * 0x4000_0000_0000))
        by (nonlinear_arith);
}

/// A bucket holds the usage of a window and its reset under the name of the
/// window with an ending.
pub proof fn law_names_of_window_fields(prefix: Seq<char>)
    ensures
        used_percent_name(prefix).len() == prefix.len() + 13,
        used_percent_name(prefix).take(prefix.len() as int) == prefix,
        used_percent_name(prefix).skip(prefix.len() as int) == "_used_percent"@,
        reset_at_name(prefix).len() == prefix.len() + 9,
        reset_at_name(prefix).take(prefix.len() as int) == prefix,
        reset_at_name(prefix).skip(prefix.len() as int) == "_reset_at"@,
{
    reveal_strlit("_used_percent");
    reveal_strlit("_reset_at");
}

} // verus!
