use grok_oauth::adapter::{
    quota_bucket_fields, quota_exhausted_from_bucket, quota_window_exhausted, quota_window_fields,
    GrokOAuthProviderPoolAdapter, ProviderPoolCapabilities, QuotaWindowReading,
};
use serde_json::Value;

fn reading(used_percent: f64, reset_at: Option<u64>, now: Option<u64>) -> QuotaWindowReading {
    QuotaWindowReading { used_percent: Some(used_percent.to_bits()), reset_at, now }
}

fn full() -> QuotaWindowReading {
    reading(100.0, None, None)
}

fn empty() -> QuotaWindowReading {
    reading(0.0, None, None)
}

#[test]
fn adapter_describes_the_provider() {
    let adapter = GrokOAuthProviderPoolAdapter::default();
    assert_eq!(adapter.provider_type(), "grok_oauth");
    assert_eq!(
        adapter.capabilities(),
        ProviderPoolCapabilities { plan_tier: true, quota_reset: false, quota_refresh: true }
    );
    assert_eq!(adapter.quota_refresh_endpoint_format(), "openai:responses");
    assert_eq!(
        adapter.clone().quota_refresh_missing_endpoint_message(),
        "找不到有效的 openai:responses 端点"
    );
}

#[test]
fn usage_of_one_hundred_percent_exhausts_a_window() {
    let below = f64::from_bits(100.0f64.to_bits() - 1);
    let above = f64::from_bits(100.0f64.to_bits() + 1);
    assert!(below < 100.0);
    let usages = [
        0.0,
        -0.0,
        1.0,
        64.0,
        99.0,
        99.999_999,
        below,
        100.0,
        above,
        100.5,
        127.9,
        128.0,
        1.0e300,
        f64::MAX,
        f64::MIN,
        f64::INFINITY,
        f64::NEG_INFINITY,
        f64::NAN,
        -f64::NAN,
        f64::MIN_POSITIVE,
        f64::from_bits(1),
        -100.0,
        -1.0e300,
    ];
    for usage in usages {
        assert_eq!(
            quota_window_exhausted(&reading(usage, None, None)),
            usage >= 100.0,
            "{usage}"
        );
    }
    assert!(!quota_window_exhausted(&QuotaWindowReading {
        used_percent: None,
        reset_at: Some(2),
        now: Some(1),
    }));
}

#[test]
fn usage_is_compared_like_a_float_over_all_exponents() {
    let mut exponent: u64 = 0;
    while exponent < 4096 {
        for fraction in [0u64, 1, 0x9_0000_0000_0000 - 1, 0x9_0000_0000_0000, 0xf_ffff_ffff_ffff] {
            let usage = f64::from_bits((exponent << 52) | fraction);
            assert_eq!(quota_window_exhausted(&reading(usage, None, None)), usage >= 100.0);
        }
        exponent += 1;
    }
}

#[test]
fn window_is_exhausted_until_it_starts_anew() {
    assert!(quota_window_exhausted(&reading(100.0, Some(20), Some(19))));
    assert!(!quota_window_exhausted(&reading(100.0, Some(20), Some(20))));
    assert!(!quota_window_exhausted(&reading(100.0, Some(20), Some(21))));
    assert!(quota_window_exhausted(&reading(100.0, None, Some(21))));
    assert!(quota_window_exhausted(&reading(100.0, Some(20), None)));
    assert!(!quota_window_exhausted(&reading(99.0, Some(20), Some(19))));
}

#[test]
fn more_usage_stays_exhausted() {
    assert!(quota_window_exhausted(&reading(100.0, Some(20), Some(19))));
    assert!(quota_window_exhausted(&reading(250.0, Some(20), Some(19))));
    assert!(quota_window_exhausted(&reading(f64::INFINITY, Some(20), Some(19))));
}

#[test]
fn one_exhausted_window_exhausts_an_account() {
    assert!(quota_exhausted_from_bucket(&full(), &empty()));
    assert!(quota_exhausted_from_bucket(&empty(), &full()));
    assert!(quota_exhausted_from_bucket(&full(), &full()));
    assert!(!quota_exhausted_from_bucket(&empty(), &empty()));
}

#[test]
fn status_snapshot_decides_before_the_bucket() {
    let adapter = GrokOAuthProviderPoolAdapter;
    assert!(adapter.quota_exhausted(Some(true), Some((empty(), empty()))));
    assert!(!adapter.quota_exhausted(Some(false), Some((full(), full()))));
    assert!(adapter.quota_exhausted(None, Some((empty(), full()))));
    assert!(!adapter.quota_exhausted(None, Some((empty(), empty()))));
    assert!(!adapter.quota_exhausted(None, None));
}

#[test]
fn bucket_fields_are_found_by_prefix() {
    let bucket: Value = serde_json::from_str(
        r#"{"weekly_used_percent":70.0,"weekly_reset_at":2000000000,"monthly_used_percent":10.0}"#,
    )
    .unwrap();
    let bucket = bucket.as_object().unwrap();
    assert_eq!(
        quota_window_fields(bucket, "weekly"),
        (Some(&Value::from(70.0)), Some(&Value::from(2_000_000_000u64)))
    );
    assert_eq!(quota_window_fields(bucket, "monthly"), (Some(&Value::from(10.0)), None));
    assert_eq!(quota_window_fields(bucket, "daily"), (None, None));
    assert_eq!(
        quota_bucket_fields(bucket),
        (
            (Some(&Value::from(70.0)), Some(&Value::from(2_000_000_000u64))),
            (Some(&Value::from(10.0)), None)
        )
    );
}
