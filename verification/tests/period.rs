use service_updater::ident::PackageIdent;
use service_updater::period::{ParsePeriodError, ServiceUpdatePeriod, MIN_PERIOD_MILLIS};
use service_updater::worker::Worker;

fn worker() -> Worker {
    Worker {
        current: PackageIdent::new(
            "core".to_string(),
            "testing".to_string(),
            Some("1.0.0".to_string()),
            Some("20181109125930".to_string()),
        ),
        spec_ident: PackageIdent::new("core".to_string(), "testing".to_string(), None, None),
        builder_url: String::from("https://bldr.habitat.sh"),
        channel: String::from("stable"),
    }
}

#[test]
fn default_update_period_is_equal_to_minimum_allowed_value() {
    assert_eq!(ServiceUpdatePeriod::default().as_millis(), MIN_PERIOD_MILLIS);
}

#[test]
fn service_update_period_must_be_positive() {
    assert!(ServiceUpdatePeriod::from_str("-123").is_err());
    assert!(ServiceUpdatePeriod::from_str("0").is_ok());
    assert!(ServiceUpdatePeriod::from_str("5").is_ok());
}

#[test]
fn worker_period_defaults_properly() {
    let worker = worker();
    assert_eq!(
        ServiceUpdatePeriod::default().as_millis(),
        worker.update_period(None, false)
    );
}

#[test]
fn worker_period_can_be_overridden_by_env_var() {
    let worker = worker();
    let expected_period: u32 = 120000;
    assert!(expected_period >= MIN_PERIOD_MILLIS);
    assert_eq!(expected_period, worker.update_period(Some("120000"), false));
}

#[test]
fn worker_period_cannot_be_overridden_to_a_very_small_value_by_default() {
    let worker = worker();
    // "1" is TOO low.
    assert!(1 < MIN_PERIOD_MILLIS);
    assert_eq!(
        ServiceUpdatePeriod::default().as_millis(),
        worker.update_period(Some("1"), false)
    );
}

#[test]
fn worker_period_cannot_be_overridden_by_a_non_number() {
    let worker = worker();
    assert_eq!(
        ServiceUpdatePeriod::default().as_millis(),
        worker.update_period(Some("this is not a number"), false)
    );
}

#[test]
fn worker_period_can_be_overridden_by_a_small_value_with_bypass_var() {
    let worker = worker();
    let expected_period: u32 = 5000;
    assert!(expected_period < MIN_PERIOD_MILLIS);
    assert_eq!(expected_period, worker.update_period(Some("5000"), true));
}

#[test]
fn parse_accepts_all_u32_values() {
    // Valid non-negative decimal strings within 32-bit unsigned range.
    for s in ["0", "1", "60000", "119999", "4294967295", "007"] {
        assert!(ServiceUpdatePeriod::from_str(s).is_ok(), "{} should parse", s);
    }
    assert_eq!(ServiceUpdatePeriod::from_str("007").unwrap().as_millis(), 7);
    assert_eq!(
        ServiceUpdatePeriod::from_str("4294967295").unwrap().as_millis(),
        u32::MAX
    );
}

#[test]
fn parse_rejects_sign_whitespace_and_garbage() {
    assert_eq!(
        ServiceUpdatePeriod::from_str(""),
        Err(ParsePeriodError::Empty)
    );
    for s in ["+5", "-5", " 5", "5 ", "1.5", "five", "12a", "a12"] {
        assert_eq!(
            ServiceUpdatePeriod::from_str(s),
            Err(ParsePeriodError::InvalidDigit),
            "{} should be an invalid digit",
            s
        );
    }
}

#[test]
fn parse_rejects_values_above_u32() {
    for s in ["4294967296", "99999999999", "18446744073709551616"] {
        assert_eq!(
            ServiceUpdatePeriod::from_str(s),
            Err(ParsePeriodError::Overflow),
            "{} should overflow",
            s
        );
    }
    // A non-digit anywhere outranks overflow.
    assert_eq!(
        ServiceUpdatePeriod::from_str("99999999999x"),
        Err(ParsePeriodError::InvalidDigit)
    );
}

#[test]
fn effective_period_floor_boundary() {
    let worker = worker();
    assert_eq!(worker.update_period(Some("59999"), false), MIN_PERIOD_MILLIS);
    assert_eq!(worker.update_period(Some("60000"), false), 60_000);
    assert_eq!(worker.update_period(Some("60001"), false), 60_001);
    assert_eq!(worker.update_period(Some("0"), true), 0);
    assert_eq!(worker.update_period(None, true), MIN_PERIOD_MILLIS);
    // An unparsable value falls back to the default even with the bypass set.
    assert_eq!(worker.update_period(Some("garbage"), true), MIN_PERIOD_MILLIS);
}
