use check_cert::check::{CheckResult, LowerLevels, Severity};
use check_cert::checker::{check_validity_not_after, expired_text, expires_text};
use check_cert::decimal::{append_decimal, append_decimal_nat};
use time::Duration;
use x509_parser::time::ASN1Time;

fn levels(warn_days: i64, crit_days: i64) -> LowerLevels<Duration> {
    LowerLevels::warn_crit(Duration::days(warn_days), Duration::days(crit_days))
}

fn not_after() -> ASN1Time {
    ASN1Time::from_timestamp(0).expect("a valid timestamp")
}

fn rank(s: Severity) -> u8 {
    match s {
        Severity::Okay => 0,
        Severity::Warning => 1,
        Severity::Critical => 2,
    }
}

#[test]
fn ten_days_left_is_warning() {
    let r = check_validity_not_after(Some(Duration::days(10)), levels(14, 7), not_after());
    assert_eq!(r.severity, Severity::Warning);
    assert_eq!(r.message, format!("Certificate expires in 10 day(s) ({})", not_after()));
    assert_eq!(r.message, "Certificate expires in 10 day(s) (Jan  1 00:00:00 1970 +00:00)");
}

#[test]
fn three_days_left_is_critical() {
    let r = check_validity_not_after(Some(Duration::days(3)), levels(14, 7), not_after());
    assert_eq!(r.severity, Severity::Critical);
    assert_eq!(r.message, format!("Certificate expires in 3 day(s) ({})", not_after()));
}

#[test]
fn thirty_days_left_is_ok() {
    let r = check_validity_not_after(Some(Duration::days(30)), levels(14, 7), not_after());
    assert_eq!(r.severity, Severity::Okay);
    assert_eq!(r.message, format!("Certificate expires in 30 day(s) ({})", not_after()));
}

#[test]
fn expired_is_critical_under_any_levels() {
    for (w, c) in [(14, 7), (0, 0), (7, 14), (-5, -10), (10_000, 10_000)] {
        let r = check_validity_not_after(None, levels(w, c), not_after());
        assert_eq!(r.severity, Severity::Critical);
        assert_eq!(r.message, format!("Certificate expired ({})", not_after()));
        assert_eq!(r.message, "Certificate expired (Jan  1 00:00:00 1970 +00:00)");
    }
}

#[test]
fn later_timestamp_is_rendered() {
    let ts = ASN1Time::from_timestamp(1_700_000_000).expect("a valid timestamp");
    let r = check_validity_not_after(None, levels(14, 7), ts);
    assert_eq!(r.message, "Certificate expired (Nov 14 22:13:20 2023 +00:00)");
}

#[test]
fn value_at_warning_boundary_is_ok() {
    let r = check_validity_not_after(Some(Duration::days(14)), levels(14, 7), not_after());
    assert_eq!(r.severity, Severity::Okay);
    let just_below = Duration::days(14) - Duration::nanoseconds(1);
    let r = check_validity_not_after(Some(just_below), levels(14, 7), not_after());
    assert_eq!(r.severity, Severity::Warning);
    assert_eq!(r.message, format!("Certificate expires in 13 day(s) ({})", not_after()));
}

#[test]
fn value_at_critical_boundary_is_warning() {
    let r = check_validity_not_after(Some(Duration::days(7)), levels(14, 7), not_after());
    assert_eq!(r.severity, Severity::Warning);
    let just_below = Duration::days(7) - Duration::nanoseconds(1);
    let r = check_validity_not_after(Some(just_below), levels(14, 7), not_after());
    assert_eq!(r.severity, Severity::Critical);
}

#[test]
fn equal_boundaries_leave_no_warning_tier() {
    let r = check_validity_not_after(Some(Duration::days(7)), levels(7, 7), not_after());
    assert_eq!(r.severity, Severity::Okay);
    let just_below = Duration::days(7) - Duration::nanoseconds(1);
    let r = check_validity_not_after(Some(just_below), levels(7, 7), not_after());
    assert_eq!(r.severity, Severity::Critical);
}

#[test]
fn critical_boundary_is_looked_at_first() {
    let inverted = levels(7, 14);
    assert_eq!(inverted.evaluate(&Duration::days(10)), Severity::Critical);
    assert_eq!(inverted.evaluate(&Duration::days(14)), Severity::Okay);
    assert_eq!(inverted.evaluate(&Duration::days(3)), Severity::Critical);
}

#[test]
fn comparison_looks_at_nanoseconds() {
    let policy = LowerLevels::warn_crit(Duration::new(10, 500), Duration::new(10, 100));
    assert_eq!(policy.evaluate(&Duration::new(10, 99)), Severity::Critical);
    assert_eq!(policy.evaluate(&Duration::new(10, 100)), Severity::Warning);
    assert_eq!(policy.evaluate(&Duration::new(10, 499)), Severity::Warning);
    assert_eq!(policy.evaluate(&Duration::new(10, 500)), Severity::Okay);
    assert_eq!(policy.evaluate(&Duration::new(9, 999_999_999)), Severity::Critical);
    assert_eq!(policy.evaluate(&Duration::new(11, 0)), Severity::Okay);
}

#[test]
fn comparison_of_negative_spans() {
    let policy = LowerLevels::warn_crit(Duration::new(-1, -100), Duration::new(-1, -500));
    assert_eq!(policy.evaluate(&Duration::new(-1, -501)), Severity::Critical);
    assert_eq!(policy.evaluate(&Duration::new(-1, -500)), Severity::Warning);
    assert_eq!(policy.evaluate(&Duration::new(-1, -100)), Severity::Okay);
    assert_eq!(policy.evaluate(&Duration::new(-2, 0)), Severity::Critical);
    assert_eq!(policy.evaluate(&Duration::new(0, 0)), Severity::Okay);
}

#[test]
fn severity_is_monotonic_in_the_time_left() {
    for (w, c) in [(14, 7), (7, 7), (7, 14), (0, 0)] {
        let policy = levels(w, c);
        let mut previous = rank(check_validity_not_after(None, policy, not_after()).severity);
        for hours in -48..(24 * 20) {
            let r = check_validity_not_after(Some(Duration::hours(hours)), policy, not_after());
            let now = rank(r.severity);
            assert!(now <= previous);
            previous = now;
        }
    }
}

#[test]
fn day_count_truncates() {
    let almost_two = Duration::hours(45) + Duration::minutes(36);
    let r = check_validity_not_after(Some(almost_two), levels(14, 7), not_after());
    assert_eq!(r.message, format!("Certificate expires in 1 day(s) ({})", not_after()));
    let r = check_validity_not_after(Some(Duration::hours(23)), levels(14, 7), not_after());
    assert_eq!(r.message, format!("Certificate expires in 0 day(s) ({})", not_after()));
    assert_eq!(r.severity, Severity::Critical);
}

#[test]
fn day_count_truncates_towards_zero_below_zero() {
    let r = check_validity_not_after(Some(Duration::hours(-23)), levels(14, 7), not_after());
    assert_eq!(r.message, format!("Certificate expires in 0 day(s) ({})", not_after()));
    let r = check_validity_not_after(Some(Duration::hours(-47)), levels(14, 7), not_after());
    assert_eq!(r.message, format!("Certificate expires in -1 day(s) ({})", not_after()));
    assert_eq!(r.severity, Severity::Critical);
}

#[test]
fn longest_span_is_counted() {
    let r = check_validity_not_after(Some(Duration::MAX), levels(14, 7), not_after());
    assert_eq!(r.severity, Severity::Okay);
    assert_eq!(
        r.message,
        format!("Certificate expires in {} day(s) ({})", i64::MAX / 86_400, not_after())
    );
}

#[test]
fn message_texts() {
    assert_eq!(expired_text("then"), "Certificate expired (then)");
    assert_eq!(expired_text(""), "Certificate expired ()");
    assert_eq!(expires_text(10, "then"), "Certificate expires in 10 day(s) (then)");
    assert_eq!(expires_text(0, "then"), "Certificate expires in 0 day(s) (then)");
    assert_eq!(expires_text(-3, "then"), "Certificate expires in -3 day(s) (then)");
}

#[test]
fn decimal_text_of_integers() {
    for n in [0i64, 1, 9, 10, 11, 99, 100, 101, 12_345, -1, -9, -10, -12_345, i64::MAX, i64::MIN, i64::MIN + 1] {
        let mut out = String::from("n=");
        append_decimal(&mut out, n);
        assert_eq!(out, format!("n={}", n));
    }
    let mut out = String::new();
    append_decimal(&mut out, i64::MIN);
    assert_eq!(out, "-9223372036854775808");
}

#[test]
fn decimal_text_of_naturals() {
    for n in [0u64, 7, 10, 1_000, 1_009, u64::MAX] {
        let mut out = String::from("n=");
        append_decimal_nat(&mut out, n);
        assert_eq!(out, format!("n={}", n));
    }
    let mut out = String::new();
    append_decimal_nat(&mut out, u64::MAX);
    assert_eq!(out, "18446744073709551615");
}

#[test]
fn severity_from_comparisons() {
    assert_eq!(Severity::from_below(false, false), Severity::Okay);
    assert_eq!(Severity::from_below(false, true), Severity::Warning);
    assert_eq!(Severity::from_below(true, true), Severity::Critical);
    assert_eq!(Severity::from_below(true, false), Severity::Critical);
}

#[test]
fn worse_of_two_severities() {
    let all = [Severity::Okay, Severity::Warning, Severity::Critical];
    for a in all {
        for b in all {
            let w = a.worse_of(b);
            assert_eq!(rank(w), rank(a).max(rank(b)));
        }
    }
}

#[test]
fn result_constructors() {
    let r = CheckResult::ok(String::from("fine"));
    assert_eq!((r.severity, r.message.as_str()), (Severity::Okay, "fine"));
    let r = CheckResult::warn(String::from("hm"));
    assert_eq!((r.severity, r.message.as_str()), (Severity::Warning, "hm"));
    let r = CheckResult::crit(String::from("bad"));
    assert_eq!((r.severity, r.message.as_str()), (Severity::Critical, "bad"));
    let policy = levels(14, 7);
    let r = CheckResult::from_levels(&policy, &Duration::days(8), String::from("m"));
    assert_eq!((r.severity, r.message.as_str()), (Severity::Warning, "m"));
    assert_eq!(policy.warning_below, Duration::days(14));
    assert_eq!(policy.critical_below, Duration::days(7));
}

#[test]
fn severities_are_ordered() {
    assert!(Severity::Okay < Severity::Warning);
    assert!(Severity::Warning < Severity::Critical);
    let all = [Severity::Okay, Severity::Warning, Severity::Critical];
    for a in all {
        for b in all {
            assert_eq!(a < b, rank(a) < rank(b));
            assert_eq!(a.worse_of(b), a.max(b));
        }
    }
}

#[test]
fn well_formed_policies() {
    assert!(levels(14, 7).is_well_formed());
    assert!(levels(7, 7).is_well_formed());
    assert!(!levels(7, 14).is_well_formed());
    assert!(!LowerLevels::warn_crit(Duration::new(1, 0), Duration::new(1, 1)).is_well_formed());
}
