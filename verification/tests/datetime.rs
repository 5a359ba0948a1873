use fiftyshades::datetime::{format_rfc3339, millis_to_civil, resolve, Civil, ResolveError};

const REF: u64 = 1704067200000; // 2024-01-01T00:00:00.000Z

#[test]
fn formats_the_epoch() {
    assert_eq!(format_rfc3339(0), "1970-01-01T00:00:00.000Z");
}

#[test]
fn formats_a_known_instant() {
    assert_eq!(format_rfc3339(REF), "2024-01-01T00:00:00.000Z");
    assert_eq!(format_rfc3339(REF + 61_234), "2024-01-01T00:01:01.234Z");
}

#[test]
fn formats_a_leap_day() {
    // 2024-02-29T12:00:00.000Z
    let ms = REF + (31 + 28) * 86_400_000 + 12 * 3_600_000;
    assert_eq!(format_rfc3339(ms), "2024-02-29T12:00:00.000Z");
}

#[test]
fn civil_conversion_round_trips() {
    for ms in [0u64, 1, 999, 86_399_999, 86_400_000, REF, REF + 123_456_789] {
        let c = millis_to_civil(ms);
        assert_eq!(fiftyshades::datetime::civil_to_millis(&c), ms);
    }
    let c = millis_to_civil(REF);
    assert_eq!(
        c,
        Civil { year: 2024, month: 1, day: 1, hour: 0, minute: 0, second: 0, milli: 0 }
    );
}

#[test]
fn resolves_now_to_a_point_window() {
    let w = resolve("now", REF).unwrap();
    assert_eq!(w.from_ms, REF);
    assert_eq!(w.to_ms, REF);
}

#[test]
fn resolves_minutes_ago_against_the_reference() {
    let w = resolve("2 minutes ago", REF).unwrap();
    assert_eq!(w.from_ms, REF - 120_000);
    assert_eq!(w.to_ms, REF - 60_000);
}

#[test]
fn resolves_singular_and_other_units() {
    let w = resolve("1 second ago", REF).unwrap();
    assert_eq!(w.from_ms, REF - 1_000);
    assert_eq!(w.to_ms, REF);
    let w = resolve("10 seconds ago", REF).unwrap();
    assert_eq!(w.from_ms, REF - 10_000);
    assert_eq!(w.to_ms, REF - 9_000);
    let w = resolve("3 hours ago", REF).unwrap();
    assert_eq!(w.from_ms, REF - 3 * 3_600_000);
    assert_eq!(w.to_ms, REF - 2 * 3_600_000);
}

#[test]
fn resolution_is_deterministic_for_relative_expressions() {
    for expr in ["now", "90 seconds ago", "2 minutes ago", "1 hour ago"] {
        let a = resolve(expr, REF).unwrap();
        let b = resolve(expr, REF).unwrap();
        assert_eq!(a, b);
    }
}

#[test]
fn resolves_utc_literals_exactly() {
    let w = resolve("2024-01-01T00:00:00.000Z", REF).unwrap();
    assert_eq!(w.from_ms, REF);
    assert_eq!(w.to_ms, REF);
    let w = resolve("2024-01-01T00:01:00.000Z", REF).unwrap();
    assert_eq!(w.from_ms, REF + 60_000);
    let w = resolve("1970-01-01T00:00:00Z", REF).unwrap();
    assert_eq!(w.from_ms, 0);
}

#[test]
fn rejects_nonsense_and_out_of_range() {
    assert!(matches!(
        resolve("yesterday-ish", REF),
        Err(ResolveError::Parse(e)) if e.timestamp == "yesterday-ish"
    ));
    assert!(matches!(resolve("", REF), Err(ResolveError::Parse(_))));
    assert!(matches!(
        resolve("2024-13-01T00:00:00Z", REF),
        Err(ResolveError::Parse(_))
    ));
    assert!(matches!(
        resolve("2024-02-30T00:00:00Z", REF),
        Err(ResolveError::Parse(_))
    ));
    // a window reaching before the epoch cannot be represented
    assert!(matches!(
        resolve("2 hours ago", 3_600_000),
        Err(ResolveError::Parse(_))
    ));
}

#[test]
fn local_literals_resolve_or_fail_loudly() {
    // The value depends on the machine's zone; the shape does not.
    match resolve("2024-06-15 12:00:00", REF) {
        Ok(w) => assert_eq!(w.from_ms, w.to_ms),
        Err(ResolveError::LocalTime(_)) => {}
        Err(ResolveError::Parse(e)) => panic!("unexpected parse error: {:?}", e),
    }
    match resolve("2024-06-15", REF) {
        Ok(w) => assert!(w.from_ms <= w.to_ms),
        Err(ResolveError::LocalTime(_)) => {}
        Err(ResolveError::Parse(e)) => panic!("unexpected parse error: {:?}", e),
    }
}
