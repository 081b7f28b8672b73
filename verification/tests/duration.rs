use whatsong::duration::from_iso8601;

#[test]
fn zero_seconds() {
    assert_eq!(from_iso8601("PT0S"), 0);
}

#[test]
fn hours_minutes_seconds() {
    assert_eq!(from_iso8601("PT1H2M3S"), 3723);
}

#[test]
fn formula_holds_on_larger_runs() {
    // 10 * 3600 + 0 * 60 + 59
    assert_eq!(from_iso8601("PT10H0M59S"), 36059);
    // 2 * 3600 + 34 * 60 + 5
    assert_eq!(from_iso8601("PT2H34M5S"), 9245);
}

#[test]
fn minutes_only() {
    assert_eq!(from_iso8601("PT5M"), 300);
}

#[test]
fn seconds_only_large_run() {
    assert_eq!(from_iso8601("PT90S"), 90);
}

#[test]
fn empty_marker_string_is_zero() {
    assert_eq!(from_iso8601("PT"), 0);
}

#[test]
fn empty_string_is_zero() {
    assert_eq!(from_iso8601(""), 0);
}

#[test]
fn garbage_is_zero_not_an_error() {
    assert_eq!(from_iso8601("garbage"), 0);
}

#[test]
fn lowercase_markers_contribute_nothing() {
    assert_eq!(from_iso8601("pt1h2m3s"), 0);
}

#[test]
fn non_digit_restarts_the_run() {
    // the run immediately before `H` is `2`; `1` is cut off by `x`
    assert_eq!(from_iso8601("PT1x2H"), 7200);
}

#[test]
fn marker_with_no_run_contributes_nothing() {
    assert_eq!(from_iso8601("PTH5S"), 5);
    assert_eq!(from_iso8601("H"), 0);
}

#[test]
fn oversized_run_is_unparseable_and_contributes_nothing() {
    assert_eq!(from_iso8601("PT99999999999999999999H5S"), 5);
}

#[test]
fn leading_zeros_parse() {
    assert_eq!(from_iso8601("PT0001H"), 3600);
}
