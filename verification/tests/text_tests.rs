use clockify_tui::text::{
    checked_iso_duration, decimal_string, format_elapsed, parse_clock, parse_iso_duration,
    truncate_str,
};

#[test]
fn iso_duration_hours_and_minutes() {
    assert_eq!(parse_iso_duration("PT1H30M"), 90);
    assert_eq!(parse_iso_duration("PT45M"), 45);
    assert_eq!(parse_iso_duration("PT2H"), 120);
}

#[test]
fn iso_duration_ignores_seconds_and_empty() {
    assert_eq!(parse_iso_duration("PT1H30M15S"), 90);
    assert_eq!(parse_iso_duration(""), 0);
    assert_eq!(parse_iso_duration("PT"), 0);
}

#[test]
fn iso_duration_unparsable_hours_count_as_zero() {
    // more digits than a u64 holds: the parse fails and counts as 0 hours
    assert_eq!(parse_iso_duration("PT99999999999999999999H5M"), 5);
}

#[test]
fn iso_duration_checked_overflow() {
    assert_eq!(checked_iso_duration("PT1H1M"), Some(61));
    assert_eq!(checked_iso_duration("PT307445734561825861H"), None);
}

#[test]
fn truncate_long_and_short() {
    assert_eq!(truncate_str("Hello World", 8), "Hello ..");
    assert_eq!(truncate_str("Hello", 8), "Hello");
    assert_eq!(truncate_str("12345678", 8), "12345678");
}

#[test]
fn truncate_counts_characters_not_bytes() {
    assert_eq!(truncate_str("ééééé", 4), "éé..");
    assert_eq!(truncate_str("éééé", 4), "éééé");
}

#[test]
fn truncate_twice_same_as_once() {
    let once = truncate_str("A rather long description", 12);
    assert_eq!(truncate_str(&once, 12), once);
    assert!(once.chars().count() <= 12);
}

#[test]
fn elapsed_clock_faces() {
    assert_eq!(format_elapsed(Some(3725)), "01:02:05");
    assert_eq!(format_elapsed(Some(0)), "00:00:00");
    assert_eq!(format_elapsed(Some(-5)), "00:00:00");
    assert_eq!(format_elapsed(None), "00:00:00");
    assert_eq!(format_elapsed(Some(360000)), "100:00:00");
}

#[test]
fn clock_times_accepted() {
    assert_eq!(parse_clock("09:30"), Some((9, 30)));
    assert_eq!(parse_clock("9:5"), Some((9, 5)));
    assert_eq!(parse_clock("+9:05"), Some((9, 5)));
    assert_eq!(parse_clock("23:59"), Some((23, 59)));
    assert_eq!(parse_clock("00:00"), Some((0, 0)));
}

#[test]
fn clock_times_rejected() {
    assert_eq!(parse_clock("24:00"), None);
    assert_eq!(parse_clock("9:60"), None);
    assert_eq!(parse_clock("0930"), None);
    assert_eq!(parse_clock("1:2:3"), None);
    assert_eq!(parse_clock("-1:00"), None);
    assert_eq!(parse_clock(":30"), None);
    assert_eq!(parse_clock("+:30"), None);
    assert_eq!(parse_clock("9:99999999999"), None);
}

#[test]
fn clock_times_filled_by_form_read_back() {
    for h in 0..24u32 {
        for m in [0u32, 7, 30, 59] {
            let text = format!("{:02}:{:02}", h, m);
            assert_eq!(parse_clock(&text), Some((h, m)));
        }
    }
}

#[test]
fn durations_written_by_clockify_read_back() {
    for (h, m) in [(0u64, 0u64), (1, 30), (12, 5), (100, 59)] {
        let text = format!("PT{}H{}M", h, m);
        assert_eq!(parse_iso_duration(&text), h * 60 + m);
    }
}

#[test]
fn decimal_rendering() {
    assert_eq!(decimal_string(0), "0");
    assert_eq!(decimal_string(12345), "12345");
    assert_eq!(decimal_string(u64::MAX), u64::MAX.to_string());
}

#[test]
fn seconds_part_never_changes_minutes() {
    for (h, m, x) in [("1", "30", "15"), ("0", "0", "59"), ("12", "5", "0"), ("007", "45", "123")] {
        assert_eq!(parse_iso_duration(&format!("PT{h}H{m}M{x}S")), parse_iso_duration(&format!("PT{h}H{m}M")));
        assert_eq!(parse_iso_duration(&format!("PT{m}M{x}S")), parse_iso_duration(&format!("PT{m}M")));
        assert_eq!(parse_iso_duration(&format!("PT{h}H{x}S")), parse_iso_duration(&format!("PT{h}H")));
    }
}
