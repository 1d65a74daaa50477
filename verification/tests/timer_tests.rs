use secops_endpoint_ui::timer::{format_clock, format_elapsed_secs, unix_ms, unix_ms_from, Countdown, Elapsed};

#[test]
fn clock_text_is_utc_hours_and_minutes() {
    assert_eq!(format_clock(0), "00:00");
    assert_eq!(format_clock(13 * 3_600_000 + 7 * 60_000 + 59_999), "13:07");
    assert_eq!(format_clock(86_400_000 - 1), "23:59");
    assert_eq!(format_clock(1_700_000_000_000), "22:13");
}

#[test]
fn clock_text_repeats_daily() {
    for ms in [0u64, 61_000, 45_296_000, 1_700_000_000_000] {
        assert_eq!(format_clock(ms + 86_400_000), format_clock(ms));
        assert_eq!(format_clock(ms).len(), 5);
    }
}

#[test]
fn elapsed_text_uses_hours_only_from_an_hour_on() {
    assert_eq!(format_elapsed_secs(0), "00:00");
    assert_eq!(format_elapsed_secs(59), "00:59");
    assert_eq!(format_elapsed_secs(61), "01:01");
    assert_eq!(format_elapsed_secs(3599), "59:59");
    assert_eq!(format_elapsed_secs(3600), "01:00:00");
    assert_eq!(format_elapsed_secs(3661), "01:01:01");
    assert_eq!(format_elapsed_secs(360_000), "100:00:00");
}

#[test]
fn unix_ms_from_truncates_and_defaults_to_zero() {
    assert_eq!(unix_ms_from(Some(5)), 5);
    assert_eq!(unix_ms_from(None), 0);
    assert_eq!(unix_ms_from(Some(u64::MAX as u128 + 2)), 1);
}

#[test]
fn unix_ms_reads_the_wall_clock() {
    let now = unix_ms();
    // Later than 2020-01-01.
    assert!(now > 1_577_836_800_000);
}

#[test]
fn countdown_of_zero_lasts_one_second() {
    let c = Countdown::new(0);
    assert_eq!(c.total_secs(), 1);
    assert_eq!(c.remaining_at(0), 1_000_000_000);
    assert!(!c.expired_at(999_999_999));
    assert!(c.expired_at(1_000_000_000));
}

#[test]
fn countdown_remaining_and_expiry_agree() {
    let c = Countdown::new(3);
    assert_eq!(c.total_secs(), 3);
    assert_eq!(c.remaining_at(0), 3_000_000_000);
    assert_eq!(c.remaining_secs_at(0), 3);
    assert_eq!(c.remaining_at(1_500_000_000), 1_500_000_000);
    assert_eq!(c.remaining_secs_at(1_500_000_000), 1);
    assert_eq!(c.remaining_at(5_000_000_000), 0);
    for e in [0u128, 1, 2_999_999_999, 3_000_000_000, 9_000_000_000] {
        assert_eq!(c.expired_at(e), c.remaining_at(e) == 0);
    }
}

#[test]
fn countdown_read_from_the_clock() {
    let c = Countdown::new(30);
    assert!(!c.expired());
    assert!(c.remaining_secs() <= 30 && c.remaining_secs() >= 28);
    assert!(c.remaining() <= 30_000_000_000);
}

#[test]
fn elapsed_starts_at_zero() {
    let e = Elapsed::new();
    assert_eq!(e.secs(), 0);
    assert_eq!(e.format(), "00:00");
}

#[test]
fn remaining_never_grows() {
    let c = Countdown::new(2);
    let mut last = c.remaining_at(0);
    assert_eq!(last, 2_000_000_000);
    for e in [1u128, 10, 999_999_999, 1_000_000_000, 1_999_999_999, 2_000_000_000, 5_000_000_000] {
        let r = c.remaining_at(e);
        assert!(r <= last);
        last = r;
    }
}
