use zju_connect_gui::backend::proxy::retry::{
    default_jitter, format_retry_delay, jitter_draw, JitterDraw, next_retry_delay, no_jitter, DEFAULT_RETRY_MAX_DELAY,
    RETRY_FLOOR,
};

#[test]
fn next_retry_delay_no_jitter_doubles() {
    let base = 1000;
    let max = 60000;
    assert_eq!(next_retry_delay(1, base, max, no_jitter), 1000);
    assert_eq!(next_retry_delay(2, base, max, no_jitter), 2000);
    assert_eq!(next_retry_delay(3, base, max, no_jitter), 4000);
    assert_eq!(next_retry_delay(4, base, max, no_jitter), 8000);
    assert_eq!(next_retry_delay(5, base, max, no_jitter), 16000);
    assert_eq!(next_retry_delay(6, base, max, no_jitter), 32000);
    assert_eq!(next_retry_delay(7, base, max, no_jitter), 60000);
    assert_eq!(next_retry_delay(8, base, max, no_jitter), 60000);
    assert_eq!(next_retry_delay(20, base, max, no_jitter), 60000);
}

#[test]
fn default_jitter_within_twenty_percent() {
    let base = 10000;
    for _ in 0..50 {
        let jittered = default_jitter(base, 1);
        assert!(
            (8000..=12000).contains(&jittered),
            "{jittered:?} outside ±20% window"
        );
    }
}

#[test]
fn default_jitter_floors_a_zero_delay_and_keeps_tiny_ones() {
    assert_eq!(default_jitter(0, 1), RETRY_FLOOR);
    assert_eq!(default_jitter(4, 1), 4);
}

#[test]
fn next_retry_delay_floors_at_one_second() {
    let small = 50;
    let max = 10000;
    let result = next_retry_delay(1, small, max, |_, _| 10);
    assert_eq!(result, RETRY_FLOOR);
}

#[test]
fn next_retry_delay_uses_defaults_for_zero_settings() {
    assert_eq!(next_retry_delay(1, 0, 0, no_jitter), 1000);
    assert_eq!(next_retry_delay(30, 0, 0, no_jitter), DEFAULT_RETRY_MAX_DELAY);
    assert_eq!(next_retry_delay(0, 5000, 60000, no_jitter), 5000);
    assert_eq!(next_retry_delay(3, 1000, 60000, |d, _| d * 100), 60000);
}

#[test]
fn next_retry_delay_never_goes_below_the_cap_when_the_cap_is_small() {
    assert_eq!(next_retry_delay(5, 100, 500, no_jitter), 500);
}

#[test]
fn format_retry_delay_humanized() {
    assert_eq!(format_retry_delay(1000), "1 秒");
    assert_eq!(format_retry_delay(45000), "45 秒");
    assert_eq!(format_retry_delay(60000), "1 分钟");
    assert_eq!(format_retry_delay(125000), "2 分 5 秒");
}

#[test]
fn format_retry_delay_short_and_rounded() {
    assert_eq!(format_retry_delay(0), "0ns");
    assert_eq!(format_retry_delay(250), "250ms");
    assert_eq!(format_retry_delay(499), "499ms");
    assert_eq!(format_retry_delay(500), "1 秒");
    assert_eq!(format_retry_delay(59499), "59 秒");
    assert_eq!(format_retry_delay(59500), "1 分钟");
}

#[test]
fn jitter_draws_a_fifth_either_way() {
    assert_eq!(jitter_draw(0), JitterDraw::Fixed(RETRY_FLOOR));
    assert_eq!(jitter_draw(4), JitterDraw::Fixed(4));
    assert_eq!(jitter_draw(10_000), JitterDraw::Range(8_000, 12_000));
    assert_eq!(jitter_draw(u64::MAX), JitterDraw::Range(u64::MAX - u64::MAX / 5, u64::MAX));
}
