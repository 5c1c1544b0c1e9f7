use trade_alert::decimal::Price;
use trade_alert::fallback::{
    fetch_fallback_price, synthesize, DEFAULT_LAST_MICROS, LEAST_POSITIVE_START_MICROS,
    VOLUME_FLOOR, VOLUME_SPAN, WALK_STEPS,
};
use trade_alert::models::SourceTag;

fn walked(last: Option<i64>, draw: u64) -> i64 {
    synthesize("S", last.map(|micros| Price { micros }), draw, 0, 0).price.micros
}

#[test]
fn the_walk_spans_one_percent_either_way() {
    assert_eq!(walked(Some(100_000_000), 0), 99_000_000);
    assert_eq!(walked(Some(100_000_000), 10_000), 100_000_000);
    assert_eq!(walked(Some(100_000_000), 20_000), 101_000_000);
    assert_eq!(walked(Some(100_000_000), 15_000), 100_500_000);
    assert_eq!(walked(Some(100_000_000), 5_000), 99_500_000);
}

#[test]
fn the_draw_is_taken_modulo_the_number_of_steps() {
    assert_eq!(WALK_STEPS, 20_001);
    assert_eq!(walked(Some(100_000_000), 20_001), walked(Some(100_000_000), 0));
    assert_eq!(walked(Some(100_000_000), 20_002), walked(Some(100_000_000), 1));
    assert_eq!(walked(Some(100_000_000), u64::MAX), walked(Some(100_000_000), u64::MAX % 20_001));
}

#[test]
fn the_made_up_price_is_rounded_to_cents_half_away_from_zero() {
    // 12.34 * 0.990001 = 12.21661234 -> 12.22
    assert_eq!(walked(Some(12_340_000), 1), 12_220_000);
    // 0.50 * 1.01 = 0.505 -> 0.51
    assert_eq!(walked(Some(500_000), 20_000), 510_000);
    // 0.50 * 0.99 = 0.495 -> 0.50
    assert_eq!(walked(Some(500_000), 0), 500_000);
    // -0.50 * 1.01 = -0.505 -> -0.51
    assert_eq!(walked(Some(-500_000), 20_000), -510_000);
    assert_eq!(walked(Some(0), 123), 0);
    assert_eq!(walked(Some(1), 20_000), 0);
}

#[test]
fn without_a_stored_price_the_walk_starts_at_one_hundred() {
    assert_eq!(DEFAULT_LAST_MICROS, 100_000_000);
    for draw in [0u64, 7, 10_000, 20_000] {
        assert_eq!(walked(None, draw), walked(Some(100_000_000), draw));
    }
}

#[test]
fn a_price_that_would_not_fit_stops_at_the_bound() {
    assert_eq!(walked(Some(i64::MAX), 20_000), i64::MAX);
    assert_eq!(walked(Some(i64::MIN), 20_000), i64::MIN);
    assert!(walked(Some(i64::MAX), 0) < i64::MAX);
}

#[test]
fn the_made_up_price_is_above_zero_from_half_a_cent_on() {
    assert_eq!(LEAST_POSITIVE_START_MICROS, 5_051);
    for draw in [0u64, 1, 10_000, 20_000] {
        assert_eq!(walked(Some(5_051), draw), 10_000);
        assert!(walked(Some(1_000_000), draw) > 0);
    }
    // just below, the lowest step rounds to nothing
    assert_eq!(walked(Some(5_050), 0), 0);
    assert_eq!(walked(Some(5_050), 20_000), 10_000);
    // 0.004951 * 1.01 = 0.00500051 is half a cent, 0.004950 * 1.01 is not
    assert_eq!(walked(Some(4_951), 20_000), 10_000);
    assert_eq!(walked(Some(4_950), 20_000), 0);
    assert!(walked(Some(-5_051), 0) < 0);
}

#[test]
fn the_made_up_volume_lies_between_1000_and_10999() {
    assert_eq!(VOLUME_FLOOR, 1_000);
    assert_eq!(VOLUME_SPAN, 10_000);
    let volume = |draw: u64| synthesize("S", None, 0, draw, 0).volume;
    assert_eq!(volume(0), 1_000);
    assert_eq!(volume(9_999), 10_999);
    assert_eq!(volume(10_000), 1_000);
    assert_eq!(volume(u64::MAX), (u64::MAX % 10_000) as i64 + 1_000);
}

#[test]
fn the_made_up_sample_is_tagged_and_named() {
    let sample = synthesize("000001.SZ", Some(Price { micros: 10_000_000 }), 10_000, 5, 77);
    assert_eq!(sample.symbol, "000001.SZ");
    assert_eq!(sample.price, Price { micros: 10_000_000 });
    assert_eq!(sample.volume, 1_005);
    assert_eq!(sample.timestamp, 77);
    assert_eq!(sample.source, SourceTag::Fallback);
    assert_eq!(sample.name.as_deref(), Some("000001.SZ Corporation"));
}

#[test]
fn a_drawn_sample_stays_within_one_percent() {
    for _ in 0..200 {
        let sample = fetch_fallback_price("AAPL", Some(Price { micros: 100_000_000 }), 5);
        assert!((99_000_000..=101_000_000).contains(&sample.price.micros));
        assert_eq!(sample.price.micros % 10_000, 0);
        assert!((1_000..=10_999).contains(&sample.volume));
        assert_eq!(sample.source, SourceTag::Fallback);
        assert_eq!(sample.timestamp, 5);
    }
}

#[test]
fn drawn_samples_are_not_all_the_same() {
    let first = fetch_fallback_price("AAPL", None, 0);
    let mut differs = false;
    for _ in 0..200 {
        let next = fetch_fallback_price("AAPL", None, 0);
        if next.price != first.price || next.volume != first.volume {
            differs = true;
        }
    }
    assert!(differs);
}
