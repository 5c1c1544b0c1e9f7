use trade_alert::adapters::{GlobalQuote, QuoteMeta, Reply};
use trade_alert::budget::THROTTLE_SECS;
use trade_alert::cache::PriceCacheEntry;
use trade_alert::config::PriceFetcherConfig;
use trade_alert::decimal::Price;
use trade_alert::errors::FetchError;
use trade_alert::evaluator::{after_conditional_update, AfterUpdate, UpdateOutcome};
use trade_alert::history::PriceHistory;
use trade_alert::models::{
    AlertCondition, AlertStatus, CreateAlertRequest, PriceSample, SourceTag,
};
use trade_alert::routing::Adapter;
use trade_alert::service::{
    save_price, Acquisition, Event, Phase, PriceService, Step, WriteOutcome,
};
use trade_alert::store::AlertBook;

const T0: i64 = 1_700_000_000;

fn settings(max_retries: u32, per_hour: u64, permits: usize) -> PriceFetcherConfig {
    PriceFetcherConfig {
        update_interval_secs: 60,
        cache_ttl_secs: 300,
        max_retries,
        max_concurrent_requests: permits,
        max_requests_per_hour: per_hour,
        request_timeout_secs: 10,
        pool_idle_timeout_secs: 90,
    }
}

fn price(text: &str) -> Price {
    Price::parse(text.as_bytes()).expect("a decimal numeral")
}

fn request(symbol: &str, condition: AlertCondition, target: &str) -> CreateAlertRequest {
    CreateAlertRequest {
        symbol: symbol.to_string(),
        condition,
        price: price(target),
        notification_email: None,
        user_id: "default".to_string(),
    }
}

fn global_reply(micros: i64) -> Reply {
    Reply::Quote {
        status: 200,
        quote: Some(GlobalQuote {
            result: vec![QuoteMeta {
                regular_market_price: Some(Price { micros }),
                regular_market_volume: Some(1_000),
                short_name: Some("Apple Inc.".to_string()),
            }],
            error: None,
        }),
    }
}

fn tencent_reply(price: &str) -> Reply {
    let mut parts: Vec<String> = vec![
        "51".to_string(),
        "平安银行".to_string(),
        "000001".to_string(),
        price.to_string(),
        "10.05".to_string(),
        "10.01".to_string(),
        "345678".to_string(),
    ];
    while parts.len() < 50 {
        parts.push("0".to_string());
    }
    Reply::Text { status: 200, body: format!("v_sz000001=\"{}\";", parts.join("~")).into_bytes() }
}

fn expect_fetch(step: &Step, adapter: Adapter, url: &str) {
    match step {
        Step::Fetch { adapter: a, url: u } => {
            assert_eq!(*a, adapter);
            assert_eq!(u, url);
        }
        other => panic!("expected a fetch, got {:?}", other),
    }
}

fn expect_delivery(step: Step) -> PriceSample {
    match step {
        Step::Deliver { sample, row } => {
            assert_eq!(row.symbol, sample.symbol);
            assert_eq!(row.date, sample.timestamp.div_euclid(86_400));
            assert_eq!(row.open_price, sample.price);
            assert_eq!(row.high_price, sample.price);
            assert_eq!(row.low_price, sample.price);
            assert_eq!(row.close_price, sample.price);
            assert_eq!(row.volume, sample.volume);
            assert_eq!(row.created_at, sample.timestamp);
            sample
        }
        other => panic!("expected a delivery, got {:?}", other),
    }
}

fn fail_until_exhausted(service: &mut PriceService, acq: &mut Acquisition, attempts: u32) -> Step {
    let mut step = service.advance_with(acq, Event::Reply(Reply::Failed), T0, 0, 0);
    for attempt in 1..attempts {
        match step {
            Step::Wait { secs } => assert_eq!(secs, 1u64 << attempt),
            other => panic!("expected a wait, got {:?}", other),
        }
        assert_eq!(acq.phase, Phase::Waiting);
        assert_eq!(acq.retry.failures, attempt);
        let again = service.advance_with(acq, Event::Woke, T0, 0, 0);
        assert!(matches!(again, Step::Fetch { .. }));
        step = service.advance_with(acq, Event::Reply(Reply::Failed), T0, 0, 0);
    }
    step
}

#[test]
fn a_fetched_price_above_the_target_triggers_and_notifies_once() {
    let mut service = PriceService::new_at(settings(3, 100, 5), T0);
    let mut book = AlertBook::new();
    let mut history = PriceHistory::new();
    let alert = book.create_alert(&request("AAPL", AlertCondition::Above, "150.00"), T0 - 500);
    history.save_price(&PriceSample {
        symbol: "AAPL".to_string(),
        price: price("148.00"),
        volume: 10,
        timestamp: T0 - 86_400,
        source: SourceTag::Primary,
        name: None,
    });
    assert_eq!(history.last_price("AAPL"), Some(price("148.00")));

    let symbols = service.start_tick_at(&book, T0);
    assert_eq!(symbols, vec!["AAPL".to_string()]);

    let (mut acq, step) = service.begin_at("AAPL", T0);
    expect_fetch(&step, Adapter::Global, "https://query1.finance.yahoo.com/v8/finance/chart/AAPL");
    let step = service.advance_with(&mut acq, Event::Reply(global_reply(151_000_000)), T0, 0, 0);
    let sample = expect_delivery(step);
    assert_eq!(sample.price, price("151.00"));
    assert_eq!(sample.source, SourceTag::Primary);

    let notified = save_price(&mut history, &mut book, &sample, WriteOutcome::Stored, T0);
    assert_eq!(notified, vec![alert.id]);
    let after = book.get_alert(alert.id).expect("the alert is still there");
    assert_eq!(after.status, AlertStatus::Triggered);
    assert_eq!(after.triggered_at, Some(T0));
    assert_eq!(after.updated_at, T0);
    assert_eq!(history.last_price("AAPL"), Some(price("151.00")));

    // a second pass with the same price finds nothing to do
    let again = save_price(&mut history, &mut book, &sample, WriteOutcome::Stored, T0 + 1);
    assert!(again.is_empty());
    assert_eq!(book.get_alert(alert.id).unwrap().triggered_at, Some(T0));
}

#[test]
fn the_secondary_source_answers_after_the_primary_is_exhausted() {
    let mut service = PriceService::new_at(settings(3, 100, 5), T0);
    let mut book = AlertBook::new();
    let mut history = PriceHistory::new();
    let alert = book.create_alert(&request("000001.SZ", AlertCondition::Below, "10.00"), T0 - 500);

    let (mut acq, step) = service.begin_at("000001.SZ", T0);
    expect_fetch(&step, Adapter::DomesticPrimary, "https://hq.sinajs.cn/list=sz000001");
    let step = fail_until_exhausted(&mut service, &mut acq, 3);
    expect_fetch(&step, Adapter::DomesticSecondary, "https://qt.gtimg.cn/q=sz000001");
    assert_eq!(acq.retry.failures, 3);
    assert!(matches!(acq.last_error, Some(FetchError::Network)));

    let step = service.advance_with(&mut acq, Event::Reply(tencent_reply("9.80")), T0, 0, 0);
    let sample = expect_delivery(step);
    assert_eq!(sample.price, price("9.80"));
    assert_eq!(sample.source, SourceTag::Secondary);
    assert_eq!(acq.phase, Phase::Finished);

    let notified = save_price(&mut history, &mut book, &sample, WriteOutcome::Stored, T0);
    assert_eq!(notified, vec![alert.id]);
    assert_eq!(book.get_alert(alert.id).unwrap().status, AlertStatus::Triggered);
    assert_eq!(book.get_alert(alert.id).unwrap().triggered_at, Some(T0));
}

#[test]
fn of_two_racing_passes_one_updates_and_one_notifies() {
    let mut book = AlertBook::new();
    let alert = book.create_alert(&request("AAPL", AlertCondition::Above, "150.00"), T0);
    // both passes saw the alert as due before either wrote
    let first_view = book.due_alerts("AAPL", price("151.00"));
    let second_view = book.due_alerts("AAPL", price("151.00"));
    assert_eq!(first_view, vec![alert.id]);
    assert_eq!(second_view, vec![alert.id]);

    let first = book.mark_alert_triggered(alert.id, T0);
    let second = book.mark_alert_triggered(alert.id, T0 + 1);
    assert!(first);
    assert!(!second);
    assert_eq!(book.get_alert(alert.id).unwrap().triggered_at, Some(T0));

    let outcomes = [
        after_conditional_update(UpdateOutcome::Changed(if first { 1 } else { 0 })),
        after_conditional_update(UpdateOutcome::Changed(if second { 1 } else { 0 })),
    ];
    assert_eq!(outcomes, [AfterUpdate::Notify, AfterUpdate::AlreadyHandled]);
    assert_eq!(after_conditional_update(UpdateOutcome::Failed), AfterUpdate::Abandon);
    assert_eq!(after_conditional_update(UpdateOutcome::Changed(7)), AfterUpdate::Notify);
}

#[test]
fn a_fresh_cached_sample_skips_the_symbol_until_it_ages_out() {
    let mut service = PriceService::new_at(settings(3, 100, 5), T0);
    let (mut acq, _) = service.begin_at("AAPL", T0);
    let step = service.advance_with(&mut acq, Event::Reply(global_reply(151_000_000)), T0, 0, 0);
    expect_delivery(step);
    assert_eq!(
        service.get_cached_price("AAPL"),
        Some(PriceCacheEntry { price: price("151.00"), volume: 1_000, timestamp: T0 })
    );

    for now in [T0, T0 + 1, T0 + 299] {
        let (acq, step) = service.begin_at("AAPL", now);
        assert!(matches!(step, Step::Skip), "at {}", now - T0);
        assert_eq!(acq.phase, Phase::Finished);
        assert_eq!(service.in_flight(), 0);
    }
    let (_, step) = service.begin_at("AAPL", T0 + 300);
    assert!(matches!(step, Step::Fetch { .. }));
    // another symbol was never cached
    let (_, step) = service.begin_at("MSFT", T0 + 1);
    assert!(matches!(step, Step::Fetch { .. }));
}

#[test]
fn the_budget_defers_fetches_once_spent_until_the_window_rolls() {
    let mut service = PriceService::new_at(settings(3, 2, 5), T0);
    for (n, symbol) in ["AAPL", "MSFT"].iter().enumerate() {
        let (mut acq, step) = service.begin_at(symbol, T0 + 1);
        assert!(matches!(step, Step::Fetch { .. }));
        let step =
            service.advance_with(&mut acq, Event::Reply(global_reply(1_000_000)), T0 + 1, 0, 0);
        expect_delivery(step);
        assert_eq!(service.budget().request_count, n as u64 + 1);
    }
    let (acq, step) = service.begin_at("GOOG", T0 + 2);
    assert!(matches!(step, Step::Throttle { secs } if secs == THROTTLE_SECS));
    assert_eq!(THROTTLE_SECS, 60);
    assert_eq!(acq.phase, Phase::Finished);
    assert_eq!(service.in_flight(), 0);

    assert!(!service.check_and_reset_request_count_at(T0 + 3_599));
    let (_, step) = service.begin_at("GOOG", T0 + 3_599);
    assert!(matches!(step, Step::Throttle { .. }));

    assert!(service.check_and_reset_request_count_at(T0 + 3_600));
    assert_eq!(service.budget().request_count, 0);
    assert_eq!(service.budget().window_start, T0 + 3_600);
    let (_, step) = service.begin_at("GOOG", T0 + 3_600);
    assert!(matches!(step, Step::Fetch { .. }));
}

#[test]
fn failed_fetches_do_not_count_against_the_budget() {
    let mut service = PriceService::new_at(settings(2, 10, 5), T0);
    let (mut acq, _) = service.begin_at("AAPL", T0);
    let step = fail_until_exhausted(&mut service, &mut acq, 2);
    assert!(matches!(step, Step::ReadLastPrice));
    let step = service.advance_with(&mut acq, Event::LastPrice(None), T0, 10_000, 0);
    expect_delivery(step);
    assert_eq!(service.budget().request_count, 0);
}

#[test]
fn exhausted_retries_end_in_a_made_up_sample_near_the_last_price() {
    for draw in [0u64, 1, 9_999, 10_000, 10_001, 20_000, 20_001, u64::MAX, 123_456_789] {
        let mut service = PriceService::new_at(settings(3, 100, 5), T0);
        let (mut acq, step) = service.begin_at("AAPL", T0);
        assert!(matches!(step, Step::Fetch { .. }));
        let step = fail_until_exhausted(&mut service, &mut acq, 3);
        assert!(matches!(step, Step::ReadLastPrice));
        assert_eq!(acq.phase, Phase::ReadingLastPrice);
        assert_eq!(service.in_flight(), 1);

        let step = service.advance_with(
            &mut acq,
            Event::LastPrice(Some(price("100.00"))),
            T0 + 30,
            draw,
            draw,
        );
        let sample = expect_delivery(step);
        assert_eq!(sample.symbol, "AAPL");
        assert_eq!(sample.source, SourceTag::Fallback);
        assert_eq!(sample.timestamp, T0 + 30);
        assert!(sample.price.micros >= 99_000_000, "draw {}", draw);
        assert!(sample.price.micros <= 101_000_000, "draw {}", draw);
        assert_eq!(sample.price.micros % 10_000, 0);
        assert!((1_000..=10_999).contains(&sample.volume));
        assert_eq!(sample.name.as_deref(), Some("AAPL Corporation"));
        assert_eq!(service.in_flight(), 0);
        // the made-up sample refreshes the cache too
        assert_eq!(service.get_cached_price("AAPL").map(|e| e.price), Some(sample.price));
    }
}

#[test]
fn a_failed_write_leaves_the_history_and_still_fires_the_alerts() {
    let mut book = AlertBook::new();
    let mut history = PriceHistory::new();
    let alert = book.create_alert(&request("AAPL", AlertCondition::Above, "150.00"), T0 - 500);
    let earlier = PriceSample {
        symbol: "AAPL".to_string(),
        price: price("148.00"),
        volume: 10,
        timestamp: T0 - 86_400,
        source: SourceTag::Primary,
        name: None,
    };
    assert!(save_price(&mut history, &mut book, &earlier, WriteOutcome::Stored, T0 - 86_400)
        .is_empty());
    let sample = PriceSample { price: price("151.00"), timestamp: T0, ..earlier.clone() };

    let notified = save_price(&mut history, &mut book, &sample, WriteOutcome::Failed, T0);
    assert_eq!(notified, vec![alert.id]);
    assert_eq!(book.get_alert(alert.id).unwrap().status, AlertStatus::Triggered);
    assert_eq!(book.get_alert(alert.id).unwrap().triggered_at, Some(T0));
    // the row of the day before is still the last one
    assert_eq!(history.last_price("AAPL"), Some(price("148.00")));
}

#[test]
fn a_last_price_that_cannot_be_read_ends_without_a_sample() {
    let mut service = PriceService::new_at(settings(1, 100, 5), T0);
    service.set_cached_price(
        "AAPL",
        PriceCacheEntry { price: price("7"), volume: 1, timestamp: T0 - 1_000 },
    );
    let (mut acq, _) = service.begin_at("AAPL", T0);
    let step = service.advance_with(&mut acq, Event::Reply(Reply::Failed), T0, 0, 0);
    assert!(matches!(step, Step::ReadLastPrice));
    let step = service.advance_with(&mut acq, Event::LastPriceFailed, T0, 0, 0);
    assert!(matches!(step, Step::GiveUp));
    assert_eq!(acq.phase, Phase::Finished);
    assert!(matches!(acq.last_error, Some(FetchError::Network)));
    assert_eq!(service.in_flight(), 0);
    assert_eq!(service.budget().request_count, 0);
    assert_eq!(service.get_cached_price("AAPL").map(|e| e.timestamp), Some(T0 - 1_000));
    // the failed read answers no other step
    let (mut other, _) = service.begin_at("MSFT", T0);
    let step = service.advance_with(&mut other, Event::LastPriceFailed, T0, 0, 0);
    assert!(matches!(step, Step::Rejected));
}

#[test]
fn a_made_up_price_that_is_not_above_zero_is_not_delivered() {
    for (last, draw) in [(0i64, 10_000u64), (-5_000_000, 0), (4_000, 20_000), (5_050, 0)] {
        let mut service = PriceService::new_at(settings(0, 100, 5), T0);
        let (mut acq, step) = service.begin_at("AAPL", T0);
        assert!(matches!(step, Step::ReadLastPrice));
        let step = service.advance_with(
            &mut acq,
            Event::LastPrice(Some(Price { micros: last })),
            T0,
            draw,
            0,
        );
        assert!(matches!(step, Step::GiveUp), "for {} at draw {}", last, draw);
        assert_eq!(service.in_flight(), 0);
        assert_eq!(service.get_cached_price("AAPL"), None);
    }
    // from 0.005051 on every step of the walk gives a cent or more
    for draw in [0u64, 10_000, 20_000] {
        let mut service = PriceService::new_at(settings(0, 100, 5), T0);
        let (mut acq, _) = service.begin_at("AAPL", T0);
        let step = service.advance_with(
            &mut acq,
            Event::LastPrice(Some(Price { micros: 5_051 })),
            T0,
            draw,
            0,
        );
        assert_eq!(expect_delivery(step).price, Price { micros: 10_000 });
    }
}

#[test]
fn a_stale_symbol_is_fetched_once_and_its_cache_entry_renewed() {
    let mut service = PriceService::new_at(settings(3, 100, 5), T0);
    service.set_cached_price(
        "AAPL",
        PriceCacheEntry { price: price("7"), volume: 1, timestamp: T0 - 300 },
    );
    let (mut acq, step) = service.begin_at("AAPL", T0);
    expect_fetch(&step, Adapter::Global, "https://query1.finance.yahoo.com/v8/finance/chart/AAPL");
    let step = service.advance_with(&mut acq, Event::Reply(global_reply(8_000_000)), T0 + 2, 0, 0);
    let sample = expect_delivery(step);
    assert_eq!(sample.timestamp, T0 + 2);
    assert_eq!(acq.phase, Phase::Finished);
    assert_eq!(
        service.get_cached_price("AAPL"),
        Some(PriceCacheEntry { price: price("8"), volume: 1_000, timestamp: T0 + 2 })
    );
    assert_eq!(service.budget().request_count, 1);
}

#[test]
fn a_reply_out_of_range_counts_as_a_failed_attempt() {
    let mut service = PriceService::new_at(settings(2, 100, 5), T0);
    let (mut acq, _) = service.begin_at("AAPL", T0);
    let step = service.advance_with(&mut acq, Event::Reply(global_reply(0)), T0, 0, 0);
    assert!(matches!(step, Step::Wait { secs: 2 }));
    assert!(matches!(acq.last_error, Some(FetchError::OutOfRange(_))));
    assert_eq!(service.budget().request_count, 0);
    assert_eq!(service.get_cached_price("AAPL"), None);
}

#[test]
fn the_made_up_sample_is_drawn_when_no_draws_are_given() {
    let mut service = PriceService::new_at(settings(1, 100, 5), T0);
    let (mut acq, _) = service.begin("AAPL");
    let step = service.advance(&mut acq, Event::Reply(Reply::Failed));
    assert!(matches!(step, Step::ReadLastPrice));
    let step = service.advance(&mut acq, Event::LastPrice(Some(price("100.00"))));
    let sample = expect_delivery(step);
    assert_eq!(sample.source, SourceTag::Fallback);
    assert!((99_000_000..=101_000_000).contains(&sample.price.micros));
    assert!((1_000..=10_999).contains(&sample.volume));
    assert!(sample.timestamp > 1_600_000_000);
}

#[test]
fn with_no_attempt_allowed_the_last_price_is_asked_for_at_once() {
    let mut service = PriceService::new_at(settings(0, 100, 5), T0);
    let (acq, step) = service.begin_at("AAPL", T0);
    assert!(matches!(step, Step::ReadLastPrice));
    assert!(matches!(acq.last_error, Some(FetchError::NoAttempts)));
    assert!(acq.holds_permit);
}

#[test]
fn a_domestic_symbol_without_a_code_goes_to_the_last_price() {
    let mut service = PriceService::new_at(settings(3, 100, 5), T0);
    let (acq, step) = service.begin_at(".SZ", T0);
    assert!(matches!(step, Step::ReadLastPrice));
    assert!(matches!(acq.last_error, Some(FetchError::Symbol)));
}

#[test]
fn a_failing_secondary_source_ends_in_the_last_price() {
    let mut service = PriceService::new_at(settings(1, 100, 5), T0);
    let (mut acq, step) = service.begin_at("600519.SS", T0);
    expect_fetch(&step, Adapter::DomesticPrimary, "https://hq.sinajs.cn/list=sh600519");
    let step = service.advance_with(
        &mut acq,
        Event::Reply(Reply::Text { status: 503, body: Vec::new() }),
        T0,
        0,
        0,
    );
    expect_fetch(&step, Adapter::DomesticSecondary, "https://qt.gtimg.cn/q=sh600519");
    assert!(matches!(acq.last_error, Some(FetchError::HttpStatus(503))));
    let step = service.advance_with(
        &mut acq,
        Event::Reply(Reply::Text { status: 200, body: b"v_sh600519=\"1~2\";".to_vec() }),
        T0,
        0,
        0,
    );
    assert!(matches!(step, Step::ReadLastPrice));
    assert!(matches!(acq.last_error, Some(FetchError::Layout)));
}

#[test]
fn the_global_source_has_no_second_source() {
    let mut service = PriceService::new_at(settings(1, 100, 5), T0);
    let (mut acq, _) = service.begin_at("AAPL", T0);
    let step = service.advance_with(&mut acq, Event::Reply(Reply::Failed), T0, 0, 0);
    assert!(matches!(step, Step::ReadLastPrice));
}

#[test]
fn permits_bound_the_acquisitions_under_way() {
    let mut service = PriceService::new_at(settings(3, 100, 2), T0);
    let (mut first, step) = service.begin_at("AAPL", T0);
    assert!(matches!(step, Step::Fetch { .. }));
    let (_second, step) = service.begin_at("MSFT", T0);
    assert!(matches!(step, Step::Fetch { .. }));
    assert_eq!(service.in_flight(), 2);
    let (third, step) = service.begin_at("GOOG", T0);
    assert!(matches!(step, Step::AwaitPermit));
    assert!(!third.holds_permit);
    assert_eq!(service.in_flight(), 2);

    let step = service.advance_with(&mut first, Event::Reply(global_reply(1_000_000)), T0, 0, 0);
    expect_delivery(step);
    assert_eq!(service.in_flight(), 1);
    let (_, step) = service.begin_at("GOOG", T0);
    assert!(matches!(step, Step::Fetch { .. }));
}

#[test]
fn with_no_permits_nothing_is_ever_fetched() {
    let mut service = PriceService::new_at(settings(3, 100, 0), T0);
    let (_, step) = service.begin_at("AAPL", T0);
    assert!(matches!(step, Step::AwaitPermit));
}

#[test]
fn an_event_that_does_not_answer_the_step_ends_the_acquisition() {
    let mut service = PriceService::new_at(settings(3, 100, 5), T0);
    let (mut acq, _) = service.begin_at("AAPL", T0);
    assert_eq!(service.in_flight(), 1);
    let step = service.advance_with(&mut acq, Event::Woke, T0, 0, 0);
    assert!(matches!(step, Step::Rejected));
    assert_eq!(acq.phase, Phase::Finished);
    assert_eq!(service.in_flight(), 0);
    let step = service.advance_with(&mut acq, Event::Reply(global_reply(1)), T0, 0, 0);
    assert!(matches!(step, Step::Rejected));
    assert_eq!(service.in_flight(), 0);
}

#[test]
fn a_tick_lists_each_watched_symbol_once_and_rolls_the_window() {
    let mut service = PriceService::new_at(settings(3, 100, 5), T0);
    let mut book = AlertBook::new();
    book.create_alert(&request("AAPL", AlertCondition::Above, "150"), T0);
    book.create_alert(&request("000001.SZ", AlertCondition::Below, "10"), T0);
    let third = book.create_alert(&request("AAPL", AlertCondition::Below, "100"), T0);
    let cancelled = book.create_alert(&request("MSFT", AlertCondition::Below, "100"), T0);
    assert!(book.update_alert_status(cancelled.id, AlertStatus::Cancelled, T0));
    assert!(book.mark_alert_triggered(third.id, T0));

    let symbols = service.start_tick_at(&book, T0 + 4_000);
    assert_eq!(symbols, vec!["AAPL".to_string(), "000001.SZ".to_string()]);
    assert_eq!(service.budget().window_start, T0 + 4_000);
}

#[test]
fn the_service_keeps_its_settings() {
    let service = PriceService::new(settings(4, 9, 2));
    assert_eq!(service.config(), settings(4, 9, 2));
    assert_eq!(service.budget().request_count, 0);
    assert_eq!(service.budget().max_requests_per_hour, 9);
    assert_eq!(service.in_flight(), 0);
    assert_eq!(service.get_cached_price("AAPL"), None);
}

#[test]
fn the_cache_can_be_written_by_hand() {
    let mut service = PriceService::new_at(settings(3, 100, 5), T0);
    let entry = PriceCacheEntry { price: price("1.5"), volume: 3, timestamp: T0 };
    service.set_cached_price("AAPL", entry);
    assert_eq!(service.get_cached_price("AAPL"), Some(entry));
    let (_, step) = service.begin_at("AAPL", T0 + 10);
    assert!(matches!(step, Step::Skip));
}
