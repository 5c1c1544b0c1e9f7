use trade_alert::market::{
    calculate_next_market_event, detect_market, detect_market_info, get_market_status,
    is_cn_stock, market_status_at, next_market_event_at, wall_clock, Market, WallClock,
};

// 2023-11-13 00:00:00 UTC, a Monday
const MONDAY: i64 = 1_699_833_600;

fn at(day: i64, local_hour: i64, minute: i64) -> i64 {
    MONDAY + day * 86_400 + (local_hour - 8) * 3_600 + minute * 60
}

#[test]
fn markets_have_their_names() {
    assert_eq!(Market::US.to_str(), "us");
    assert_eq!(Market::CN.to_str(), "cn");
    assert_eq!(Market::Crypto.to_str(), "crypto");
    assert_eq!(Market::US.display_name(), "美股");
    assert_eq!(Market::CN.display_name(), "A股");
    assert_eq!(Market::Crypto.display_name(), "加密货币");
    assert_eq!(Market::US.currency_symbol(), "$");
    assert_eq!(Market::CN.currency_symbol(), "¥");
    assert_eq!(Market::Crypto.currency_symbol(), "");
    assert_eq!(Market::US.flag_emoji(), "🇺🇸");
    assert_eq!(Market::CN.flag_emoji(), "🇨🇳");
    assert_eq!(Market::Crypto.flag_emoji(), "₿");
}

#[test]
fn markets_are_found_by_name_in_any_case() {
    assert_eq!(Market::from_str("us"), Ok(Market::US));
    assert_eq!(Market::from_str("US"), Ok(Market::US));
    assert_eq!(Market::from_str("Cn"), Ok(Market::CN));
    assert_eq!(Market::from_str("CRYPTO"), Ok(Market::Crypto));
    assert_eq!(Market::from_str("crypto"), Ok(Market::Crypto));
    assert_eq!(Market::from_str(""), Err(()));
    assert_eq!(Market::from_str("usa"), Err(()));
    assert_eq!(Market::from_str(" us"), Err(()));
    assert_eq!(Market::from_str("u5"), Err(()));
    for market in [Market::US, Market::CN, Market::Crypto] {
        assert_eq!(Market::from_str(market.to_str()), Ok(market));
    }
}

#[test]
fn the_shape_of_a_symbol_tells_its_market() {
    assert_eq!(detect_market("000001.SZ"), Market::CN);
    assert_eq!(detect_market("600519.SS"), Market::CN);
    assert_eq!(detect_market("600519.SH"), Market::CN);
    assert_eq!(detect_market("BTC.SZ"), Market::CN);
    assert_eq!(detect_market("BTC-USD"), Market::Crypto);
    assert_eq!(detect_market("ETH"), Market::Crypto);
    assert_eq!(detect_market("XRP-USDT"), Market::Crypto);
    assert_eq!(detect_market("UNITY"), Market::Crypto);
    assert_eq!(detect_market("DAIMLER"), Market::Crypto);
    assert_eq!(detect_market("AAPL"), Market::US);
    assert_eq!(detect_market("btc"), Market::US);
    assert_eq!(detect_market(""), Market::US);
}

#[test]
fn the_market_comes_with_its_currency() {
    let triple = |s: &str| {
        let (market, currency, sign) = detect_market_info(s);
        (market, currency, sign)
    };
    assert_eq!(triple("000001.SZ"), ("cn".to_string(), "CNY".to_string(), "¥".to_string()));
    assert_eq!(triple("BTC-USD"), ("crypto".to_string(), "USD".to_string(), "$".to_string()));
    assert_eq!(triple("BTC-USDT"), ("crypto".to_string(), "USD".to_string(), "$".to_string()));
    assert_eq!(triple("SOL"), ("crypto".to_string(), "USD".to_string(), "$".to_string()));
    assert_eq!(triple("AAPL"), ("us".to_string(), "USD".to_string(), "$".to_string()));
}

#[test]
fn the_strategy_pages_know_domestic_symbols_by_their_own_rule() {
    assert!(is_cn_stock("000001.SZ"));
    assert!(is_cn_stock("600519.SH"));
    assert!(is_cn_stock("x.SZy"));
    assert!(is_cn_stock("000725"));
    assert!(!is_cn_stock("600519.SS"));
    assert!(!is_cn_stock("00072"));
    assert!(!is_cn_stock("0007255"));
    assert!(!is_cn_stock("00072a"));
    assert!(!is_cn_stock("AAPL"));
    assert!(!is_cn_stock("０００７２５"));
    assert!(!is_cn_stock(""));
}

#[test]
fn the_wall_clock_is_eight_hours_ahead() {
    assert_eq!(wall_clock(MONDAY), WallClock { weekday: 0, hour: 8, minute: 0 });
    assert_eq!(wall_clock(MONDAY + 16 * 3_600 - 1), WallClock { weekday: 0, hour: 23, minute: 59 });
    assert_eq!(wall_clock(MONDAY + 16 * 3_600), WallClock { weekday: 1, hour: 0, minute: 0 });
    assert_eq!(wall_clock(at(5, 9, 30)), WallClock { weekday: 5, hour: 9, minute: 30 });
    assert_eq!(wall_clock(at(6, 23, 59)), WallClock { weekday: 6, hour: 23, minute: 59 });
    // the first day of the epoch was a Thursday
    assert_eq!(wall_clock(0), WallClock { weekday: 3, hour: 8, minute: 0 });
    assert_eq!(wall_clock(-8 * 3_600 - 1), WallClock { weekday: 2, hour: 23, minute: 59 });
    let far = wall_clock(i64::MIN);
    assert!(far.weekday < 7 && far.hour < 24 && far.minute < 60);
    let far = wall_clock(i64::MAX);
    assert!(far.weekday < 7 && far.hour < 24 && far.minute < 60);
}

#[test]
fn the_domestic_market_is_open_in_two_sessions_on_weekdays() {
    let open = "开盘中";
    let closed = "休市中";
    assert_eq!(market_status_at(Market::CN, at(0, 9, 29)), closed);
    assert_eq!(market_status_at(Market::CN, at(0, 9, 30)), open);
    assert_eq!(market_status_at(Market::CN, at(0, 10, 0)), open);
    assert_eq!(market_status_at(Market::CN, at(0, 11, 29)), open);
    assert_eq!(market_status_at(Market::CN, at(0, 11, 30)), closed);
    assert_eq!(market_status_at(Market::CN, at(0, 12, 59)), closed);
    assert_eq!(market_status_at(Market::CN, at(0, 13, 0)), open);
    assert_eq!(market_status_at(Market::CN, at(0, 14, 59)), open);
    assert_eq!(market_status_at(Market::CN, at(0, 15, 0)), open);
    assert_eq!(market_status_at(Market::CN, at(0, 15, 1)), closed);
    assert_eq!(market_status_at(Market::CN, at(4, 10, 0)), open);
    assert_eq!(market_status_at(Market::CN, at(5, 10, 0)), closed);
    assert_eq!(market_status_at(Market::CN, at(6, 10, 0)), closed);
}

#[test]
fn the_us_market_counts_as_open_by_day_on_weekdays() {
    assert_eq!(market_status_at(Market::US, at(0, 5, 59)), "休市中");
    assert_eq!(market_status_at(Market::US, at(0, 6, 0)), "开盘中");
    assert_eq!(market_status_at(Market::US, at(0, 21, 59)), "开盘中");
    assert_eq!(market_status_at(Market::US, at(0, 22, 0)), "休市中");
    assert_eq!(market_status_at(Market::US, at(5, 12, 0)), "休市中");
    assert_eq!(market_status_at(Market::US, at(6, 12, 0)), "休市中");
}

#[test]
fn crypto_trades_around_the_clock() {
    for day in 0..7 {
        assert_eq!(market_status_at(Market::Crypto, at(day, 3, 0)), "24h交易");
        assert_eq!(next_market_event_at(Market::Crypto, at(day, 3, 0)), "持续交易中");
    }
}

#[test]
fn the_next_event_follows_the_wall_clock() {
    assert_eq!(next_market_event_at(Market::CN, at(5, 10, 0)), "周一9:30开盘");
    assert_eq!(next_market_event_at(Market::CN, at(0, 8, 59)), "今日9:30开盘");
    assert_eq!(next_market_event_at(Market::CN, at(0, 9, 29)), "今日9:30开盘");
    assert_eq!(next_market_event_at(Market::CN, at(0, 9, 30)), "15:00收盘");
    assert_eq!(next_market_event_at(Market::CN, at(0, 11, 0)), "13:00开盘");
    assert_eq!(next_market_event_at(Market::CN, at(0, 12, 59)), "13:00开盘");
    assert_eq!(next_market_event_at(Market::CN, at(0, 13, 0)), "15:00收盘");
    assert_eq!(next_market_event_at(Market::CN, at(0, 15, 0)), "明日9:30开盘");
    assert_eq!(next_market_event_at(Market::US, at(6, 10, 0)), "周一22:30开盘");
    assert_eq!(next_market_event_at(Market::US, at(0, 5, 0)), "6小时后收盘");
    assert_eq!(next_market_event_at(Market::US, at(0, 22, 0)), "6小时后收盘");
    assert_eq!(next_market_event_at(Market::US, at(0, 6, 0)), "今晚22:30开盘");
    assert_eq!(next_market_event_at(Market::US, at(0, 21, 59)), "今晚22:30开盘");
}

#[test]
fn the_state_of_a_market_can_be_asked_without_a_time() {
    assert!(["开盘中", "休市中"].contains(&get_market_status(Market::US)));
    assert!(["开盘中", "休市中"].contains(&get_market_status(Market::CN)));
    assert_eq!(get_market_status(Market::Crypto), "24h交易");
    assert_eq!(calculate_next_market_event(Market::Crypto), "持续交易中");
    assert!(!calculate_next_market_event(Market::CN).is_empty());
}
