use trade_alert::routing::{
    convert_to_sina_format, convert_to_tencent_format, detect_route, first_adapter,
    is_china_stock, Adapter, Route, DOMESTIC_TIMEOUT_SECS, USER_AGENT,
};

#[test]
fn domestic_symbols_end_in_sz_or_ss() {
    assert!(is_china_stock("000001.SZ"));
    assert!(is_china_stock("600519.SS"));
    assert!(is_china_stock(".SZ"));
    assert!(!is_china_stock("600519.SH"));
    assert!(!is_china_stock("AAPL"));
    assert!(!is_china_stock("000001.sz"));
    assert!(!is_china_stock("000001.SZ "));
    assert!(!is_china_stock(""));
    assert!(!is_china_stock("SZ"));
}

#[test]
fn the_route_follows_the_suffix() {
    assert_eq!(detect_route("000001.SZ"), Route::Domestic);
    assert_eq!(detect_route("600036.SS"), Route::Domestic);
    assert_eq!(detect_route("AAPL"), Route::Global);
    assert_eq!(detect_route("BTC-USD"), Route::Global);
    assert_eq!(first_adapter(Route::Domestic), Adapter::DomesticPrimary);
    assert_eq!(first_adapter(Route::Global), Adapter::Global);
}

#[test]
fn exchange_codes_take_prefix_and_six_bytes() {
    assert_eq!(convert_to_sina_format("000001.SZ").as_deref(), Some("sz000001"));
    assert_eq!(convert_to_sina_format("600519.SS").as_deref(), Some("sh600519"));
    assert_eq!(convert_to_tencent_format("000002.SZ").as_deref(), Some("sz000002"));
    assert_eq!(convert_to_tencent_format("600036.SS").as_deref(), Some("sh600036"));
    assert_eq!(convert_to_sina_format("0001.SZ").as_deref(), Some("sz0001.S"));
    assert_eq!(convert_to_sina_format("12345678.SS").as_deref(), Some("sh123456"));
}

#[test]
fn other_symbols_are_their_own_code() {
    assert_eq!(convert_to_sina_format("AAPL").as_deref(), Some("AAPL"));
    assert_eq!(convert_to_tencent_format("BTC-USD").as_deref(), Some("BTC-USD"));
    assert_eq!(convert_to_sina_format("").as_deref(), Some(""));
}

#[test]
fn a_domestic_symbol_that_is_too_short_has_no_code() {
    assert_eq!(convert_to_sina_format(".SZ"), None);
    assert_eq!(convert_to_sina_format("01.SS"), None);
    assert_eq!(convert_to_tencent_format("1.SZ"), None);
}

#[test]
fn a_domestic_symbol_whose_sixth_byte_cuts_a_character_has_no_code() {
    // four bytes of digits, then a three-byte character: byte 6 is inside it
    assert_eq!(convert_to_sina_format("0000股.SZ"), None);
    // two three-byte characters end exactly at byte 6
    assert_eq!(convert_to_sina_format("股票.SZ").as_deref(), Some("sz股票"));
}

#[test]
fn addresses_are_made_per_source() {
    assert_eq!(
        Adapter::Global.url_for("AAPL").as_deref(),
        Some("https://query1.finance.yahoo.com/v8/finance/chart/AAPL")
    );
    assert_eq!(
        Adapter::DomesticPrimary.url_for("000001.SZ").as_deref(),
        Some("https://hq.sinajs.cn/list=sz000001")
    );
    assert_eq!(
        Adapter::DomesticSecondary.url_for("600519.SS").as_deref(),
        Some("https://qt.gtimg.cn/q=sh600519")
    );
    assert_eq!(Adapter::DomesticPrimary.url_for(".SZ"), None);
    assert_eq!(Adapter::DomesticSecondary.url_for(".SS"), None);
}

#[test]
fn request_settings_are_per_source() {
    assert_eq!(Adapter::Global.referer(), None);
    assert_eq!(Adapter::DomesticPrimary.referer(), Some("https://finance.sina.com.cn"));
    assert_eq!(Adapter::DomesticSecondary.referer(), Some("https://stockapp.finance.qq.com"));
    assert_eq!(Adapter::Global.timeout_secs(), None);
    assert_eq!(Adapter::DomesticPrimary.timeout_secs(), Some(5));
    assert_eq!(Adapter::DomesticSecondary.timeout_secs(), Some(DOMESTIC_TIMEOUT_SECS));
    assert!(USER_AGENT.starts_with("Mozilla/5.0"));
}
