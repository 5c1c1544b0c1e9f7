//! The markets the service knows, and what a symbol's shape says of its market.

use vstd::prelude::*;
use vstd::string::*;
use vstd::utf8::encode_utf8;
use crate::clock::unix_now;
use crate::decimal::{all_digits, is_digit};
use crate::text::{contains, ends_with, has_infix, has_suffix};

verus! {

/// A market.
#[derive(Clone, Copy, Debug, PartialEq, Eq, Structural)]
pub enum Market {
    /// United States equities.
    US,
    /// Mainland China A-shares.
    CN,
    /// Crypto currencies.
    Crypto,
}

/// The lower-case form of an ASCII letter; any other byte is itself.
pub open spec fn ascii_lower(b: u8) -> u8 {
    if 0x41 <= b <= 0x5a {
        (b + 0x20) as u8
    } else {
        b
    }
}

/// Whether `s` is `word` but for the case of its ASCII letters.
pub open spec fn is_word(s: Seq<u8>, word: Seq<u8>) -> bool {
    s.len() == word.len() && forall|i: int| 0 <= i < s.len() ==> ascii_lower(#[trigger] s[i]) == word[i]
}

/// Whether `s` is the lower-case `word` but for the case of its ASCII letters.
fn matches_word(s: &[u8], word: &[u8]) -> (r: bool)
    ensures
        r == is_word(s@, word@),
{
    if s.len() != word.len() {
        return false;
    }
    let mut i: usize = 0;
    while i < s.len()
        invariant
            s@.len() == word@.len(),
            i <= s@.len(),
            forall|j: int| 0 <= j < i ==> ascii_lower(#[trigger] s@[j]) == word@[j],
        decreases s@.len() - i,
    {
        let b = s[i];
        let lower: u8 = if 0x41 <= b && b <= 0x5a {
            b + 0x20
        } else {
            b
        };
        if lower != word[i] {
            return false;
        }
        i += 1;
    }
    true
}

impl Market {
    /// The market's short name.
    pub open spec fn code(self) -> Seq<char> {
        match self {
            Market::US => "us"@,
            Market::CN => "cn"@,
            Market::Crypto => "crypto"@,
        }
    }

    /// The market whose short name `s` is, whatever the case of its letters.
    pub open spec fn named(s: Seq<u8>) -> Option<Market> {
        if is_word(s, encode_utf8("us"@)) {
            Some(Market::US)
        } else if is_word(s, encode_utf8("cn"@)) {
            Some(Market::CN)
        } else if is_word(s, encode_utf8("crypto"@)) {
            Some(Market::Crypto)
        } else {
            None
        }
    }

    /// The market whose short name `s` is, whatever the case of its letters.
    pub fn from_str(s: &str) -> (r: Result<Market, ()>)
        ensures
            match Market::named(encode_utf8(s@)) {
                Some(m) => r == Ok::<Market, ()>(m),
                None => r is Err,
            },
    {
        let bytes = s.as_bytes();
        if matches_word(bytes, "us".as_bytes()) {
            Ok(Market::US)
        } else if matches_word(bytes, "cn".as_bytes()) {
            Ok(Market::CN)
        } else if matches_word(bytes, "crypto".as_bytes()) {
            Ok(Market::Crypto)
        } else {
            Err(())
        }
    }

    /// The market's short name.
    pub fn to_str(&self) -> (s: &'static str)
        ensures
            s@ == self.code(),
    {
        match self {
            Market::US => "us",
            Market::CN => "cn",
            Market::Crypto => "crypto",
        }
    }

    /// The market's name as shown to people.
    pub fn display_name(&self) -> (s: &'static str)
        ensures
            s@ == match *self {
                Market::US => "美股"@,
                Market::CN => "A股"@,
                Market::Crypto => "加密货币"@,
            },
    {
        match self {
            Market::US => "美股",
            Market::CN => "A股",
            Market::Crypto => "加密货币",
        }
    }

    /// The sign of the currency that the market quotes in; none for crypto.
    pub fn currency_symbol(&self) -> (s: &'static str)
        ensures
            s@ == match *self {
                Market::US => "$"@,
                Market::CN => "¥"@,
                Market::Crypto => ""@,
            },
    {
        match self {
            Market::US => "$",
            Market::CN => "¥",
            Market::Crypto => "",
        }
    }

    /// The market's pictogram.
    pub fn flag_emoji(&self) -> (s: &'static str)
        ensures
            s@ == match *self {
                Market::US => "🇺🇸"@,
                Market::CN => "🇨🇳"@,
                Market::Crypto => "₿"@,
            },
    {
        match self {
            Market::US => "🇺🇸",
            Market::CN => "🇨🇳",
            Market::Crypto => "₿",
        }
    }
}

/// Seconds by which the exchanges' wall clock is ahead of UTC.
pub const EXCHANGE_OFFSET_SECS: i64 = 28_800;

/// The time of day and the day of the week on the exchanges' wall clock.
#[derive(Clone, Copy, Debug, PartialEq, Eq, Structural)]
pub struct WallClock {
    /// Days since Monday: 0 for Monday, 6 for Sunday.
    pub weekday: u8,
    pub hour: u8,
    pub minute: u8,
}

/// What the exchanges' wall clock shows at `now`, eight hours ahead of UTC.
/// The first day of the Unix epoch was a Thursday.
pub open spec fn wall_clock_at(now: i64) -> WallClock {
    let local = now + EXCHANGE_OFFSET_SECS;
    WallClock {
        weekday: ((local / 86_400 + 3) % 7) as u8,
        hour: ((local % 86_400) / 3_600) as u8,
        minute: ((local % 3_600) / 60) as u8,
    }
}

impl WallClock {
    /// Whether the day is a Saturday or a Sunday.
    pub open spec fn weekend(&self) -> bool {
        self.weekday >= 5
    }
}

/// Whether `market` counts as open when its wall clock shows `clock`.
///
/// The US market counts as open on weekdays from 6:00 to 21:59. The domestic
/// market is open on weekdays from 9:30 to 11:29, from 13:00 to 14:59, and at
/// 15:00. Crypto trades around the clock.
pub open spec fn is_open(market: Market, clock: WallClock) -> bool {
    match market {
        Market::US => !clock.weekend() && 6 <= clock.hour < 22,
        Market::CN => !clock.weekend() && ((clock.hour == 9 && clock.minute >= 30) || clock.hour
            == 10 || (clock.hour == 11 && clock.minute < 30) || clock.hour == 13 || clock.hour == 14
            || (clock.hour == 15 && clock.minute == 0)),
        Market::Crypto => true,
    }
}

/// The words for the state of `market` when its wall clock shows `clock`.
pub open spec fn status_text(market: Market, clock: WallClock) -> Seq<char> {
    match market {
        Market::Crypto => "24h交易"@,
        _ => if is_open(market, clock) {
            "开盘中"@
        } else {
            "休市中"@
        },
    }
}

/// The words for what `market` does next when its wall clock shows `clock`.
pub open spec fn next_event_text(market: Market, clock: WallClock) -> Seq<char> {
    match market {
        Market::US => if clock.weekend() {
            "周一22:30开盘"@
        } else if !(6 <= clock.hour < 22) {
            "6小时后收盘"@
        } else {
            "今晚22:30开盘"@
        },
        Market::CN => if clock.weekend() {
            "周一9:30开盘"@
        } else if clock.hour < 9 || (clock.hour == 9 && clock.minute < 30) {
            "今日9:30开盘"@
        } else if clock.hour >= 15 {
            "明日9:30开盘"@
        } else if 11 <= clock.hour < 13 {
            "13:00开盘"@
        } else {
            "15:00收盘"@
        },
        Market::Crypto => "持续交易中"@,
    }
}

/// What the exchanges' wall clock shows at `now`.
pub fn wall_clock(now: i64) -> (clock: WallClock)
    ensures
        clock == wall_clock_at(now),
        clock.weekday < 7,
        clock.hour < 24,
        clock.minute < 60,
{
    let local: i128 = now as i128 + EXCHANGE_OFFSET_SECS as i128;
    let (days, secs): (i128, i128) = if local >= 0 {
        (local / 86_400, local % 86_400)
    } else {
        let back: i128 = -local;
        let whole: i128 = (back + 86_399) / 86_400;
        (-whole, whole * 86_400 - back)
    };
    let shifted: i128 = days + 3;
    let weekday: i128 = if shifted >= 0 {
        shifted % 7
    } else {
        let back: i128 = -shifted;
        let whole: i128 = (back + 6) / 7;
        whole * 7 - back
    };
    assert(secs == (now + EXCHANGE_OFFSET_SECS) % 86_400);
    assert(days == (now + EXCHANGE_OFFSET_SECS) / 86_400);
    assert(((now + EXCHANGE_OFFSET_SECS) % 3_600) == secs % 3_600);
    WallClock {
        weekday: weekday as u8,
        hour: (secs / 3_600) as u8,
        minute: ((secs % 3_600) / 60) as u8,
    }
}

/// The words for the state of `market` at `now`.
pub fn market_status_at(market: Market, now: i64) -> (s: &'static str)
    ensures
        s@ == status_text(market, wall_clock_at(now)),
{
    let clock = wall_clock(now);
    let weekend = clock.weekday >= 5;
    match market {
        Market::US => {
            if !weekend && 6 <= clock.hour && clock.hour < 22 {
                "开盘中"
            } else {
                "休市中"
            }
        },
        Market::CN => {
            let morning = (clock.hour == 9 && clock.minute >= 30) || clock.hour == 10 || (clock.hour
                == 11 && clock.minute < 30);
            let afternoon = clock.hour == 13 || clock.hour == 14 || (clock.hour == 15 && clock.minute
                == 0);
            if !weekend && (morning || afternoon) {
                "开盘中"
            } else {
                "休市中"
            }
        },
        Market::Crypto => "24h交易",
    }
}

/// The words for what `market` does next, seen from `now`.
pub fn next_market_event_at(market: Market, now: i64) -> (s: &'static str)
    ensures
        s@ == next_event_text(market, wall_clock_at(now)),
{
    let clock = wall_clock(now);
    let weekend = clock.weekday >= 5;
    match market {
        Market::US => {
            if weekend {
                "周一22:30开盘"
            } else if !(6 <= clock.hour && clock.hour < 22) {
                "6小时后收盘"
            } else {
                "今晚22:30开盘"
            }
        },
        Market::CN => {
            if weekend {
                "周一9:30开盘"
            } else if clock.hour < 9 || (clock.hour == 9 && clock.minute < 30) {
                "今日9:30开盘"
            } else if clock.hour >= 15 {
                "明日9:30开盘"
            } else if 11 <= clock.hour && clock.hour < 13 {
                "13:00开盘"
            } else {
                "15:00收盘"
            }
        },
        Market::Crypto => "持续交易中",
    }
}

/// The words for the state of `market` at the time the clock shows.
pub fn get_market_status(market: Market) -> (s: &'static str)
    ensures
        exists|now: i64| s@ == status_text(market, #[trigger] wall_clock_at(now)),
{
    let now = unix_now();
    market_status_at(market, now)
}

/// The words for what `market` does next, seen from the time the clock shows.
pub fn calculate_next_market_event(market: Market) -> (s: &'static str)
    ensures
        exists|now: i64| s@ == next_event_text(market, #[trigger] wall_clock_at(now)),
{
    let now = unix_now();
    next_market_event_at(market, now)
}

/// The marks by which a symbol is taken for a crypto instrument.
pub open spec fn crypto_marks() -> Seq<Seq<char>> {
    seq![
        "-USD"@,
        "-USDT"@,
        "BTC"@,
        "ETH"@,
        "USDT"@,
        "BNB"@,
        "ADA"@,
        "SOL"@,
        "DOGE"@,
        "DOT"@,
        "AVAX"@,
        "SHIB"@,
        "LTC"@,
        "LINK"@,
        "UNI"@,
        "MATIC"@,
        "TRX"@,
        "USDC"@,
        "DAI"@,
        "BUSD"@,
    ]
}

/// Whether one of the crypto marks occurs in `symbol`.
pub open spec fn has_crypto_mark(symbol: Seq<u8>) -> bool {
    exists|k: int|
        0 <= k < crypto_marks().len() && has_infix(symbol, encode_utf8(#[trigger] crypto_marks()[k]))
}

/// The market that the shape of `symbol` points to: the domestic one for the
/// suffixes `.SZ`, `.SS` and `.SH`; else crypto where a crypto mark occurs;
/// else the US market.
pub open spec fn market_of(symbol: Seq<u8>) -> Market {
    if has_suffix(symbol, encode_utf8(".SZ"@)) || has_suffix(symbol, encode_utf8(".SS"@))
        || has_suffix(symbol, encode_utf8(".SH"@)) {
        Market::CN
    } else if has_crypto_mark(symbol) {
        Market::Crypto
    } else {
        Market::US
    }
}

/// Whether one of `marks` occurs in `symbol`.
fn contains_any(symbol: &[u8], marks: &Vec<&'static str>) -> (r: bool)
    ensures
        r == exists|k: int|
            0 <= k < marks@.len() && has_infix(symbol@, encode_utf8((#[trigger] marks@[k])@)),
{
    let mut k: usize = 0;
    while k < marks.len()
        invariant
            k <= marks@.len(),
            forall|j: int|
                0 <= j < k ==> !has_infix(symbol@, encode_utf8((#[trigger] marks@[j])@)),
        decreases marks@.len() - k,
    {
        if contains(symbol, marks[k].as_bytes()) {
            return true;
        }
        k += 1;
    }
    false
}

/// The market that the shape of `symbol` points to.
pub fn detect_market(symbol: &str) -> (m: Market)
    ensures
        m == market_of(encode_utf8(symbol@)),
{
    let bytes = symbol.as_bytes();
    if ends_with(bytes, ".SZ".as_bytes()) || ends_with(bytes, ".SS".as_bytes()) || ends_with(
        bytes,
        ".SH".as_bytes(),
    ) {
        return Market::CN;
    }
    let marks: Vec<&'static str> = vec![
        "-USD",
        "-USDT",
        "BTC",
        "ETH",
        "USDT",
        "BNB",
        "ADA",
        "SOL",
        "DOGE",
        "DOT",
        "AVAX",
        "SHIB",
        "LTC",
        "LINK",
        "UNI",
        "MATIC",
        "TRX",
        "USDC",
        "DAI",
        "BUSD",
    ];
    proof {
        assert(marks@.len() == crypto_marks().len());
        assert forall|k: int| 0 <= k < marks@.len() implies (#[trigger] marks@[k])@ == crypto_marks()[k] by {}
    }
    if contains_any(bytes, &marks) {
        proof {
            let k = choose|k: int|
                0 <= k < marks@.len() && has_infix(bytes@, encode_utf8((#[trigger] marks@[k])@));
            assert(has_infix(bytes@, encode_utf8(crypto_marks()[k])));
        }
        Market::Crypto
    } else {
        proof {
            assert forall|k: int| 0 <= k < crypto_marks().len() implies !has_infix(
                bytes@,
                encode_utf8(#[trigger] crypto_marks()[k]),
            ) by {
                assert(marks@[k]@ == crypto_marks()[k]);
            }
        }
        Market::US
    }
}

/// The market, the currency and the currency sign that the shape of `symbol`
/// points to: `cn`, `CNY` and `¥` for the domestic market, and `USD` and `$`
/// with `crypto` or `us` for the other two.
pub fn detect_market_info(symbol: &str) -> (r: (String, String, String))
    ensures
        r.0@ == market_of(encode_utf8(symbol@)).code(),
        r.1@ == if market_of(encode_utf8(symbol@)) == Market::CN {
            "CNY"@
        } else {
            "USD"@
        },
        r.2@ == if market_of(encode_utf8(symbol@)) == Market::CN {
            "¥"@
        } else {
            "$"@
        },
{
    let market = detect_market(symbol);
    match market {
        Market::CN => (String::from_str("cn"), String::from_str("CNY"), String::from_str("¥")),
        Market::Crypto => (
            String::from_str("crypto"),
            String::from_str("USD"),
            String::from_str("$"),
        ),
        Market::US => (String::from_str("us"), String::from_str("USD"), String::from_str("$")),
    }
}

/// Whether `symbol` has the shape of a domestic instrument as the strategy
/// pages know it: `.SZ` or `.SH` occurs in it, or it is six digits.
pub open spec fn looks_domestic(symbol: Seq<u8>) -> bool {
    has_infix(symbol, encode_utf8(".SZ"@)) || has_infix(symbol, encode_utf8(".SH"@)) || (symbol.len()
        == 6 && all_digits(symbol))
}

/// Whether `symbol` has the shape of a domestic instrument as the strategy
/// pages know it.
pub fn is_cn_stock(symbol: &str) -> (r: bool)
    ensures
        r == looks_domestic(encode_utf8(symbol@)),
{
    let bytes = symbol.as_bytes();
    if contains(bytes, ".SZ".as_bytes()) || contains(bytes, ".SH".as_bytes()) {
        return true;
    }
    if bytes.len() != 6 {
        return false;
    }
    let mut i: usize = 0;
    while i < 6
        invariant
            bytes@ == encode_utf8(symbol@),
            !has_infix(bytes@, encode_utf8(".SZ"@)),
            !has_infix(bytes@, encode_utf8(".SH"@)),
            bytes@.len() == 6,
            i <= 6,
            forall|j: int| 0 <= j < i ==> is_digit(#[trigger] bytes@[j]),
        decreases 6 - i,
    {
        if !(0x30 <= bytes[i] && bytes[i] <= 0x39) {
            assert(!is_digit(bytes@[i as int]));
            return false;
        }
        i += 1;
    }
    true
}

} // verus!
