//! The fallback generator: a made-up sample for a symbol that no source quotes.
//!
//! When every attempt to fetch a price has failed, the pipeline still owes the
//! alert evaluation a sample. It takes the last stored price of the symbol, or
//! 100.00 where none is stored, moves it by a random step of at most one
//! percent either way, rounds to cents, and tags the result as a fallback.
//!
//! The made-up volume is never below 1000. The made-up price is above zero
//! exactly where the moved price is half a cent or more, which is so for every
//! step of the walk once the price it starts from is 0.005051 or more. Below
//! that the rounding to cents gives 0.00, and a price that is not above zero to
//! start from gives one that is not above zero.

use vstd::prelude::*;
use vstd::arithmetic::div_mod::lemma_div_is_ordered;
use vstd::string::*;
use crate::decimal::Price;
use crate::models::{PriceSample, SourceTag};

verus! {

/// The price to start from where none is stored: 100.00.
pub const DEFAULT_LAST_MICROS: i64 = 100_000_000;

/// The number of steps the walk knows; step `k` moves the price by
/// `(k - 10000)` millionths of itself.
pub const WALK_STEPS: u64 = 20_001;

/// The smallest made-up volume.
pub const VOLUME_FLOOR: u64 = 1_000;

/// The number of made-up volumes.
pub const VOLUME_SPAN: u64 = 10_000;

/// `n / d`, rounded to the nearest whole number, halves away from zero.
pub open spec fn round_half_away(n: int, d: int) -> int {
    if n >= 0 {
        (2 * n + d) / (2 * d)
    } else {
        -((2 * (-n) + d) / (2 * d))
    }
}

/// The price `last`, in millionths, moved by step `step` of the walk and
/// rounded to cents: `last * (0.99 + step / 1000000)`.
pub open spec fn walk_micros(last: int, step: int) -> int {
    round_half_away(last * (990_000 + step), 10_000_000_000) * 10_000
}

/// `v`, or the bound of `i64` that it passes.
pub open spec fn clamp_i64(v: int) -> i64 {
    if v < i64::MIN {
        i64::MIN
    } else if v > i64::MAX {
        i64::MAX
    } else {
        v as i64
    }
}

/// The price to start from: the stored one, or 100.00.
pub open spec fn starting_price(last: Option<Price>) -> Price {
    match last {
        Some(p) => p,
        None => Price { micros: DEFAULT_LAST_MICROS },
    }
}

/// The made-up price for the random draw `draw`.
pub open spec fn synthetic_price(last: Option<Price>, draw: u64) -> Price {
    Price { micros: clamp_i64(walk_micros(starting_price(last)@, (draw % WALK_STEPS) as int)) }
}

/// The made-up volume for the random draw `draw`: from 1000 to 10999.
pub open spec fn synthetic_volume(draw: u64) -> i64 {
    (draw % VOLUME_SPAN + VOLUME_FLOOR) as i64
}

/// The least price, in millionths, from which every step of the walk gives a
/// made-up price above zero.
pub const LEAST_POSITIVE_START_MICROS: i64 = 5_051;

/// Whether the price that the draw `draw` gives before rounding is half a cent
/// or more, so that rounding to cents leaves it above zero.
pub open spec fn rounds_above_zero(last: Option<Price>, draw: u64) -> bool {
    starting_price(last)@ * (990_000 + draw % WALK_STEPS) >= 5_000_000_000
}

/// Whether `sample` is the fallback sample for `symbol` at `now` that the
/// draws `price_draw` and `volume_draw` give.
pub open spec fn is_synthetic(
    sample: PriceSample,
    symbol: Seq<char>,
    last: Option<Price>,
    price_draw: u64,
    volume_draw: u64,
    now: i64,
) -> bool {
    &&& sample.symbol@ == symbol
    &&& sample.price == synthetic_price(last, price_draw)
    &&& sample.volume == synthetic_volume(volume_draw)
    &&& sample.timestamp == now
    &&& sample.source == SourceTag::Fallback
    &&& sample.name matches Some(name)
    &&& name@ == symbol + " Corporation"@
}

/// Draws a number with `rand::random`.
///
/// Trusted, and nothing is claimed of the number drawn.
#[verifier::external_body]
pub(crate) fn random_u64() -> u64 {
    rand::random::<u64>()
}

/// `n / d` rounded to the nearest whole number, halves away from zero.
fn round_div(n: i128, d: i128) -> (q: i128)
    requires
        0 < d <= 0x1_0000_0000_0000,
        -0x1_0000_0000_0000_0000_0000_0000 <= n <= 0x1_0000_0000_0000_0000_0000_0000,
    ensures
        q == round_half_away(n as int, d as int),
{
    if n >= 0 {
        (2 * n + d) / (2 * d)
    } else {
        -((2 * (-n) + d) / (2 * d))
    }
}

/// The fallback sample for `symbol` at `now`, from the last stored price and
/// two random draws.
pub fn synthesize(
    symbol: &str,
    last: Option<Price>,
    price_draw: u64,
    volume_draw: u64,
    now: i64,
) -> (sample: PriceSample)
    ensures
        is_synthetic(sample, symbol@, last, price_draw, volume_draw, now),
        1_000 <= sample.volume <= 10_999,
        sample.price@ > 0 <==> rounds_above_zero(last, price_draw),
        sample.well_formed() <==> rounds_above_zero(last, price_draw),
        starting_price(last)@ >= LEAST_POSITIVE_START_MICROS ==> sample.well_formed(),
{
    proof {
        law_fallback_is_positive_from_half_a_cent(last, price_draw);
    }
    let start: i64 = match last {
        Some(p) => p.micros,
        None => DEFAULT_LAST_MICROS,
    };
    let step: u64 = price_draw % WALK_STEPS;
    let factor: i128 = 990_000 + step as i128;
    assert(-0x8000_0000_0000_0000 * 1_010_000 <= start * factor <= 0x8000_0000_0000_0000
        * 1_010_000) by (nonlinear_arith)
        requires
            -0x8000_0000_0000_0000 <= start < 0x8000_0000_0000_0000,
            990_000 <= factor <= 1_010_000,
    ;
    let scaled: i128 = (start as i128) * factor;
    let cents: i128 = round_div(scaled, 10_000_000_000);
    assert(-0x1_0000_0000_0000_0000 <= cents <= 0x1_0000_0000_0000_0000);
    let moved: i128 = cents * 10_000;
    let micros: i64 = if moved < i64::MIN as i128 {
        i64::MIN
    } else if moved > i64::MAX as i128 {
        i64::MAX
    } else {
        moved as i64
    };
    let volume: i64 = (volume_draw % VOLUME_SPAN + VOLUME_FLOOR) as i64;
    PriceSample {
        symbol: String::from_str(symbol),
        price: Price { micros },
        volume,
        timestamp: now,
        source: SourceTag::Fallback,
        name: Some(String::from_str(symbol).concat(" Corporation")),
    }
}

/// The fallback sample for `symbol` at `now`, from the last stored price and
/// two numbers that it draws at random.
pub fn fetch_fallback_price(symbol: &str, last: Option<Price>, now: i64) -> (sample: PriceSample)
    ensures
        exists|price_draw: u64, volume_draw: u64|
            is_synthetic(sample, symbol@, last, price_draw, volume_draw, now),
        1_000 <= sample.volume <= 10_999,
        starting_price(last)@ >= LEAST_POSITIVE_START_MICROS ==> sample.well_formed(),
{
    let price_draw = random_u64();
    let volume_draw = random_u64();
    synthesize(symbol, last, price_draw, volume_draw, now)
}

/// A made-up price is above zero exactly where the moved price is half a cent
/// or more before rounding; that is so for every draw once the price to start
/// from is 0.005051 or more. A price to start from that is zero or above never
/// gives a made-up price below zero.
pub proof fn law_fallback_is_positive_from_half_a_cent(last: Option<Price>, draw: u64)
    ensures
        synthetic_price(last, draw)@ > 0 <==> rounds_above_zero(last, draw),
        starting_price(last)@ >= LEAST_POSITIVE_START_MICROS ==> rounds_above_zero(last, draw),
        starting_price(last)@ >= 0 ==> synthetic_price(last, draw)@ >= 0,
        synthetic_volume(draw) >= 1_000,
{
    let start = starting_price(last)@;
    let factor = 990_000 + draw % WALK_STEPS;
    let moved = start * factor;
    assert(990_000 <= factor <= 1_010_000);
    if start >= LEAST_POSITIVE_START_MICROS {
        assert(moved >= 5_051 * 990_000) by (nonlinear_arith)
            requires
                moved == start * factor,
                start >= 5_051,
                factor >= 990_000,
        ;
    }
    if start >= 0 {
        assert(moved >= 0) by (nonlinear_arith)
            requires
                moved == start * factor,
                start >= 0,
                factor >= 990_000,
        ;
    }
    let cents = round_half_away(moved, 10_000_000_000);
    if moved >= 0 {
        lemma_div_is_ordered(0, 2 * moved + 10_000_000_000, 20_000_000_000);
        if moved >= 5_000_000_000 {
            lemma_div_is_ordered(20_000_000_000, 2 * moved + 10_000_000_000, 20_000_000_000);
        } else {
            lemma_div_is_ordered(2 * moved + 10_000_000_000, 19_999_999_999, 20_000_000_000);
        }
    } else {
        lemma_div_is_ordered(0, 2 * (-moved) + 10_000_000_000, 20_000_000_000);
    }
    assert(cents > 0 <==> moved >= 5_000_000_000);
    assert(start >= 0 ==> cents >= 0);
}

/// Rounding keeps the order of what it rounds.
proof fn lemma_round_monotone(a: int, b: int)
    requires
        0 <= a <= b,
    ensures
        round_half_away(a, 10_000_000_000) <= round_half_away(b, 10_000_000_000),
{
    lemma_div_is_ordered(2 * a + 10_000_000_000, 2 * b + 10_000_000_000, 20_000_000_000);
}

/// A made-up price stays within one percent of the price it starts from: it is
/// no lower than 99% of it and no higher than 101% of it, each rounded to
/// cents. It is a whole number of cents.
pub proof fn law_fallback_within_one_percent(last: Option<Price>, draw: u64)
    requires
        0 <= starting_price(last)@ <= 9_000_000_000_000_000_000,
    ensures
        walk_micros(starting_price(last)@, 0) <= synthetic_price(last, draw)@ <= walk_micros(
            starting_price(last)@,
            20_000,
        ),
        synthetic_price(last, draw)@ % 10_000 == 0,
{
    let start = starting_price(last)@;
    let step = (draw % WALK_STEPS) as int;
    assert(0 <= start * 990_000 <= start * (990_000 + step) <= start * 1_010_000
        <= 9_090_000_000_000_000_000_000_000) by (nonlinear_arith)
        requires
            0 <= start <= 9_000_000_000_000_000_000,
            0 <= step <= 20_000,
    ;
    lemma_round_monotone(start * 990_000, start * (990_000 + step));
    lemma_round_monotone(start * (990_000 + step), start * 1_010_000);
    lemma_round_monotone(0, start * 990_000);
    lemma_round_monotone(start * 1_010_000, 9_090_000_000_000_000_000_000_000);
}

/// Started from 100.00, a made-up price lies between 99.00 and 101.00.
pub proof fn law_fallback_from_default(draw: u64)
    ensures
        99_000_000 <= synthetic_price(None, draw)@ <= 101_000_000,
        99_000_000 <= synthetic_price(Some(Price { micros: 100_000_000 }), draw)@ <= 101_000_000,
{
    law_fallback_within_one_percent(None, draw);
    law_fallback_within_one_percent(Some(Price { micros: 100_000_000 }), draw);
}

} // verus!
