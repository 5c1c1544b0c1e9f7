//! The price history: one row per symbol and calendar day.
//!
//! A sample is recorded under its symbol and the UTC day of its timestamp. The
//! service knows one price per fetch, so the row's open, high, low and close
//! are all that price. A later sample of the same day takes the place of the
//! earlier one.

use vstd::prelude::*;
use vstd::string::*;
use crate::decimal::Price;
use crate::models::PriceSample;
use crate::text::str_eq;

verus! {

/// Seconds in a day.
pub const SECS_PER_DAY: i64 = 86_400;

/// The UTC day on which `timestamp` falls, counted from the Unix epoch.
pub open spec fn day_of(timestamp: i64) -> int {
    timestamp as int / 86_400
}

/// One stored day of one symbol.
#[derive(Debug)]
pub struct PriceHistoryRow {
    pub symbol: String,
    /// The UTC day, counted from the Unix epoch.
    pub date: i64,
    pub open_price: Price,
    pub high_price: Price,
    pub low_price: Price,
    pub close_price: Price,
    pub volume: i64,
    /// Seconds since the Unix epoch at which the sample was taken.
    pub created_at: i64,
}

impl Clone for PriceHistoryRow {
    fn clone(&self) -> (r: Self)
        ensures
            r == *self,
    {
        PriceHistoryRow {
            symbol: self.symbol.clone(),
            date: self.date,
            open_price: self.open_price,
            high_price: self.high_price,
            low_price: self.low_price,
            close_price: self.close_price,
            volume: self.volume,
            created_at: self.created_at,
        }
    }
}

/// Whether `row` is the row that records `sample`: under the sample's symbol
/// and day, with all four prices the sample's price.
pub open spec fn records(row: PriceHistoryRow, sample: PriceSample) -> bool {
    &&& row.symbol@ == sample.symbol@
    &&& row.date == day_of(sample.timestamp)
    &&& row.open_price == sample.price
    &&& row.high_price == sample.price
    &&& row.low_price == sample.price
    &&& row.close_price == sample.price
    &&& row.volume == sample.volume
    &&& row.created_at == sample.timestamp
}

/// The UTC day on which `timestamp` falls, counted from the Unix epoch.
pub fn utc_day(timestamp: i64) -> (day: i64)
    ensures
        day == day_of(timestamp),
{
    if timestamp >= 0 {
        timestamp / SECS_PER_DAY
    } else {
        let back: i128 = -(timestamp as i128);
        let days: i128 = (back + 86_399) / 86_400;
        (-days) as i64
    }
}

/// The row that records `sample`.
pub fn history_row(sample: &PriceSample) -> (row: PriceHistoryRow)
    ensures
        records(row, *sample),
{
    PriceHistoryRow {
        symbol: sample.symbol.clone(),
        date: utc_day(sample.timestamp),
        open_price: sample.price,
        high_price: sample.price,
        low_price: sample.price,
        close_price: sample.price,
        volume: sample.volume,
        created_at: sample.timestamp,
    }
}

/// The stored rows, at most one for a symbol and a day.
#[derive(Debug)]
pub struct PriceHistory {
    rows: Vec<PriceHistoryRow>,
}

spec fn holds(rows: Seq<PriceHistoryRow>, symbol: Seq<char>, date: i64) -> bool {
    exists|i: int|
        0 <= i < rows.len() && (#[trigger] rows[i]).symbol@ == symbol && rows[i].date == date
}

spec fn slot_of(rows: Seq<PriceHistoryRow>, symbol: Seq<char>, date: i64) -> int {
    choose|i: int|
        0 <= i < rows.len() && (#[trigger] rows[i]).symbol@ == symbol && rows[i].date == date
}

spec fn distinct(rows: Seq<PriceHistoryRow>) -> bool {
    forall|i: int, j: int|
        0 <= i < j < rows.len() ==> !((#[trigger] rows[i]).symbol@ == (#[trigger] rows[j]).symbol@
            && rows[i].date == rows[j].date)
}

impl View for PriceHistory {
    type V = Map<(Seq<char>, i64), PriceHistoryRow>;

    /// The rows by symbol and day.
    closed spec fn view(&self) -> Map<(Seq<char>, i64), PriceHistoryRow> {
        Map::new(
            |key: (Seq<char>, i64)| holds(self.rows@, key.0, key.1),
            |key: (Seq<char>, i64)| self.rows@[slot_of(self.rows@, key.0, key.1)],
        )
    }
}

/// Whether `date` is the latest day for which `history` has a row of `symbol`.
pub open spec fn is_latest_day(
    history: Map<(Seq<char>, i64), PriceHistoryRow>,
    symbol: Seq<char>,
    date: i64,
) -> bool {
    &&& history.contains_key((symbol, date))
    &&& forall|other: i64| #[trigger] history.contains_key((symbol, other)) ==> other <= date
}

/// Whether `history` has a row of `symbol`.
pub open spec fn has_rows(history: Map<(Seq<char>, i64), PriceHistoryRow>, symbol: Seq<char>) -> bool {
    exists|date: i64| #[trigger] history.contains_key((symbol, date))
}

impl PriceHistory {
    /// No symbol has two rows for one day.
    pub closed spec fn well_formed(&self) -> bool {
        distinct(self.rows@)
    }

    /// A history without rows.
    pub fn new() -> (history: PriceHistory)
        ensures
            history.well_formed(),
            history@ == Map::<(Seq<char>, i64), PriceHistoryRow>::empty(),
    {
        let history = PriceHistory { rows: Vec::new() };
        assert(history@ =~= Map::<(Seq<char>, i64), PriceHistoryRow>::empty());
        history
    }

    /// Where the row of `symbol` and `date` is stored, if it is.
    fn position(&self, symbol: &str, date: i64) -> (r: Option<usize>)
        ensures
            match r {
                Some(i) => i < self.rows@.len() && self.rows@[i as int].symbol@ == symbol@
                    && self.rows@[i as int].date == date,
                None => !holds(self.rows@, symbol@, date),
            },
    {
        let mut i: usize = 0;
        while i < self.rows.len()
            invariant
                i <= self.rows@.len(),
                forall|j: int|
                    0 <= j < i ==> !((#[trigger] self.rows@[j]).symbol@ == symbol@ && self.rows@[j].date
                        == date),
            decreases self.rows@.len() - i,
        {
            if self.rows[i].date == date && str_eq(self.rows[i].symbol.as_str(), symbol) {
                return Some(i);
            }
            i += 1;
        }
        None
    }

    /// Stores `row` under its symbol and day, in place of the row that was
    /// stored there before, if any.
    pub fn upsert(&mut self, row: PriceHistoryRow)
        requires
            old(self).well_formed(),
        ensures
            final(self).well_formed(),
            final(self)@ == old(self)@.insert((row.symbol@, row.date), row),
    {
        let ghost before = self.rows@;
        let ghost symbol = row.symbol@;
        let ghost date = row.date;
        let i: usize = match self.position(row.symbol.as_str(), row.date) {
            Some(i) => i,
            None => self.rows.len(),
        };
        if i < self.rows.len() {
            self.rows[i] = row;
        } else {
            self.rows.push(row);
        }
        let ghost after = self.rows@;
        proof {
            assert(after[i as int] == row);
            assert(forall|j: int| 0 <= j < before.len() && j != i ==> after[j] == before[j]);
            assert(distinct(after));
            assert forall|key: (Seq<char>, i64)|
                holds(after, key.0, key.1) == (key == (symbol, date) || holds(
                    before,
                    key.0,
                    key.1,
                )) by {
                if holds(before, key.0, key.1) {
                    let j = slot_of(before, key.0, key.1);
                    assert(after[j].symbol@ == key.0 && after[j].date == key.1);
                }
                if holds(after, key.0, key.1) && key != (symbol, date) {
                    let j = slot_of(after, key.0, key.1);
                    assert(before[j].symbol@ == key.0 && before[j].date == key.1);
                }
                if key == (symbol, date) {
                    assert(after[i as int].symbol@ == key.0 && after[i as int].date == key.1);
                }
            }
            assert forall|key: (Seq<char>, i64)| holds(after, key.0, key.1) implies after[slot_of(
                after,
                key.0,
                key.1,
            )] == (if key == (symbol, date) {
                row
            } else {
                before[slot_of(before, key.0, key.1)]
            }) by {
                let j = slot_of(after, key.0, key.1);
                if key == (symbol, date) {
                    assert(j == i);
                } else {
                    let k = slot_of(before, key.0, key.1);
                    assert(before[j].symbol@ == key.0 && before[j].date == key.1);
                    assert(j == k);
                }
            }
            assert(self@ =~= old(self)@.insert((symbol, date), row));
        }
    }

    /// Stores the row that records `sample`.
    pub fn save_price(&mut self, sample: &PriceSample)
        requires
            old(self).well_formed(),
        ensures
            final(self).well_formed(),
            exists|row: PriceHistoryRow|
                records(row, *sample) && final(self)@ == old(self)@.insert(
                    (sample.symbol@, row.date),
                    row,
                ),
    {
        let row = history_row(sample);
        self.upsert(row);
    }

    /// The close of the latest day stored for `symbol`, if any day is.
    pub fn last_price(&self, symbol: &str) -> (r: Option<Price>)
        requires
            self.well_formed(),
        ensures
            match r {
                Some(price) => exists|date: i64|
                    is_latest_day(self@, symbol@, date) && price == (#[trigger] self@[(
                        symbol@,
                        date,
                    )]).close_price,
                None => !has_rows(self@, symbol@),
            },
    {
        let mut best: Option<usize> = None;
        let mut i: usize = 0;
        while i < self.rows.len()
            invariant
                i <= self.rows@.len(),
                match best {
                    Some(b) => b < i && self.rows@[b as int].symbol@ == symbol@ && forall|j: int|
                        0 <= j < i && (#[trigger] self.rows@[j]).symbol@ == symbol@
                            ==> self.rows@[j].date <= self.rows@[b as int].date,
                    None => forall|j: int| 0 <= j < i ==> (#[trigger] self.rows@[j]).symbol@ != symbol@,
                },
            decreases self.rows@.len() - i,
        {
            if str_eq(self.rows[i].symbol.as_str(), symbol) {
                let better = match best {
                    Some(b) => self.rows[i].date > self.rows[b].date,
                    None => true,
                };
                if better {
                    best = Some(i);
                }
            }
            i += 1;
        }
        match best {
            Some(b) => {
                let ghost date = self.rows@[b as int].date;
                proof {
                    assert(holds(self.rows@, symbol@, date));
                    assert(slot_of(self.rows@, symbol@, date) == b);
                    assert forall|other: i64| #[trigger]
                        self@.contains_key((symbol@, other)) implies other <= date by {
                        let j = slot_of(self.rows@, symbol@, other);
                        assert(self.rows@[j].symbol@ == symbol@);
                    }
                    assert(is_latest_day(self@, symbol@, date));
                    assert(self@[(symbol@, date)] == self.rows@[b as int]);
                }
                Some(self.rows[b].close_price)
            },
            None => {
                proof {
                    assert forall|date: i64| !(#[trigger] self@.contains_key((symbol@, date))) by {
                        if holds(self.rows@, symbol@, date) {
                            let j = slot_of(self.rows@, symbol@, date);
                            assert(self.rows@[j].symbol@ == symbol@);
                        }
                    }
                }
                None
            },
        }
    }
}

} // verus!
