//! The price cache: the last sample of each symbol, kept in memory.
//!
//! Nothing is ever evicted. Whether an entry is still good is decided when it
//! is read, by its age against the time-to-live the reader brings.

use vstd::prelude::*;
use vstd::string::*;
use crate::decimal::Price;
use crate::models::PriceSample;
use crate::text::str_eq;

verus! {

/// What the cache remembers of a symbol's last sample.
#[derive(Clone, Copy, Debug, PartialEq, Eq, Structural)]
pub struct PriceCacheEntry {
    pub price: Price,
    pub volume: i64,
    /// Seconds since the Unix epoch at which the sample was taken.
    pub timestamp: i64,
}

/// Whether an entry is younger than `ttl_secs` at `now`. An entry stamped
/// later than `now` counts as young.
pub open spec fn is_fresh_at(entry: PriceCacheEntry, now: i64, ttl_secs: u64) -> bool {
    now - entry.timestamp < ttl_secs
}

/// The entry that stands for `sample`.
pub open spec fn entry_of(sample: PriceSample) -> PriceCacheEntry {
    PriceCacheEntry { price: sample.price, volume: sample.volume, timestamp: sample.timestamp }
}

struct CacheSlot {
    symbol: String,
    entry: PriceCacheEntry,
}

/// A map from symbol to its last sample.
pub struct PriceCache {
    slots: Vec<CacheSlot>,
}

spec fn holds(slots: Seq<CacheSlot>, key: Seq<char>) -> bool {
    exists|i: int| 0 <= i < slots.len() && (#[trigger] slots[i]).symbol@ == key
}

spec fn slot_of(slots: Seq<CacheSlot>, key: Seq<char>) -> int {
    choose|i: int| 0 <= i < slots.len() && (#[trigger] slots[i]).symbol@ == key
}

spec fn distinct(slots: Seq<CacheSlot>) -> bool {
    forall|i: int, j: int|
        0 <= i < j < slots.len() ==> (#[trigger] slots[i]).symbol@ != (#[trigger] slots[j]).symbol@
}

impl View for PriceCache {
    type V = Map<Seq<char>, PriceCacheEntry>;

    /// The entries by symbol.
    closed spec fn view(&self) -> Map<Seq<char>, PriceCacheEntry> {
        Map::new(
            |key: Seq<char>| holds(self.slots@, key),
            |key: Seq<char>| self.slots@[slot_of(self.slots@, key)].entry,
        )
    }
}

impl PriceCache {
    /// No symbol is kept twice.
    pub closed spec fn well_formed(&self) -> bool {
        distinct(self.slots@)
    }

    /// A cache without entries.
    pub fn new() -> (cache: PriceCache)
        ensures
            cache.well_formed(),
            cache@ == Map::<Seq<char>, PriceCacheEntry>::empty(),
    {
        let cache = PriceCache { slots: Vec::new() };
        assert(cache@ =~= Map::<Seq<char>, PriceCacheEntry>::empty());
        cache
    }

    /// Where `symbol` is kept, if it is.
    fn position(&self, symbol: &str) -> (r: Option<usize>)
        ensures
            match r {
                Some(i) => i < self.slots@.len() && self.slots@[i as int].symbol@ == symbol@,
                None => !holds(self.slots@, symbol@),
            },
    {
        let mut i: usize = 0;
        while i < self.slots.len()
            invariant
                i <= self.slots@.len(),
                forall|j: int| 0 <= j < i ==> (#[trigger] self.slots@[j]).symbol@ != symbol@,
            decreases self.slots@.len() - i,
        {
            if str_eq(self.slots[i].symbol.as_str(), symbol) {
                return Some(i);
            }
            i += 1;
        }
        None
    }

    /// The entry kept for `symbol`, if there is one.
    pub fn get(&self, symbol: &str) -> (r: Option<PriceCacheEntry>)
        requires
            self.well_formed(),
        ensures
            r == if self@.contains_key(symbol@) {
                Some(self@[symbol@])
            } else {
                None
            },
    {
        match self.position(symbol) {
            Some(i) => {
                assert(holds(self.slots@, symbol@));
                Some(self.slots[i].entry)
            },
            None => None,
        }
    }

    /// Whether an entry for `symbol` is kept that is younger than `ttl_secs`
    /// at `now`.
    pub fn is_fresh(&self, symbol: &str, now: i64, ttl_secs: u64) -> (r: bool)
        requires
            self.well_formed(),
        ensures
            r == (self@.contains_key(symbol@) && is_fresh_at(self@[symbol@], now, ttl_secs)),
    {
        match self.get(symbol) {
            Some(entry) => (now as i128) - (entry.timestamp as i128) < ttl_secs as i128,
            None => false,
        }
    }

    /// Keeps `entry` for `symbol`, in place of what was kept for it before.
    pub fn insert(&mut self, symbol: &str, entry: PriceCacheEntry)
        requires
            old(self).well_formed(),
        ensures
            final(self).well_formed(),
            final(self)@ == old(self)@.insert(symbol@, entry),
    {
        let ghost before = self.slots@;
        match self.position(symbol) {
            Some(i) => {
                assert(holds(before, symbol@));
                self.slots[i].entry = entry;
                let ghost after = self.slots@;
                proof {
                    assert(after.len() == before.len());
                    assert(forall|j: int|
                        0 <= j < after.len() ==> (#[trigger] after[j]).symbol@ == before[j].symbol@);
                    assert(distinct(after));
                    assert forall|key: Seq<char>| holds(after, key) == holds(before, key) by {
                        if holds(before, key) {
                            let j = slot_of(before, key);
                            assert(after[j].symbol@ == key);
                        }
                        if holds(after, key) {
                            let j = slot_of(after, key);
                            assert(before[j].symbol@ == key);
                        }
                    }
                    assert forall|key: Seq<char>| holds(after, key) implies after[slot_of(
                        after,
                        key,
                    )].entry == (if key == symbol@ {
                        entry
                    } else {
                        before[slot_of(before, key)].entry
                    }) by {
                        let j = slot_of(after, key);
                        let k = slot_of(before, key);
                        assert(before[j].symbol@ == key);
                        assert(j == k);
                        if key == symbol@ {
                            assert(j == i);
                        }
                    }
                    assert(self@ =~= old(self)@.insert(symbol@, entry));
                }
            },
            None => {
                self.slots.push(CacheSlot { symbol: String::from_str(symbol), entry });
                let ghost after = self.slots@;
                proof {
                    assert(forall|j: int| 0 <= j < before.len() ==> after[j] == before[j]);
                    assert(after[before.len() as int].symbol@ == symbol@);
                    assert(distinct(after));
                    assert forall|key: Seq<char>|
                        holds(after, key) == (key == symbol@ || holds(before, key)) by {
                        if holds(before, key) {
                            let j = slot_of(before, key);
                            assert(after[j].symbol@ == key);
                        }
                        if holds(after, key) && key != symbol@ {
                            let j = slot_of(after, key);
                            assert(before[j].symbol@ == key);
                        }
                    }
                    assert forall|key: Seq<char>| holds(after, key) implies after[slot_of(
                        after,
                        key,
                    )].entry == (if key == symbol@ {
                        entry
                    } else {
                        before[slot_of(before, key)].entry
                    }) by {
                        let j = slot_of(after, key);
                        if key == symbol@ {
                            assert(j == before.len());
                        } else {
                            let k = slot_of(before, key);
                            assert(before[j].symbol@ == key);
                            assert(j == k);
                        }
                    }
                    assert(self@ =~= old(self)@.insert(symbol@, entry));
                }
            },
        }
    }

    /// Keeps what `sample` says for its symbol.
    pub fn remember(&mut self, sample: &PriceSample)
        requires
            old(self).well_formed(),
        ensures
            final(self).well_formed(),
            final(self)@ == old(self)@.insert(sample.symbol@, entry_of(*sample)),
    {
        self.insert(
            sample.symbol.as_str(),
            PriceCacheEntry {
                price: sample.price,
                volume: sample.volume,
                timestamp: sample.timestamp,
            },
        );
    }
}

} // verus!
