//! The price service: the pipeline that turns a symbol into a sample.
//!
//! The service owns the price cache, the hourly request budget and the permit
//! pool. It does no I/O. For each symbol the caller begins an [`Acquisition`]
//! and is told the next [`Step`]: skip the symbol, wait, send a request, read
//! the last stored price, or take delivery of a sample. The caller performs
//! the step and reports what happened as an [`Event`]; the service answers
//! with the step after that.
//!
//! A symbol whose cached sample is still fresh is skipped. Otherwise a permit
//! is taken and the budget is checked. The first source of the symbol's market
//! is tried up to `max_retries` times, with a wait of `2^n` seconds after the
//! `n`-th failure. On the domestic market the second source is then asked
//! once. When every source has failed, a sample is made up from the last
//! stored price; where that price cannot be read, or the price made up is not
//! above zero, the symbol is given up for the tick. Every sample, fetched or
//! made up, has a price above zero and a volume that is not below zero. It
//! refreshes the cache and is delivered with the history row that records it;
//! only a fetched one counts against the budget.
//!
//! Symbols are processed one at a time by the caller that drives a tick. The
//! permit pool bounds the acquisitions that are under way, so a caller that
//! runs several at once is held to `max_concurrent_requests`.

use vstd::prelude::*;
use vstd::string::*;
use crate::adapters::{
    carries,
    interpret_reply,
    law_quoted_is_in_range,
    reply_outcome,
    source_of,
    Reply,
};
use crate::budget::{PermitPool, RateBudget, THROTTLE_SECS};
use crate::cache::{entry_of, is_fresh_at, PriceCache, PriceCacheEntry};
use crate::clock::unix_now;
use crate::config::PriceFetcherConfig;
use crate::decimal::Price;
use crate::errors::FetchError;
use crate::fallback::{
    is_synthetic,
    law_fallback_is_positive_from_half_a_cent,
    rounds_above_zero,
    LEAST_POSITIVE_START_MICROS,
    law_fallback_from_default,
    law_fallback_within_one_percent,
    random_u64,
    starting_price,
    synthesize,
    walk_micros,
};
use crate::history::{history_row, records, PriceHistory, PriceHistoryRow};
use crate::models::{PriceSample, SourceTag};
use crate::retry::{RetryDecision, RetryState};
use crate::routing::{detect_route, first_adapter, is_domestic, quote_url, Adapter};
use crate::store::{due_ids, lists, settled, watched, AlertBook};
use vstd::utf8::encode_utf8;

verus! {

/// What an acquisition is waiting for.
#[derive(Clone, Copy, Debug, PartialEq, Eq, Structural)]
pub enum Phase {
    /// A request is out; its reply is awaited.
    Fetching,
    /// The wait between two attempts is on.
    Waiting,
    /// The last stored price has been asked for.
    ReadingLastPrice,
    /// Nothing: the acquisition is over.
    Finished,
}

/// The progress of one symbol through the pipeline.
#[derive(Debug)]
pub struct Acquisition {
    pub symbol: String,
    /// The source that is being asked.
    pub adapter: Adapter,
    /// The attempts made at that source.
    pub retry: RetryState,
    pub phase: Phase,
    /// Why the last attempt failed, if one did.
    pub last_error: Option<FetchError>,
    /// Whether the acquisition holds a permit of the pool.
    pub holds_permit: bool,
}

/// What the caller reports back.
#[derive(Debug)]
pub enum Event {
    /// The request of the last step came back with this.
    Reply(Reply),
    /// The wait of the last step is over.
    Woke,
    /// The last stored price of the symbol, if one is stored.
    LastPrice(Option<Price>),
    /// The last stored price of the symbol could not be read.
    LastPriceFailed,
}

/// What the caller is to do next.
#[derive(Debug)]
pub enum Step {
    /// Nothing: the cached sample is fresh. The symbol is done for this tick.
    Skip,
    /// Wait for a permit to come free, then begin again.
    AwaitPermit,
    /// The budget is spent: stand still for `secs` seconds, then go on with
    /// the next symbol.
    Throttle { secs: u64 },
    /// Send a request to `url` as `adapter` wants it, and report the reply.
    Fetch { adapter: Adapter, url: String },
    /// Wait `secs` seconds, then report that the wait is over.
    Wait { secs: u64 },
    /// Read the last stored price of the symbol, and report it.
    ReadLastPrice,
    /// Take the sample: store `row`, then evaluate the symbol's alerts at the
    /// sample's price. The acquisition is over.
    Deliver { sample: PriceSample, row: PriceHistoryRow },
    /// Nothing: no sample is to be had for the symbol in this tick. The
    /// acquisition is over.
    GiveUp,
    /// The event does not answer the last step. The acquisition is over.
    Rejected,
}

/// What became of the write of a history row to storage.
#[derive(Clone, Copy, Debug, PartialEq, Eq, Structural)]
pub enum WriteOutcome {
    /// The row is stored.
    Stored,
    /// The write failed; storage is as it was.
    Failed,
}

/// What the service holds.
pub ghost struct ServiceState {
    pub cache: Map<Seq<char>, PriceCacheEntry>,
    pub budget: RateBudget,
    /// Permits in the pool.
    pub capacity: nat,
    /// Permits that are out.
    pub in_flight: nat,
}

/// The bookkeeping of the price pipeline.
pub struct PriceService {
    config: PriceFetcherConfig,
    cache: PriceCache,
    budget: RateBudget,
    permits: PermitPool,
}

impl View for PriceService {
    type V = ServiceState;

    closed spec fn view(&self) -> ServiceState {
        ServiceState {
            cache: self.cache@,
            budget: self.budget,
            capacity: self.permits.spec_capacity(),
            in_flight: self.permits.spec_in_flight(),
        }
    }
}

/// What a service with the settings `config` holds when it is made at `now`:
/// an empty cache, a full pool, and a budget whose window opens at `now`.
pub open spec fn initial_state(config: PriceFetcherConfig, now: i64) -> ServiceState {
    ServiceState {
        cache: Map::empty(),
        budget: RateBudget {
            request_count: 0,
            window_start: now,
            max_requests_per_hour: config.max_requests_per_hour,
        },
        capacity: config.max_concurrent_requests as nat,
        in_flight: 0,
    }
}

/// Whether the cache holds a sample of `symbol` that is fresh at `now`.
pub open spec fn has_fresh(
    cache: Map<Seq<char>, PriceCacheEntry>,
    symbol: Seq<char>,
    now: i64,
    ttl_secs: u64,
) -> bool {
    cache.contains_key(symbol) && is_fresh_at(cache[symbol], now, ttl_secs)
}

/// The source asked first for `symbol`.
pub open spec fn first_source(symbol: Seq<char>) -> Adapter {
    if is_domestic(encode_utf8(symbol)) {
        Adapter::DomesticPrimary
    } else {
        Adapter::Global
    }
}

/// The state with one permit more out.
pub open spec fn with_permit_taken(state: ServiceState) -> ServiceState {
    ServiceState { in_flight: state.in_flight + 1, ..state }
}

/// The state after an acquisition gave back the permit it held, if it held one.
pub open spec fn with_permit_back(state: ServiceState, held: bool) -> ServiceState {
    ServiceState {
        in_flight: if held && state.in_flight > 0 {
            (state.in_flight - 1) as nat
        } else {
            state.in_flight
        },
        ..state
    }
}

/// The state after `sample` was delivered: the cache remembers it, the budget
/// counts it if it was fetched, and the permit is back.
pub open spec fn with_delivery(state: ServiceState, sample: PriceSample, held: bool) -> ServiceState {
    with_permit_back(
        ServiceState {
            cache: state.cache.insert(sample.symbol@, entry_of(sample)),
            budget: if sample.source == SourceTag::Fallback {
                state.budget
            } else {
                state.budget.after_requests(1)
            },
            ..state
        },
        held,
    )
}

/// Whether `step` and `acq` are what follows the decision to ask `adapter`
/// for the symbol: the request, with the acquisition waiting for its reply;
/// or, where the symbol has no address at that source, the read of the last
/// stored price.
pub open spec fn asks(step: Step, acq: Acquisition, adapter: Adapter) -> bool {
    match quote_url(adapter, acq.symbol@) {
        Some(url) => {
            &&& step matches Step::Fetch { adapter: a, url: u }
            &&& a == adapter
            &&& u@ == url
            &&& acq.phase == Phase::Fetching
            &&& acq.adapter == adapter
        },
        None => step is ReadLastPrice && acq.phase == Phase::ReadingLastPrice,
    }
}

/// Whether `step` and `acq` are what follows a failed attempt of the
/// acquisition `before`.
///
/// While attempts are left at the source, the wait before the next one. When
/// they are used up at the first domestic source, the one request to the
/// second. In every other case the read of the last stored price.
pub open spec fn follows_failure(step: Step, acq: Acquisition, before: Acquisition) -> bool {
    if before.adapter != Adapter::DomesticSecondary && before.retry.open()
        && before.retry.after_failure() is Retry {
        &&& step matches Step::Wait { secs }
        &&& RetryDecision::Retry { delay_secs: secs } == before.retry.after_failure()
        &&& acq.phase == Phase::Waiting
        &&& acq.adapter == before.adapter
        &&& acq.retry.max_retries == before.retry.max_retries
        &&& acq.retry.failures == before.retry.failures + 1
    } else if before.adapter == Adapter::DomesticPrimary {
        asks(step, acq, Adapter::DomesticSecondary)
    } else {
        step is ReadLastPrice && acq.phase == Phase::ReadingLastPrice
    }
}

/// Whether `acq` and `step` are how the acquisition of `symbol` begins at
/// `now`, in a service with the settings `config` that goes from `before` to
/// `after`.
///
/// A fresh cached sample ends it at once: the symbol is skipped. With no
/// permit free the caller is told to wait for one. A spent budget ends it
/// with the order to stand still. In these three cases the service is left as
/// it was. Otherwise a permit is taken and the first source of the symbol's
/// market is asked; with no attempt allowed, or no address for the symbol, the
/// last stored price is asked for instead.
pub open spec fn begun(
    before: ServiceState,
    after: ServiceState,
    config: PriceFetcherConfig,
    symbol: Seq<char>,
    now: i64,
    acq: Acquisition,
    step: Step,
) -> bool {
    &&& acq.symbol@ == symbol
    &&& acq.retry == (RetryState { max_retries: config.max_retries, failures: 0 })
    &&& if has_fresh(before.cache, symbol, now, config.cache_ttl_secs) {
        &&& step is Skip
        &&& after == before
        &&& acq.phase == Phase::Finished
        &&& !acq.holds_permit
    } else if before.in_flight >= before.capacity {
        &&& step is AwaitPermit
        &&& after == before
        &&& acq.phase == Phase::Finished
        &&& !acq.holds_permit
    } else if before.budget.exhausted() {
        &&& step == (Step::Throttle { secs: THROTTLE_SECS })
        &&& after == before
        &&& acq.phase == Phase::Finished
        &&& !acq.holds_permit
    } else {
        &&& after == with_permit_taken(before)
        &&& acq.holds_permit
        &&& if config.max_retries == 0 {
            &&& step is ReadLastPrice
            &&& acq.phase == Phase::ReadingLastPrice
            &&& acq.last_error == Some(FetchError::NoAttempts)
        } else {
            &&& asks(step, acq, first_source(symbol))
            &&& acq.last_error == if quote_url(first_source(symbol), symbol) is None {
                Some(FetchError::Symbol)
            } else {
                None
            }
        }
    }
}

/// Whether the acquisition ends without a sample: the permit goes back, and
/// cache and budget are as they were.
pub open spec fn gives_up(
    step: Step,
    before: ServiceState,
    after: ServiceState,
    acq_before: Acquisition,
    acq_after: Acquisition,
) -> bool {
    &&& step is GiveUp
    &&& after == with_permit_back(before, acq_before.holds_permit)
    &&& acq_after.phase == Phase::Finished
    &&& !acq_after.holds_permit
    &&& acq_after.last_error == acq_before.last_error
}

/// Whether `acq_after` and `step` are what follows `event` for the
/// acquisition `acq_before` at `now`, in a service that goes from `before` to
/// `after`; `price_draw` and `volume_draw` are the random numbers for a
/// made-up sample.
///
/// A good reply is delivered as a sample. A failed attempt is followed by a
/// wait, by the one request to the second domestic source, or by the read of
/// the last stored price. After a wait the same source is asked again. The
/// last stored price is answered with a made-up sample, unless the price made
/// up is not above zero: then, and when the last stored price could not be
/// read, the acquisition ends without a sample and the service keeps what it
/// had. An event that does not answer the last step ends the acquisition.
/// Every sample that is delivered has a price above zero and a volume that is
/// not below zero.
pub open spec fn advanced(
    before: ServiceState,
    after: ServiceState,
    acq_before: Acquisition,
    acq_after: Acquisition,
    event: Event,
    now: i64,
    price_draw: u64,
    volume_draw: u64,
    step: Step,
) -> bool {
    &&& acq_after.symbol == acq_before.symbol
    &&& match (acq_before.phase, event) {
        (Phase::Fetching, Event::Reply(reply)) => match reply_outcome(acq_before.adapter, reply) {
            Ok(quoted) => {
                &&& step matches Step::Deliver { sample, row }
                &&& carries(sample, quoted, acq_before.symbol@, now, source_of(acq_before.adapter))
                &&& records(row, sample)
                &&& after == with_delivery(before, sample, acq_before.holds_permit)
                &&& acq_after.phase == Phase::Finished
                &&& !acq_after.holds_permit
            },
            Err(e) => {
                &&& follows_failure(step, acq_after, acq_before)
                &&& acq_after.last_error == Some(e)
                &&& acq_after.holds_permit == acq_before.holds_permit
                &&& after == before
            },
        },
        (Phase::Waiting, Event::Woke) => {
            &&& asks(step, acq_after, acq_before.adapter)
            &&& acq_after.retry == acq_before.retry
            &&& acq_after.holds_permit == acq_before.holds_permit
            &&& after == before
        },
        (Phase::ReadingLastPrice, Event::LastPrice(last)) => if rounds_above_zero(
            last,
            price_draw,
        ) {
            &&& step matches Step::Deliver { sample, row }
            &&& is_synthetic(sample, acq_before.symbol@, last, price_draw, volume_draw, now)
            &&& records(row, sample)
            &&& after == with_delivery(before, sample, acq_before.holds_permit)
            &&& acq_after.phase == Phase::Finished
            &&& !acq_after.holds_permit
        } else {
            gives_up(step, before, after, acq_before, acq_after)
        },
        (Phase::ReadingLastPrice, Event::LastPriceFailed) => gives_up(
            step,
            before,
            after,
            acq_before,
            acq_after,
        ),
        _ => {
            &&& step is Rejected
            &&& after == with_permit_back(before, acq_before.holds_permit)
            &&& acq_after.phase == Phase::Finished
            &&& !acq_after.holds_permit
        },
    }
}

impl PriceService {
    /// The settings the service was made with.
    pub closed spec fn spec_config(&self) -> PriceFetcherConfig {
        self.config
    }

    /// The cache keeps no symbol twice, no more permits are out than the pool
    /// has, and pool and budget are as large as the settings say.
    pub closed spec fn well_formed(&self) -> bool {
        &&& self.cache.well_formed()
        &&& self.permits.well_formed()
        &&& self.permits.spec_capacity() == self.config.max_concurrent_requests
        &&& self.budget.max_requests_per_hour == self.config.max_requests_per_hour
    }

    /// A service with an empty cache, a full pool, and a budget whose window
    /// opens at `now`.
    pub fn new_at(config: PriceFetcherConfig, now: i64) -> (service: PriceService)
        ensures
            service.well_formed(),
            service.spec_config() == config,
            service@ == initial_state(config, now),
    {
        PriceService {
            config,
            cache: PriceCache::new(),
            budget: RateBudget::new(config.max_requests_per_hour, now),
            permits: PermitPool::new(config.max_concurrent_requests),
        }
    }

    /// A service with an empty cache, a full pool, and a budget whose window
    /// opens at the time the clock shows.
    pub fn new(config: PriceFetcherConfig) -> (service: PriceService)
        ensures
            service.well_formed(),
            service.spec_config() == config,
            exists|now: i64| service@ == #[trigger] initial_state(config, now),
    {
        PriceService::new_at(config, unix_now())
    }

    /// The settings the service was made with.
    pub fn config(&self) -> (config: PriceFetcherConfig)
        ensures
            config == self.spec_config(),
    {
        self.config
    }

    /// The budget as it stands.
    pub fn budget(&self) -> (budget: RateBudget)
        ensures
            budget == self@.budget,
    {
        self.budget
    }

    /// The number of permits that are out.
    pub fn in_flight(&self) -> (n: usize)
        ensures
            n == self@.in_flight,
    {
        self.permits.in_flight()
    }

    /// What the cache keeps for `symbol`.
    pub fn get_cached_price(&self, symbol: &str) -> (r: Option<PriceCacheEntry>)
        requires
            self.well_formed(),
        ensures
            r == if self@.cache.contains_key(symbol@) {
                Some(self@.cache[symbol@])
            } else {
                None
            },
    {
        self.cache.get(symbol)
    }

    /// Keeps `entry` for `symbol` in the cache.
    pub fn set_cached_price(&mut self, symbol: &str, entry: PriceCacheEntry)
        requires
            old(self).well_formed(),
        ensures
            final(self).well_formed(),
            final(self).spec_config() == old(self).spec_config(),
            final(self)@ == (ServiceState {
                cache: old(self)@.cache.insert(symbol@, entry),
                ..old(self)@
            }),
    {
        self.cache.insert(symbol, entry);
    }

    /// Opens a fresh budget window at `now` where the old one has lasted an
    /// hour, and says whether it did.
    pub fn check_and_reset_request_count_at(&mut self, now: i64) -> (reset: bool)
        requires
            old(self).well_formed(),
        ensures
            final(self).well_formed(),
            final(self).spec_config() == old(self).spec_config(),
            reset == old(self)@.budget.window_over(now),
            final(self)@ == (ServiceState { budget: old(self)@.budget.rolled(now), ..old(self)@ }),
    {
        self.budget.check_and_reset(now)
    }

    /// Opens a fresh budget window where the clock shows that the old one has
    /// lasted an hour, and says whether it did.
    pub fn check_and_reset_request_count(&mut self) -> (reset: bool)
        requires
            old(self).well_formed(),
        ensures
            final(self).well_formed(),
            final(self).spec_config() == old(self).spec_config(),
            exists|now: i64|
                reset == old(self)@.budget.window_over(now) && final(self)@ == (ServiceState {
                    budget: #[trigger] old(self)@.budget.rolled(now),
                    ..old(self)@
                }),
    {
        let now = unix_now();
        self.check_and_reset_request_count_at(now)
    }

    /// Starts a tick at `now`: rolls the budget window if it is over, and
    /// lists the symbols that an active alert of `book` watches, each once.
    pub fn start_tick_at(&mut self, book: &AlertBook, now: i64) -> (symbols: Vec<String>)
        requires
            old(self).well_formed(),
        ensures
            final(self).well_formed(),
            final(self).spec_config() == old(self).spec_config(),
            final(self)@ == (ServiceState { budget: old(self)@.budget.rolled(now), ..old(self)@ }),
            forall|s: Seq<char>| lists(symbols@, s) <==> watched(book@, s),
            forall|i: int, j: int|
                0 <= i < j < symbols@.len() ==> (#[trigger] symbols@[i])@ != (#[trigger] symbols@[j])@,
    {
        self.budget.check_and_reset(now);
        book.active_symbols()
    }

    /// Gives the permit of `acq` back, if it holds one, and ends it.
    fn finish(&mut self, acq: &mut Acquisition)
        requires
            old(self).well_formed(),
        ensures
            final(self).well_formed(),
            final(self).spec_config() == old(self).spec_config(),
            final(self)@ == with_permit_back(old(self)@, old(acq).holds_permit),
            *final(acq) == (Acquisition {
                phase: Phase::Finished,
                holds_permit: false,
                ..*old(acq)
            }),
    {
        if acq.holds_permit {
            self.permits.release();
            acq.holds_permit = false;
        }
        acq.phase = Phase::Finished;
    }

    /// Turns to `adapter` for the symbol of `acq`.
    fn ask(acq: &mut Acquisition, adapter: Adapter) -> (step: Step)
        ensures
            asks(step, *final(acq), adapter),
            final(acq).symbol == old(acq).symbol,
            final(acq).retry == old(acq).retry,
            final(acq).last_error == old(acq).last_error,
            final(acq).holds_permit == old(acq).holds_permit,
    {
        match adapter.url_for(acq.symbol.as_str()) {
            Some(url) => {
                acq.adapter = adapter;
                acq.phase = Phase::Fetching;
                Step::Fetch { adapter, url }
            },
            None => {
                acq.phase = Phase::ReadingLastPrice;
                Step::ReadLastPrice
            },
        }
    }

    /// Begins the acquisition of `symbol` at `now`, as [`begun`] says.
    pub fn begin_at(&mut self, symbol: &str, now: i64) -> (r: (Acquisition, Step))
        requires
            old(self).well_formed(),
        ensures
            final(self).well_formed(),
            final(self).spec_config() == old(self).spec_config(),
            begun(old(self)@, final(self)@, old(self).spec_config(), symbol@, now, r.0, r.1),
    {
        let adapter = first_adapter(detect_route(symbol));
        let mut acq = Acquisition {
            symbol: String::from_str(symbol),
            adapter,
            retry: RetryState::new(self.config.max_retries),
            phase: Phase::Finished,
            last_error: None,
            holds_permit: false,
        };
        if self.cache.is_fresh(symbol, now, self.config.cache_ttl_secs) {
            return (acq, Step::Skip);
        }
        if !self.permits.try_acquire() {
            return (acq, Step::AwaitPermit);
        }
        if self.budget.is_exhausted() {
            self.permits.release();
            return (acq, Step::Throttle { secs: THROTTLE_SECS });
        }
        acq.holds_permit = true;
        if !acq.retry.may_attempt() {
            acq.phase = Phase::ReadingLastPrice;
            acq.last_error = Some(FetchError::NoAttempts);
            return (acq, Step::ReadLastPrice);
        }
        let step = Self::ask(&mut acq, adapter);
        match &step {
            Step::ReadLastPrice => {
                acq.last_error = Some(FetchError::Symbol);
            },
            _ => {},
        }
        (acq, step)
    }

    /// Begins the acquisition of `symbol` at the time the clock shows.
    pub fn begin(&mut self, symbol: &str) -> (r: (Acquisition, Step))
        requires
            old(self).well_formed(),
        ensures
            final(self).well_formed(),
            final(self).spec_config() == old(self).spec_config(),
            exists|now: i64|
                begun(old(self)@, final(self)@, old(self).spec_config(), symbol@, now, r.0, r.1),
    {
        let now = unix_now();
        self.begin_at(symbol, now)
    }

    /// Takes the next step of `acq` after `event`, at `now`, as [`advanced`]
    /// says; `price_draw` and `volume_draw` are the random numbers for a
    /// made-up sample.
    pub fn advance_with(
        &mut self,
        acq: &mut Acquisition,
        event: Event,
        now: i64,
        price_draw: u64,
        volume_draw: u64,
    ) -> (step: Step)
        requires
            old(self).well_formed(),
        ensures
            final(self).well_formed(),
            final(self).spec_config() == old(self).spec_config(),
            advanced(
                old(self)@,
                final(self)@,
                *old(acq),
                *final(acq),
                event,
                now,
                price_draw,
                volume_draw,
                step,
            ),
    {
        match (acq.phase, event) {
            (Phase::Fetching, Event::Reply(reply)) => {
                match interpret_reply(acq.adapter, reply, acq.symbol.as_str(), now) {
                    Ok(sample) => {
                        self.budget.record_request();
                        self.deliver(acq, sample)
                    },
                    Err(e) => {
                        acq.last_error = Some(e);
                        if !matches!(acq.adapter, Adapter::DomesticSecondary) {
                            if acq.retry.may_attempt() {
                                match acq.retry.on_failure() {
                                    RetryDecision::Retry { delay_secs } => {
                                        acq.phase = Phase::Waiting;
                                        return Step::Wait { secs: delay_secs };
                                    },
                                    RetryDecision::GiveUp => {},
                                }
                            }
                        }
                        if matches!(acq.adapter, Adapter::DomesticPrimary) {
                            Self::ask(acq, Adapter::DomesticSecondary)
                        } else {
                            acq.phase = Phase::ReadingLastPrice;
                            Step::ReadLastPrice
                        }
                    },
                }
            },
            (Phase::Waiting, Event::Woke) => {
                let adapter = acq.adapter;
                Self::ask(acq, adapter)
            },
            (Phase::ReadingLastPrice, Event::LastPrice(last)) => {
                let sample = synthesize(acq.symbol.as_str(), last, price_draw, volume_draw, now);
                if sample.price.micros > 0 {
                    self.deliver(acq, sample)
                } else {
                    self.finish(acq);
                    Step::GiveUp
                }
            },
            (Phase::ReadingLastPrice, Event::LastPriceFailed) => {
                self.finish(acq);
                Step::GiveUp
            },
            _ => {
                self.finish(acq);
                Step::Rejected
            },
        }
    }

    /// Remembers `sample` in the cache, ends `acq`, and hands the sample out
    /// with its history row.
    fn deliver(&mut self, acq: &mut Acquisition, sample: PriceSample) -> (step: Step)
        requires
            old(self).well_formed(),
        ensures
            final(self).well_formed(),
            final(self).spec_config() == old(self).spec_config(),
            step matches Step::Deliver { sample: s, row } && s == sample && records(row, sample),
            final(self)@ == with_permit_back(
                ServiceState {
                    cache: old(self)@.cache.insert(sample.symbol@, entry_of(sample)),
                    ..old(self)@
                },
                old(acq).holds_permit,
            ),
            *final(acq) == (Acquisition {
                phase: Phase::Finished,
                holds_permit: false,
                ..*old(acq)
            }),
    {
        self.cache.remember(&sample);
        self.finish(acq);
        let row = history_row(&sample);
        Step::Deliver { sample, row }
    }

    /// Takes the next step of `acq` after `event`, at the time the clock
    /// shows, with random numbers of its own for a made-up sample.
    pub fn advance(&mut self, acq: &mut Acquisition, event: Event) -> (step: Step)
        requires
            old(self).well_formed(),
        ensures
            final(self).well_formed(),
            final(self).spec_config() == old(self).spec_config(),
            exists|now: i64, price_draw: u64, volume_draw: u64|
                advanced(
                    old(self)@,
                    final(self)@,
                    *old(acq),
                    *final(acq),
                    event,
                    now,
                    price_draw,
                    volume_draw,
                    step,
                ),
    {
        let now = unix_now();
        let (price_draw, volume_draw) = match &event {
            Event::LastPrice(_) => (random_u64(), random_u64()),
            _ => (0, 0),
        };
        self.advance_with(acq, event, now, price_draw, volume_draw)
    }
}

/// Books a delivered sample: `write` says what became of the write of its row
/// to storage. A stored row is recorded in `history` too; after a failed write
/// the history is as it was. Either way the alerts of `book` are evaluated
/// against the sample at `now`, and the ids of the alerts that were triggered
/// are returned, each of which is owed one notification.
pub fn save_price(
    history: &mut PriceHistory,
    book: &mut AlertBook,
    sample: &PriceSample,
    write: WriteOutcome,
    now: i64,
) -> (ids: Vec<i64>)
    requires
        old(history).well_formed(),
        old(book).well_formed(),
    ensures
        final(history).well_formed(),
        final(book).well_formed(),
        match write {
            WriteOutcome::Stored => exists|row: PriceHistoryRow|
                records(row, *sample) && final(history)@ == old(history)@.insert(
                    (sample.symbol@, row.date),
                    row,
                ),
            WriteOutcome::Failed => final(history)@ == old(history)@,
        },
        final(book)@ == settled(old(book)@, sample.symbol@, sample.price, now),
        final(book).next_id() == old(book).next_id(),
        ids@ == due_ids(old(book)@, sample.symbol@, sample.price),
{
    match write {
        WriteOutcome::Stored => {
            history.save_price(sample);
        },
        WriteOutcome::Failed => {},
    }
    book.check_alerts(sample.symbol.as_str(), sample.price, now)
}

/// Once a sample was delivered, its symbol is skipped for as long as the
/// sample is younger than the time-to-live: no request is made for it. From
/// the moment the sample's age reaches the time-to-live the symbol is not
/// skipped any more.
pub proof fn law_delivered_symbol_is_skipped_while_fresh(
    before: ServiceState,
    sample: PriceSample,
    held: bool,
    config: PriceFetcherConfig,
    now: i64,
    after: ServiceState,
    acq: Acquisition,
    step: Step,
)
    requires
        begun(with_delivery(before, sample, held), after, config, sample.symbol@, now, acq, step),
    ensures
        now - sample.timestamp < config.cache_ttl_secs ==> step is Skip && after == with_delivery(
            before,
            sample,
            held,
        ),
        now - sample.timestamp >= config.cache_ttl_secs ==> !(step is Skip),
        step is Skip ==> acq.phase == Phase::Finished,
{
}

/// With the budget spent, no request is made: the acquisition of a symbol
/// that is not skipped and gets a permit ends with the order to stand still,
/// and the service is left as it was. The budget is spent exactly when the
/// requests counted since the window opened have reached the hourly cap.
pub proof fn law_spent_budget_defers_the_fetch(
    before: ServiceState,
    after: ServiceState,
    config: PriceFetcherConfig,
    symbol: Seq<char>,
    now: i64,
    acq: Acquisition,
    step: Step,
)
    requires
        begun(before, after, config, symbol, now, acq, step),
        before.budget.request_count >= before.budget.max_requests_per_hour,
    ensures
        !(step is Fetch),
        !(step is ReadLastPrice),
        after == before,
        !has_fresh(before.cache, symbol, now, config.cache_ttl_secs) && before.in_flight
            < before.capacity ==> step == (Step::Throttle { secs: THROTTLE_SECS }),
{
}

/// Every fetched sample counts against the budget, and nothing else does: a
/// delivery raises the count by one where the sample came from a source, and
/// leaves it where the sample was made up; a step that delivers nothing leaves
/// the budget as it was.
pub proof fn law_only_fetched_samples_are_counted(
    before: ServiceState,
    after: ServiceState,
    acq_before: Acquisition,
    acq_after: Acquisition,
    event: Event,
    now: i64,
    price_draw: u64,
    volume_draw: u64,
    step: Step,
)
    requires
        advanced(before, after, acq_before, acq_after, event, now, price_draw, volume_draw, step),
    ensures
        match step {
            Step::Deliver { sample, row } => after.budget == if sample.source == SourceTag::Fallback {
                before.budget
            } else {
                before.budget.after_requests(1)
            },
            _ => after.budget == before.budget,
        },
        step matches Step::Deliver { sample, row } ==> (sample.source == SourceTag::Fallback
            <==> event is LastPrice),
{
}

/// When the read of the last stored price is answered with nothing, or with a
/// price of 0.005051 or more, a sample is delivered: it is tagged as made up,
/// its price is above zero, it is the price to start from moved by at most one
/// percent and rounded to cents, its volume lies between 1000 and 10999, and it
/// comes with the history row that records it.
pub proof fn law_exhausted_sources_still_deliver(
    before: ServiceState,
    after: ServiceState,
    acq_before: Acquisition,
    acq_after: Acquisition,
    last: Option<Price>,
    now: i64,
    price_draw: u64,
    volume_draw: u64,
    step: Step,
)
    requires
        acq_before.phase == Phase::ReadingLastPrice,
        starting_price(last)@ >= LEAST_POSITIVE_START_MICROS,
        advanced(
            before,
            after,
            acq_before,
            acq_after,
            Event::LastPrice(last),
            now,
            price_draw,
            volume_draw,
            step,
        ),
    ensures
        step matches Step::Deliver { sample, row } && {
            &&& sample.source == SourceTag::Fallback
            &&& sample.well_formed()
            &&& sample.symbol@ == acq_before.symbol@
            &&& sample.timestamp == now
            &&& records(row, sample)
            &&& 1_000 <= sample.volume <= 10_999
            &&& after.cache.contains_key(sample.symbol@)
            &&& after.cache[sample.symbol@] == entry_of(sample)
            &&& (0 <= starting_price(last)@ <= 9_000_000_000_000_000_000 ==> walk_micros(
                starting_price(last)@,
                0,
            ) <= sample.price@ <= walk_micros(starting_price(last)@, 20_000))
            &&& (starting_price(last)@ == 100_000_000 ==> 99_000_000 <= sample.price@
                <= 101_000_000)
        },
{
    law_fallback_from_default(price_draw);
    law_fallback_is_positive_from_half_a_cent(last, price_draw);
    if 0 <= starting_price(last)@ <= 9_000_000_000_000_000_000 {
        law_fallback_within_one_percent(last, price_draw);
    }
}

/// Every sample that the pipeline delivers, fetched or made up, has a price
/// above zero and a volume that is not below zero. Where the sources fail and
/// no such sample can be made up, or the last stored price cannot be read,
/// nothing is delivered and the cache keeps what it had.
pub proof fn law_every_delivered_sample_is_well_formed(
    before: ServiceState,
    after: ServiceState,
    acq_before: Acquisition,
    acq_after: Acquisition,
    event: Event,
    now: i64,
    price_draw: u64,
    volume_draw: u64,
    step: Step,
)
    requires
        advanced(before, after, acq_before, acq_after, event, now, price_draw, volume_draw, step),
    ensures
        step matches Step::Deliver { sample, row } ==> sample.well_formed() && row.close_price@ > 0
            && row.volume >= 0,
        step is GiveUp ==> after.cache == before.cache && after.budget == before.budget
            && acq_before.phase == Phase::ReadingLastPrice,
        step is GiveUp <==> acq_before.phase == Phase::ReadingLastPrice && (event is LastPriceFailed
            || (event matches Event::LastPrice(last) && !rounds_above_zero(last, price_draw))),
{
    match (acq_before.phase, event) {
        (Phase::Fetching, Event::Reply(reply)) => {
            law_quoted_is_in_range(acq_before.adapter, reply);
        },
        (Phase::ReadingLastPrice, Event::LastPrice(last)) => {
            law_fallback_is_positive_from_half_a_cent(last, price_draw);
        },
        _ => {},
    }
}

/// A symbol whose cached sample has reached the time-to-live is fetched, and
/// fetched once: with a permit free, the budget not spent, an attempt allowed
/// and an address for the symbol, its acquisition begins with one request to
/// the first source of its market; and when that request is answered with a
/// good reply, the sample is delivered without a further request, and the
/// cache then holds the symbol with the time of the reply, which is later than
/// the time it held before where the reply came later.
pub proof fn law_stale_symbol_is_fetched_once(
    before: ServiceState,
    begun_state: ServiceState,
    after: ServiceState,
    config: PriceFetcherConfig,
    symbol: Seq<char>,
    now: i64,
    acq: Acquisition,
    first_step: Step,
    reply: Reply,
    replied_at: i64,
    acq_after: Acquisition,
    next_step: Step,
)
    requires
        before.cache.contains_key(symbol),
        now - before.cache[symbol].timestamp >= config.cache_ttl_secs,
        before.budget.request_count < before.budget.max_requests_per_hour,
        before.in_flight < before.capacity,
        config.max_retries >= 1,
        quote_url(first_source(symbol), symbol) is Some,
        begun(before, begun_state, config, symbol, now, acq, first_step),
        reply_outcome(acq.adapter, reply) is Ok,
        advanced(begun_state, after, acq, acq_after, Event::Reply(reply), replied_at, 0, 0, next_step),
    ensures
        first_step matches Step::Fetch { adapter, url } && adapter == first_source(symbol) && Some(url@)
            == quote_url(adapter, symbol),
        begun_state.cache == before.cache,
        next_step matches Step::Deliver { sample, row } && sample.symbol@ == symbol
            && sample.well_formed() && sample.source != SourceTag::Fallback,
        acq_after.phase == Phase::Finished,
        after.cache.contains_key(symbol),
        after.cache[symbol].timestamp == replied_at,
        replied_at > before.cache[symbol].timestamp ==> after.cache[symbol].timestamp
            > before.cache[symbol].timestamp,
        after.budget == before.budget.after_requests(1),
        after.in_flight == before.in_flight,
{
    law_quoted_is_in_range(acq.adapter, reply);
}

/// While a sample is younger than the time-to-live, the cache that remembers
/// it holds a fresh sample of its symbol, so that the symbol is skipped; from
/// the moment its age reaches the time-to-live it does not, so that the symbol
/// is fetched again.
pub proof fn law_cache_fresh_for_ttl(
    cache: Map<Seq<char>, PriceCacheEntry>,
    sample: PriceSample,
    now: i64,
    ttl_secs: u64,
)
    ensures
        has_fresh(cache.insert(sample.symbol@, entry_of(sample)), sample.symbol@, now, ttl_secs)
            <==> now - sample.timestamp < ttl_secs,
{
}

} // verus!
