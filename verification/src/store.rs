//! The alert book: the alert records of the service, held in memory.
//!
//! The book is the model of the alert store. It keeps the records in the order
//! of their creation, gives every record an id of its own, and moves a record's
//! status only along its life cycle: an active alert may be triggered, once and
//! under a guard, or cancelled; a triggered or cancelled alert stays what it is.

use vstd::prelude::*;
use vstd::string::*;
use crate::decimal::Price;
use crate::models::{clone_optional_text, Alert, AlertStatus, CreateAlertRequest};
use crate::text::str_eq;

verus! {

/// Whether one of `alerts` has the id `id`.
pub open spec fn has_id(alerts: Seq<Alert>, id: i64) -> bool {
    exists|i: int| 0 <= i < alerts.len() && (#[trigger] alerts[i]).id == id
}

/// The position of an alert with the id `id`.
pub open spec fn index_of_id(alerts: Seq<Alert>, id: i64) -> int {
    choose|i: int| 0 <= i < alerts.len() && (#[trigger] alerts[i]).id == id
}

/// The alert with the id `id`, if there is one.
pub open spec fn lookup(alerts: Seq<Alert>, id: i64) -> Option<Alert> {
    if has_id(alerts, id) {
        Some(alerts[index_of_id(alerts, id)])
    } else {
        None
    }
}

/// Whether no two of `alerts` share an id.
pub open spec fn distinct_ids(alerts: Seq<Alert>) -> bool {
    forall|i: int, j: int|
        0 <= i < j < alerts.len() ==> (#[trigger] alerts[i]).id != (#[trigger] alerts[j]).id
}

/// The record that a request creates under the id `id` at `now`: active,
/// never triggered, created and updated at `now`.
pub open spec fn created(request: CreateAlertRequest, id: i64, now: i64) -> Alert {
    Alert {
        id,
        symbol: request.symbol,
        condition: request.condition,
        price: request.price,
        status: AlertStatus::Active,
        created_at: now,
        updated_at: now,
        triggered_at: None,
        notification_email: request.notification_email,
        user_id: request.user_id,
    }
}

/// The record `alert` after a request changed it at `now`: symbol, condition,
/// target price and notification address are the request's, the rest stays.
pub open spec fn revised(alert: Alert, request: CreateAlertRequest, now: i64) -> Alert {
    Alert {
        symbol: request.symbol,
        condition: request.condition,
        price: request.price,
        notification_email: request.notification_email,
        updated_at: now,
        ..alert
    }
}

/// Whether the record `alert` fits into a book that holds `front`: it is well
/// formed, its id is positive and not the largest there is, and no record of
/// `front` has its id.
pub open spec fn fits(front: Seq<Alert>, alert: Alert) -> bool {
    alert.well_formed() && 1 <= alert.id < i64::MAX && !has_id(front, alert.id)
}

/// The records of `alerts` that fit together, in their order: each record
/// that fits with those kept before it.
pub open spec fn fitting(alerts: Seq<Alert>) -> Seq<Alert>
    decreases alerts.len(),
{
    if alerts.len() == 0 {
        Seq::empty()
    } else {
        let front = fitting(alerts.drop_last());
        if fits(front, alerts.last()) {
            front.push(alerts.last())
        } else {
            front
        }
    }
}

/// The alerts after a guarded trigger of the alert with the id `id` at `now`:
/// that alert triggered where it is there and active, nothing changed where
/// it is not.
pub open spec fn marked(alerts: Seq<Alert>, id: i64, now: i64) -> Seq<Alert> {
    match lookup(alerts, id) {
        Some(a) => if a.status == AlertStatus::Active {
            alerts.update(index_of_id(alerts, id), a.triggered(now))
        } else {
            alerts
        },
        None => alerts,
    }
}

/// The alerts that belong to `user`.
pub open spec fn owned_by(user: Seq<char>) -> spec_fn(Alert) -> bool {
    |a: Alert| a.user_id@ == user
}

/// The active alerts that belong to `user`.
pub open spec fn active_owned_by(user: Seq<char>) -> spec_fn(Alert) -> bool {
    |a: Alert| a.user_id@ == user && a.status == AlertStatus::Active
}

/// The alerts that a clean-up at `cutoff` keeps: those of the user `default`,
/// and those created at `cutoff` or later.
pub open spec fn kept_at(cutoff: int) -> spec_fn(Alert) -> bool {
    |a: Alert| a.user_id@ == "default"@ || a.created_at >= cutoff
}

/// Whether an active alert of `alerts` watches `symbol`.
pub open spec fn watched(alerts: Seq<Alert>, symbol: Seq<char>) -> bool {
    exists|i: int|
        0 <= i < alerts.len() && (#[trigger] alerts[i]).status == AlertStatus::Active
            && alerts[i].symbol@ == symbol
}

/// Whether `symbol` is one of `symbols`.
pub open spec fn lists(symbols: Seq<String>, symbol: Seq<char>) -> bool {
    exists|i: int| 0 <= i < symbols.len() && (#[trigger] symbols[i])@ == symbol
}

/// The alerts that an evaluation of `symbol` at `price` fires.
pub open spec fn is_due(symbol: Seq<char>, price: Price) -> spec_fn(Alert) -> bool {
    |a: Alert| a.due(symbol, price)
}

/// What an evaluation of `symbol` at `price`, made at `now`, leaves of an
/// alert: triggered at `now` where it was due, untouched where it was not.
pub open spec fn settle(symbol: Seq<char>, price: Price, now: i64) -> spec_fn(Alert) -> Alert {
    |a: Alert|
        if a.due(symbol, price) {
            a.triggered(now)
        } else {
            a
        }
}

/// The id of an alert.
pub open spec fn id_of() -> spec_fn(Alert) -> i64 {
    |a: Alert| a.id
}

/// The ids of the alerts that an evaluation of `symbol` at `price` fires, in
/// the order of the alerts.
pub open spec fn due_ids(alerts: Seq<Alert>, symbol: Seq<char>, price: Price) -> Seq<i64> {
    alerts.filter(is_due(symbol, price)).map_values(id_of())
}

/// The alerts after an evaluation of `symbol` at `price`, made at `now`.
pub open spec fn settled(alerts: Seq<Alert>, symbol: Seq<char>, price: Price, now: i64) -> Seq<
    Alert,
> {
    alerts.map_values(settle(symbol, price, now))
}

/// The alerts of a store, in the order of their creation.
#[derive(Debug)]
pub struct AlertBook {
    alerts: Vec<Alert>,
    next_id: i64,
}

impl View for AlertBook {
    type V = Seq<Alert>;

    /// The records, in the order of their creation.
    closed spec fn view(&self) -> Seq<Alert> {
        self.alerts@
    }
}

impl AlertBook {
    /// The id that the next created alert gets.
    pub closed spec fn next_id(&self) -> i64 {
        self.next_id
    }

    /// Every record is well formed, no id is used twice, and every id in use
    /// is positive and below the next one.
    pub open spec fn well_formed(&self) -> bool {
        &&& distinct_ids(self@)
        &&& self.next_id() >= 1
        &&& forall|i: int|
            0 <= i < self@.len() ==> (#[trigger] self@[i]).well_formed() && 1 <= self@[i].id
                < self.next_id()
    }

    /// An empty book whose first alert gets the id 1.
    pub fn new() -> (book: AlertBook)
        ensures
            book.well_formed(),
            book@ == Seq::<Alert>::empty(),
            book.next_id() == 1,
    {
        AlertBook { alerts: Vec::new(), next_id: 1 }
    }

    /// A book of the records `alerts`, as a store handed them out. There is
    /// none where a record is not well formed, an id is not positive or is
    /// the largest there is, or two records share an id.
    pub fn from_alerts(alerts: Vec<Alert>) -> (r: Option<AlertBook>)
        ensures
            match r {
                Some(book) => book.well_formed() && book@ == alerts@,
                None => !(distinct_ids(alerts@) && forall|i: int|
                    0 <= i < alerts@.len() ==> (#[trigger] alerts@[i]).well_formed() && 1
                        <= alerts@[i].id < i64::MAX),
            },
    {
        let mut next_id: i64 = 1;
        let mut i: usize = 0;
        while i < alerts.len()
            invariant
                i <= alerts@.len(),
                next_id >= 1,
                distinct_ids(alerts@.take(i as int)),
                forall|j: int|
                    0 <= j < i ==> (#[trigger] alerts@[j]).well_formed() && 1 <= alerts@[j].id
                        < next_id,
            decreases alerts@.len() - i,
        {
            let alert = &alerts[i];
            let triggered = match alert.status {
                AlertStatus::Triggered => true,
                _ => false,
            };
            if triggered != alert.triggered_at.is_some() || alert.id < 1 || alert.id == i64::MAX {
                return None;
            }
            let mut k: usize = 0;
            while k < i
                invariant
                    k <= i < alerts@.len(),
                    forall|j: int| 0 <= j < k ==> (#[trigger] alerts@[j]).id != alerts@[i as int].id,
                decreases i - k,
            {
                if alerts[k].id == alerts[i].id {
                    assert(!distinct_ids(alerts@));
                    return None;
                }
                k += 1;
            }
            if alerts[i].id >= next_id {
                next_id = alerts[i].id + 1;
            }
            assert(distinct_ids(alerts@.take(i + 1))) by {
                assert(forall|j: int| 0 <= j <= i ==> alerts@.take(i + 1)[j] == alerts@[j]);
                assert(forall|j: int| 0 <= j < i ==> alerts@.take(i as int)[j] == alerts@[j]);
                assert forall|a: int, b: int| 0 <= a < b < i + 1 implies (
                #[trigger] alerts@.take(i + 1)[a]).id != (#[trigger] alerts@.take(i + 1)[b]).id by {
                    if b < i {
                        assert(alerts@.take(i as int)[a].id != alerts@.take(i as int)[b].id);
                    }
                }
            }
            i += 1;
        }
        assert(alerts@.take(i as int) =~= alerts@);
        Some(AlertBook { alerts, next_id })
    }

    /// A book of those of the records `alerts` that fit together, in their
    /// order. A record that is not well formed, whose id is not positive or is
    /// the largest there is, or whose id an earlier record of the book has, is
    /// left out; the others are not held up by it.
    pub fn from_records(alerts: Vec<Alert>) -> (book: AlertBook)
        ensures
            book.well_formed(),
            book@ == fitting(alerts@),
    {
        let mut kept: Vec<Alert> = Vec::new();
        let mut next_id: i64 = 1;
        let mut i: usize = 0;
        assert(alerts@.take(0) =~= Seq::<Alert>::empty());
        while i < alerts.len()
            invariant
                i <= alerts@.len(),
                next_id >= 1,
                kept@ == fitting(alerts@.take(i as int)),
                distinct_ids(kept@),
                forall|j: int|
                    0 <= j < kept@.len() ==> (#[trigger] kept@[j]).well_formed() && 1 <= kept@[j].id
                        < next_id,
            decreases alerts@.len() - i,
        {
            let alert = &alerts[i];
            let triggered = match alert.status {
                AlertStatus::Triggered => true,
                _ => false,
            };
            let mut fit = triggered == alert.triggered_at.is_some() && alert.id >= 1 && alert.id
                < i64::MAX;
            if fit {
                fit = !holds_id(&kept, alerts[i].id);
            }
            proof {
                assert(alerts@.take(i + 1).drop_last() =~= alerts@.take(i as int));
                assert(alerts@.take(i + 1).last() == alerts@[i as int]);
                assert(fit == fits(kept@, alerts@[i as int]));
            }
            if fit {
                if alerts[i].id >= next_id {
                    next_id = alerts[i].id + 1;
                }
                let ghost before = kept@;
                kept.push(alerts[i].clone());
                proof {
                    assert(forall|j: int| 0 <= j < before.len() ==> kept@[j] == before[j]);
                    assert(kept@[before.len() as int] == alerts@[i as int]);
                    assert forall|a: int, b: int| 0 <= a < b < kept@.len() implies (
                    #[trigger] kept@[a]).id != (#[trigger] kept@[b]).id by {
                        if b == before.len() {
                            assert(before[a].id != alerts@[i as int].id);
                        }
                    }
                }
            }
            i += 1;
        }
        assert(alerts@.take(i as int) =~= alerts@);
        AlertBook { alerts: kept, next_id }
    }

    /// The number of records.
    pub fn len(&self) -> (n: usize)
        ensures
            n == self@.len(),
    {
        self.alerts.len()
    }

    /// Where the alert with the id `id` stands, if there is one.
    fn position(&self, id: i64) -> (r: Option<usize>)
        ensures
            match r {
                Some(i) => i < self@.len() && self@[i as int].id == id,
                None => !has_id(self@, id),
            },
    {
        let mut i: usize = 0;
        while i < self.alerts.len()
            invariant
                i <= self.alerts@.len(),
                forall|j: int| 0 <= j < i ==> (#[trigger] self.alerts@[j]).id != id,
            decreases self.alerts@.len() - i,
        {
            if self.alerts[i].id == id {
                return Some(i);
            }
            i += 1;
        }
        None
    }

    /// Files a new alert for `request` at `now` and returns a copy of it.
    pub fn create_alert(&mut self, request: &CreateAlertRequest, now: i64) -> (alert: Alert)
        requires
            old(self).well_formed(),
            old(self).next_id() < i64::MAX,
        ensures
            final(self).well_formed(),
            alert == created(*request, old(self).next_id(), now),
            final(self)@ == old(self)@.push(alert),
            final(self).next_id() == old(self).next_id() + 1,
    {
        let alert = Alert {
            id: self.next_id,
            symbol: request.symbol.clone(),
            condition: request.condition,
            price: request.price,
            status: AlertStatus::Active,
            created_at: now,
            updated_at: now,
            triggered_at: None,
            notification_email: clone_optional_text(&request.notification_email),
            user_id: request.user_id.clone(),
        };
        let copy = alert.clone();
        self.alerts.push(alert);
        self.next_id = self.next_id + 1;
        copy
    }

    /// A copy of the alert with the id `id`, if there is one.
    pub fn get_alert(&self, id: i64) -> (r: Option<Alert>)
        requires
            self.well_formed(),
        ensures
            r == lookup(self@, id),
    {
        match self.position(id) {
            Some(i) => {
                assert(has_id(self@, id));
                Some(self.alerts[i].clone())
            },
            None => None,
        }
    }

    /// Moves the alert with the id `id` from active to triggered at `now`, and
    /// says whether it did. An alert that is not active, or not there, stays
    /// as it is.
    pub fn mark_alert_triggered(&mut self, id: i64, now: i64) -> (moved: bool)
        requires
            old(self).well_formed(),
        ensures
            final(self).well_formed(),
            final(self).next_id() == old(self).next_id(),
            moved == (lookup(old(self)@, id) matches Some(a) && a.status == AlertStatus::Active),
            moved ==> final(self)@ == old(self)@.update(
                index_of_id(old(self)@, id),
                old(self)@[index_of_id(old(self)@, id)].triggered(now),
            ),
            !moved ==> final(self)@ == old(self)@,
    {
        match self.position(id) {
            Some(i) => {
                assert(has_id(self@, id));
                let moved = self.alerts[i].mark_triggered(now);
                moved
            },
            None => false,
        }
    }

    /// Sets the status of the alert with the id `id` at `now`, as far as its
    /// life cycle allows, and says whether the alert is there and has the
    /// wanted status afterwards.
    pub fn update_alert_status(&mut self, id: i64, status: AlertStatus, now: i64) -> (done: bool)
        requires
            old(self).well_formed(),
        ensures
            final(self).well_formed(),
            final(self).next_id() == old(self).next_id(),
            done == (lookup(old(self)@, id) matches Some(a) && a.status.may_become(status)),
            has_id(old(self)@, id) ==> final(self)@ == old(self)@.update(
                index_of_id(old(self)@, id),
                old(self)@[index_of_id(old(self)@, id)].with_status(status, now),
            ),
            !has_id(old(self)@, id) ==> final(self)@ == old(self)@,
    {
        match self.position(id) {
            Some(i) => {
                assert(has_id(self@, id));
                let done = self.alerts[i].set_status(status, now);
                done
            },
            None => false,
        }
    }

    /// Copies of all alerts, in the order of their creation.
    pub fn list_alerts(&self) -> (r: Vec<Alert>)
        ensures
            r@ == self@,
    {
        let mut out: Vec<Alert> = Vec::new();
        let mut i: usize = 0;
        while i < self.alerts.len()
            invariant
                i <= self.alerts@.len(),
                out@ == self.alerts@.take(i as int),
            decreases self.alerts@.len() - i,
        {
            out.push(self.alerts[i].clone());
            assert(self.alerts@.take(i + 1) =~= self.alerts@.take(i as int).push(self.alerts@[i as int]));
            i += 1;
        }
        assert(self.alerts@.take(i as int) =~= self.alerts@);
        out
    }

    /// Copies of the alerts of `user_id`, in the order of their creation.
    pub fn list_alerts_by_user(&self, user_id: &str) -> (r: Vec<Alert>)
        ensures
            r@ == self@.filter(owned_by(user_id@)),
    {
        let mut out: Vec<Alert> = Vec::new();
        let mut i: usize = 0;
        proof {
            self.alerts@.take(0).lemma_all_neg_filter_empty(owned_by(user_id@));
        }
        while i < self.alerts.len()
            invariant
                i <= self.alerts@.len(),
                out@ == self.alerts@.take(i as int).filter(owned_by(user_id@)),
            decreases self.alerts@.len() - i,
        {
            proof {
                self.alerts@.lemma_take_succ_push(i as int);
                self.alerts@.take(i as int).lemma_filter_push(
                    self.alerts@[i as int],
                    owned_by(user_id@),
                );
            }
            if str_eq(self.alerts[i].user_id.as_str(), user_id) {
                out.push(self.alerts[i].clone());
            }
            i += 1;
        }
        assert(self.alerts@.take(i as int) =~= self.alerts@);
        out
    }

    /// Copies of the active alerts of `user_id`, in the order of their creation.
    pub fn get_active_alerts_for_user(&self, user_id: &str) -> (r: Vec<Alert>)
        ensures
            r@ == self@.filter(active_owned_by(user_id@)),
    {
        let mut out: Vec<Alert> = Vec::new();
        let mut i: usize = 0;
        proof {
            self.alerts@.take(0).lemma_all_neg_filter_empty(active_owned_by(user_id@));
        }
        while i < self.alerts.len()
            invariant
                i <= self.alerts@.len(),
                out@ == self.alerts@.take(i as int).filter(active_owned_by(user_id@)),
            decreases self.alerts@.len() - i,
        {
            proof {
                self.alerts@.lemma_take_succ_push(i as int);
                self.alerts@.take(i as int).lemma_filter_push(
                    self.alerts@[i as int],
                    active_owned_by(user_id@),
                );
            }
            if str_eq(self.alerts[i].user_id.as_str(), user_id) && self.alerts[i].status
                == AlertStatus::Active {
                out.push(self.alerts[i].clone());
            }
            i += 1;
        }
        assert(self.alerts@.take(i as int) =~= self.alerts@);
        out
    }

    /// The number of alerts of `user_id`.
    pub fn count_alerts_by_user(&self, user_id: &str) -> (n: usize)
        ensures
            n == self@.filter(owned_by(user_id@)).len(),
    {
        let mut n: usize = 0;
        let mut i: usize = 0;
        proof {
            self.alerts@.take(0).lemma_all_neg_filter_empty(owned_by(user_id@));
        }
        while i < self.alerts.len()
            invariant
                i <= self.alerts@.len(),
                n <= i,
                n == self.alerts@.take(i as int).filter(owned_by(user_id@)).len(),
            decreases self.alerts@.len() - i,
        {
            proof {
                self.alerts@.lemma_take_succ_push(i as int);
                self.alerts@.take(i as int).lemma_filter_push(
                    self.alerts@[i as int],
                    owned_by(user_id@),
                );
            }
            if str_eq(self.alerts[i].user_id.as_str(), user_id) {
                n += 1;
            }
            i += 1;
        }
        assert(self.alerts@.take(i as int) =~= self.alerts@);
        n
    }

    /// A copy of the alert with the id `id`, if there is one and it belongs to
    /// `user_id`.
    pub fn get_alert_by_user(&self, id: i64, user_id: &str) -> (r: Option<Alert>)
        requires
            self.well_formed(),
        ensures
            r == match lookup(self@, id) {
                Some(a) => if a.user_id@ == user_id@ {
                    Some(a)
                } else {
                    None
                },
                None => None,
            },
    {
        match self.position(id) {
            Some(i) => {
                assert(has_id(self@, id));
                if str_eq(self.alerts[i].user_id.as_str(), user_id) {
                    Some(self.alerts[i].clone())
                } else {
                    None
                }
            },
            None => None,
        }
    }

    /// Changes the alert with the id `id` as `request` says, at `now`, and
    /// returns a copy of the result; nothing where no such alert is there.
    pub fn update_alert(&mut self, id: i64, request: &CreateAlertRequest, now: i64) -> (r: Option<
        Alert,
    >)
        requires
            old(self).well_formed(),
        ensures
            final(self).well_formed(),
            final(self).next_id() == old(self).next_id(),
            r == match lookup(old(self)@, id) {
                Some(a) => Some(revised(a, *request, now)),
                None => None,
            },
            has_id(old(self)@, id) ==> final(self)@ == old(self)@.update(
                index_of_id(old(self)@, id),
                revised(old(self)@[index_of_id(old(self)@, id)], *request, now),
            ),
            !has_id(old(self)@, id) ==> final(self)@ == old(self)@,
    {
        match self.position(id) {
            Some(i) => {
                assert(has_id(self@, id));
                self.alerts[i].symbol = request.symbol.clone();
                self.alerts[i].condition = request.condition;
                self.alerts[i].price = request.price;
                self.alerts[i].notification_email = clone_optional_text(
                    &request.notification_email,
                );
                self.alerts[i].updated_at = now;
                assert(self.alerts@ =~= old(self).alerts@.update(
                    i as int,
                    revised(old(self).alerts@[i as int], *request, now),
                ));
                Some(self.alerts[i].clone())
            },
            None => None,
        }
    }

    /// Removes the alert with the id `id`, and says whether there was one.
    pub fn delete_alert(&mut self, id: i64) -> (removed: bool)
        requires
            old(self).well_formed(),
        ensures
            final(self).well_formed(),
            final(self).next_id() == old(self).next_id(),
            removed == has_id(old(self)@, id),
            removed ==> final(self)@ == old(self)@.remove(index_of_id(old(self)@, id)),
            !removed ==> final(self)@ == old(self)@,
            !has_id(final(self)@, id),
    {
        match self.position(id) {
            Some(i) => {
                assert(has_id(self@, id));
                self.alerts.remove(i);
                assert(!has_id(self@, id)) by {
                    if has_id(self@, id) {
                        let j = index_of_id(self@, id);
                        if j < i {
                            assert(old(self)@[j].id == id);
                        } else {
                            assert(old(self)@[j + 1].id == id);
                        }
                    }
                }
                true
            },
            None => false,
        }
    }

    /// Removes the alert with the id `id` if it belongs to `user_id`, and says
    /// whether it did.
    pub fn delete_alert_by_user(&mut self, id: i64, user_id: &str) -> (removed: bool)
        requires
            old(self).well_formed(),
        ensures
            final(self).well_formed(),
            final(self).next_id() == old(self).next_id(),
            removed == (lookup(old(self)@, id) matches Some(a) && a.user_id@ == user_id@),
            removed ==> final(self)@ == old(self)@.remove(index_of_id(old(self)@, id)),
            !removed ==> final(self)@ == old(self)@,
    {
        match self.position(id) {
            Some(i) => {
                assert(has_id(self@, id));
                if str_eq(self.alerts[i].user_id.as_str(), user_id) {
                    self.alerts.remove(i);
                    true
                } else {
                    false
                }
            },
            None => false,
        }
    }

    /// Removes the alerts that were created more than `retention_hours` hours
    /// before `now`, but for those of the user `default`, and returns their
    /// number.
    pub fn cleanup_old_demo_data(&mut self, retention_hours: u64, now: i64) -> (removed: usize)
        requires
            old(self).well_formed(),
        ensures
            final(self).well_formed(),
            final(self).next_id() == old(self).next_id(),
            final(self)@ == old(self)@.filter(kept_at(now - retention_hours * 3600)),
            removed == old(self)@.len() - final(self)@.len(),
    {
        let cutoff: i128 = (now as i128) - (retention_hours as i128) * 3600;
        let ghost keep = kept_at(now - retention_hours * 3600);
        let mut kept: Vec<Alert> = Vec::new();
        let mut i: usize = 0;
        proof {
            self.alerts@.take(0).lemma_all_neg_filter_empty(keep);
        }
        while i < self.alerts.len()
            invariant
                i <= self.alerts@.len(),
                cutoff == now - retention_hours * 3600,
                keep == kept_at(now - retention_hours * 3600),
                kept@ == self.alerts@.take(i as int).filter(keep),
            decreases self.alerts@.len() - i,
        {
            proof {
                self.alerts@.lemma_take_succ_push(i as int);
                self.alerts@.take(i as int).lemma_filter_push(self.alerts@[i as int], keep);
            }
            if str_eq(self.alerts[i].user_id.as_str(), "default") || self.alerts[i].created_at as i128
                >= cutoff {
                kept.push(self.alerts[i].clone());
            }
            i += 1;
        }
        proof {
            assert(self.alerts@.take(i as int) =~= self.alerts@);
            self.alerts@.lemma_filter_len(keep);
            lemma_filter_keeps_order(self.alerts@, keep, self.next_id);
        }
        let removed = self.alerts.len() - kept.len();
        self.alerts = kept;
        removed
    }

    /// The ids of the alerts that a price of `price` for `symbol` fires: those
    /// that are active, watch the symbol and have their condition met, in the
    /// order of their creation.
    pub fn due_alerts(&self, symbol: &str, price: Price) -> (ids: Vec<i64>)
        ensures
            ids@ == due_ids(self@, symbol@, price),
    {
        let mut ids: Vec<i64> = Vec::new();
        let mut i: usize = 0;
        let ghost due = is_due(symbol@, price);
        proof {
            self.alerts@.take(0).lemma_all_neg_filter_empty(due);
            assert(ids@ =~= self.alerts@.take(0).filter(due).map_values(id_of()));
        }
        while i < self.alerts.len()
            invariant
                i <= self.alerts@.len(),
                due == is_due(symbol@, price),
                ids@ == self.alerts@.take(i as int).filter(due).map_values(id_of()),
            decreases self.alerts@.len() - i,
        {
            proof {
                self.alerts@.lemma_take_succ_push(i as int);
                self.alerts@.take(i as int).lemma_filter_push(self.alerts@[i as int], due);
                self.alerts@.take(i as int).filter(due).lemma_push_map_commute(
                    id_of(),
                    self.alerts@[i as int],
                );
            }
            let alert = &self.alerts[i];
            if alert.status == AlertStatus::Active && str_eq(alert.symbol.as_str(), symbol)
                && alert.is_triggered(price) {
                ids.push(alert.id);
            }
            i += 1;
        }
        assert(self.alerts@.take(i as int) =~= self.alerts@);
        ids
    }

    /// Evaluates the alerts against a price of `price` for `symbol` at `now`:
    /// every alert that is due moves to triggered under the guard that it is
    /// still active, and the ids of the alerts that moved are returned, in the
    /// order of their creation. Each of them is owed one notification.
    pub fn check_alerts(&mut self, symbol: &str, price: Price, now: i64) -> (ids: Vec<i64>)
        requires
            old(self).well_formed(),
        ensures
            final(self).well_formed(),
            final(self).next_id() == old(self).next_id(),
            final(self)@ == settled(old(self)@, symbol@, price, now),
            ids@ == due_ids(old(self)@, symbol@, price),
    {
        let mut ids: Vec<i64> = Vec::new();
        let mut i: usize = 0;
        let ghost due = is_due(symbol@, price);
        let ghost before = self.alerts@;
        proof {
            before.take(0).lemma_all_neg_filter_empty(due);
            assert(ids@ =~= before.take(0).filter(due).map_values(id_of()));
        }
        while i < self.alerts.len()
            invariant
                i <= self.alerts@.len(),
                before == old(self).alerts@,
                old(self).well_formed(),
                self.next_id == old(self).next_id,
                self.alerts@.len() == before.len(),
                due == is_due(symbol@, price),
                ids@ == before.take(i as int).filter(due).map_values(id_of()),
                forall|j: int|
                    0 <= j < i ==> #[trigger] self.alerts@[j] == settle(symbol@, price, now)(before[j]),
                forall|j: int| i <= j < before.len() ==> #[trigger] self.alerts@[j] == before[j],
            decreases self.alerts@.len() - i,
        {
            proof {
                before.lemma_take_succ_push(i as int);
                before.take(i as int).lemma_filter_push(before[i as int], due);
                before.take(i as int).filter(due).lemma_push_map_commute(id_of(), before[i as int]);
            }
            if self.alerts[i].status == AlertStatus::Active && str_eq(
                self.alerts[i].symbol.as_str(),
                symbol,
            ) && self.alerts[i].is_triggered(price) {
                let moved = self.alerts[i].mark_triggered(now);
                if moved {
                    ids.push(self.alerts[i].id);
                }
            }
            i += 1;
        }
        proof {
            assert(before.take(i as int) =~= before);
            assert(self.alerts@ =~= settled(before, symbol@, price, now));
        }
        ids
    }

    /// The symbols that an active alert watches, each once.
    pub fn active_symbols(&self) -> (symbols: Vec<String>)
        ensures
            forall|s: Seq<char>| lists(symbols@, s) <==> watched(self@, s),
            forall|i: int, j: int|
                0 <= i < j < symbols@.len() ==> (#[trigger] symbols@[i])@ != (#[trigger] symbols@[j])@,
    {
        let mut symbols: Vec<String> = Vec::new();
        let mut i: usize = 0;
        while i < self.alerts.len()
            invariant
                i <= self.alerts@.len(),
                forall|s: Seq<char>| lists(symbols@, s) <==> watched(self.alerts@.take(i as int), s),
                forall|a: int, b: int|
                    0 <= a < b < symbols@.len() ==> (#[trigger] symbols@[a])@ != (
                    #[trigger] symbols@[b])@,
            decreases self.alerts@.len() - i,
        {
            let ghost before = symbols@;
            let ghost seen = self.alerts@.take(i as int);
            let ghost next = self.alerts@.take(i + 1);
            let ghost alert = self.alerts@[i as int];
            let mut fresh = false;
            if self.alerts[i].status == AlertStatus::Active {
                let found = has_symbol(&symbols, self.alerts[i].symbol.as_str());
                if !found {
                    symbols.push(self.alerts[i].symbol.clone());
                    fresh = true;
                }
            }
            proof {
                assert(forall|j: int| 0 <= j < seen.len() ==> next[j] == seen[j]);
                assert(next[i as int] == alert);
                assert forall|s: Seq<char>| lists(symbols@, s) <==> watched(next, s) by {
                    assert(lists(before, s) <==> watched(seen, s));
                    if watched(next, s) {
                        let j = choose|j: int|
                            0 <= j < next.len() && (#[trigger] next[j]).status
                                == AlertStatus::Active && next[j].symbol@ == s;
                        if j < i {
                            assert(seen[j].status == AlertStatus::Active && seen[j].symbol@ == s);
                            assert(watched(seen, s));
                            let m = choose|m: int|
                                0 <= m < before.len() && (#[trigger] before[m])@ == s;
                            assert(symbols@[m]@ == s);
                        } else {
                            if fresh {
                                assert(symbols@[before.len() as int]@ == s);
                            }
                        }
                    }
                    if lists(symbols@, s) {
                        let m = choose|m: int|
                            0 <= m < symbols@.len() && (#[trigger] symbols@[m])@ == s;
                        if m < before.len() {
                            assert(before[m]@ == s);
                            assert(lists(before, s));
                            let j = choose|j: int|
                                0 <= j < seen.len() && (#[trigger] seen[j]).status
                                    == AlertStatus::Active && seen[j].symbol@ == s;
                            assert(next[j].status == AlertStatus::Active && next[j].symbol@ == s);
                        } else {
                            assert(next[i as int].status == AlertStatus::Active && next[i as int].symbol@
                                == s);
                        }
                    }
                }
            }
            i += 1;
        }
        assert(self.alerts@.take(i as int) =~= self.alerts@);
        symbols
    }
}

/// An alert that was just created is found under its id, and what is found
/// has the symbol, the condition, the target price and the notification
/// address of the request that created it; it is active and was never
/// triggered.
pub proof fn law_create_then_get(alerts: Seq<Alert>, next_id: i64, request: CreateAlertRequest, now: i64)
    requires
        forall|i: int| 0 <= i < alerts.len() ==> (#[trigger] alerts[i]).id < next_id,
    ensures
        lookup(alerts.push(created(request, next_id, now)), next_id) == Some(
            created(request, next_id, now),
        ),
        created(request, next_id, now).symbol == request.symbol,
        created(request, next_id, now).condition == request.condition,
        created(request, next_id, now).price == request.price,
        created(request, next_id, now).notification_email == request.notification_email,
        created(request, next_id, now).status == AlertStatus::Active,
        created(request, next_id, now).well_formed(),
{
    let after = alerts.push(created(request, next_id, now));
    assert(after[alerts.len() as int].id == next_id);
    let found = index_of_id(after, next_id);
    assert(found == alerts.len()) by {
        if found < alerts.len() {
            assert(after[found] == alerts[found]);
        }
    }
}

/// Records that fit together are all kept: where every record is well formed
/// and has an id of its own in the range of ids, the records that fit are the
/// records themselves.
pub proof fn law_fitting_keeps_what_fits(alerts: Seq<Alert>)
    requires
        distinct_ids(alerts),
        forall|i: int|
            0 <= i < alerts.len() ==> (#[trigger] alerts[i]).well_formed() && 1 <= alerts[i].id
                < i64::MAX,
    ensures
        fitting(alerts) == alerts,
    decreases alerts.len(),
{
    if alerts.len() > 0 {
        let front = alerts.drop_last();
        law_fitting_keeps_what_fits(front);
        assert(!has_id(front, alerts.last().id)) by {
            if has_id(front, alerts.last().id) {
                let j = index_of_id(front, alerts.last().id);
                assert(alerts[j].id == alerts[alerts.len() - 1].id);
            }
        }
        assert(alerts[alerts.len() - 1].well_formed());
        assert(front.push(alerts.last()) =~= alerts);
    }
}

/// Whether one of `alerts` has the id `id`.
fn holds_id(alerts: &Vec<Alert>, id: i64) -> (found: bool)
    ensures
        found == has_id(alerts@, id),
{
    let mut k: usize = 0;
    while k < alerts.len()
        invariant
            k <= alerts@.len(),
            forall|j: int| 0 <= j < k ==> (#[trigger] alerts@[j]).id != id,
        decreases alerts@.len() - k,
    {
        if alerts[k].id == id {
            return true;
        }
        k += 1;
    }
    false
}

/// Whether `symbol` is one of `symbols`.
fn has_symbol(symbols: &Vec<String>, symbol: &str) -> (found: bool)
    ensures
        found == lists(symbols@, symbol@),
{
    let mut k: usize = 0;
    while k < symbols.len()
        invariant
            k <= symbols@.len(),
            forall|j: int| 0 <= j < k ==> (#[trigger] symbols@[j])@ != symbol@,
        decreases symbols@.len() - k,
    {
        if str_eq(symbols[k].as_str(), symbol) {
            return true;
        }
        k += 1;
    }
    false
}

/// What a filter keeps of a well-formed book is a well-formed book.
proof fn lemma_filter_keeps_order(alerts: Seq<Alert>, keep: spec_fn(Alert) -> bool, next_id: i64)
    requires
        distinct_ids(alerts),
        forall|i: int|
            0 <= i < alerts.len() ==> (#[trigger] alerts[i]).well_formed() && 1 <= alerts[i].id
                < next_id,
    ensures
        distinct_ids(alerts.filter(keep)),
        forall|i: int|
            0 <= i < alerts.filter(keep).len() ==> (#[trigger] alerts.filter(keep)[i]).well_formed()
                && 1 <= alerts.filter(keep)[i].id < next_id,
        forall|i: int|
            0 <= i < alerts.filter(keep).len() ==> has_id(alerts, (#[trigger] alerts.filter(keep)[i]).id),
    decreases alerts.len(),
{
    reveal(Seq::filter);
    if alerts.len() > 0 {
        let front = alerts.drop_last();
        lemma_filter_keeps_order(front, keep, next_id);
        let kept = alerts.filter(keep);
        let kept_front = front.filter(keep);
        assert forall|i: int| 0 <= i < kept_front.len() implies has_id(
            alerts,
            (#[trigger] kept_front[i]).id,
        ) by {
            let j = index_of_id(front, kept_front[i].id);
            assert(alerts[j].id == kept_front[i].id);
        }
        if keep(alerts.last()) {
            assert forall|i: int, j: int| 0 <= i < j < kept.len() implies (#[trigger] kept[i]).id != (
            #[trigger] kept[j]).id by {
                if j == kept.len() - 1 {
                    let m = index_of_id(front, kept_front[i].id);
                    assert(alerts[m].id == kept[i].id);
                }
            }
            assert(alerts[alerts.len() - 1].id == alerts.last().id);
        }
    }
}

} // verus!
