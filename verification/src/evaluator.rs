//! The trigger rules, and what holds of every evaluation.
//!
//! An evaluation compares one fresh price with the active alerts of its
//! symbol. An alert whose condition is met is moved to triggered by a guarded
//! update, one that only an active alert passes, and whoever made the update
//! pass owes the alert's owner one notification. The guard is what keeps two
//! evaluations from firing the same alert twice.

use vstd::prelude::*;
use crate::decimal::Price;
use crate::models::{Alert, AlertCondition, AlertStatus};
use crate::store::{distinct_ids, due_ids, is_due, marked, settle, settled, AlertBook};

verus! {

/// What became of one guarded update.
#[derive(Clone, Copy, Debug, PartialEq, Eq, Structural)]
pub enum UpdateOutcome {
    /// The update changed this many records.
    Changed(u64),
    /// The store reported a failure.
    Failed,
}

/// What an evaluation does for an alert after its guarded update.
#[derive(Clone, Copy, Debug, PartialEq, Eq, Structural)]
pub enum AfterUpdate {
    /// The update passed: send the notification.
    Notify,
    /// The update found the alert no longer active: someone else handled it.
    AlreadyHandled,
    /// The update failed: leave this alert, go on with the next.
    Abandon,
}

/// Decides what follows the guarded update of a due alert: a notification
/// exactly where the update changed a record.
pub fn after_conditional_update(outcome: UpdateOutcome) -> (next: AfterUpdate)
    ensures
        next == match outcome {
            UpdateOutcome::Changed(n) => if n > 0 {
                AfterUpdate::Notify
            } else {
                AfterUpdate::AlreadyHandled
            },
            UpdateOutcome::Failed => AfterUpdate::Abandon,
        },
{
    match outcome {
        UpdateOutcome::Changed(n) => if n > 0 {
            AfterUpdate::Notify
        } else {
            AfterUpdate::AlreadyHandled
        },
        UpdateOutcome::Failed => AfterUpdate::Abandon,
    }
}

/// Books in `book` what became of the guarded update of the alert `id` in
/// storage at `now`, and decides what follows.
///
/// An update that storage made, whether it changed the record or found it no
/// longer active, leaves the alert triggered in `book` as well: the guard of
/// the book lets only an active alert move, so a trigger time that is there
/// stays. A failed update leaves `book` as it was. A notification follows
/// exactly where the update changed a record.
pub fn settle_update(book: &mut AlertBook, id: i64, outcome: UpdateOutcome, now: i64) -> (next:
    AfterUpdate)
    requires
        old(book).well_formed(),
    ensures
        final(book).well_formed(),
        final(book).next_id() == old(book).next_id(),
        next == match outcome {
            UpdateOutcome::Changed(n) => if n > 0 {
                AfterUpdate::Notify
            } else {
                AfterUpdate::AlreadyHandled
            },
            UpdateOutcome::Failed => AfterUpdate::Abandon,
        },
        final(book)@ == match outcome {
            UpdateOutcome::Changed(_) => marked(old(book)@, id, now),
            UpdateOutcome::Failed => old(book)@,
        },
{
    match outcome {
        UpdateOutcome::Changed(_) => {
            book.mark_alert_triggered(id, now);
        },
        UpdateOutcome::Failed => {},
    }
    after_conditional_update(outcome)
}

/// Every id that an evaluation reports is the id of an alert that was due.
proof fn lemma_due_ids_are_due(alerts: Seq<Alert>, symbol: Seq<char>, price: Price, k: int)
    requires
        0 <= k < due_ids(alerts, symbol, price).len(),
    ensures
        exists|i: int|
            0 <= i < alerts.len() && (#[trigger] alerts[i]).due(symbol, price) && alerts[i].id
                == due_ids(alerts, symbol, price)[k],
    decreases alerts.len(),
{
    reveal(Seq::filter);
    let due = is_due(symbol, price);
    if alerts.len() > 0 {
        let front = alerts.drop_last();
        let kept = front.filter(due);
        if due(alerts.last()) && k == kept.len() {
            assert(alerts[alerts.len() - 1].due(symbol, price));
        } else {
            lemma_due_ids_are_due(front, symbol, price, k);
            let i = choose|i: int|
                0 <= i < front.len() && (#[trigger] front[i]).due(symbol, price) && front[i].id
                    == due_ids(front, symbol, price)[k];
            assert(alerts[i] == front[i]);
        }
    }
}

/// An alert that is active, watches the evaluated symbol and has its
/// condition met is triggered by the evaluation, stamped with the time of the
/// evaluation, and reported for notification; any other alert is left as it is
/// and not reported.
pub proof fn law_evaluation_triggers_what_is_due(
    alerts: Seq<Alert>,
    symbol: Seq<char>,
    price: Price,
    now: i64,
    i: int,
)
    requires
        0 <= i < alerts.len(),
        distinct_ids(alerts),
    ensures
        alerts[i].due(symbol, price) ==> {
            &&& settled(alerts, symbol, price, now)[i].status == AlertStatus::Triggered
            &&& settled(alerts, symbol, price, now)[i].triggered_at == Some(now)
            &&& due_ids(alerts, symbol, price).contains(alerts[i].id)
        },
        !alerts[i].due(symbol, price) ==> {
            &&& settled(alerts, symbol, price, now)[i] == alerts[i]
            &&& !due_ids(alerts, symbol, price).contains(alerts[i].id)
        },
{
    let due = is_due(symbol, price);
    let ids = due_ids(alerts, symbol, price);
    if alerts[i].due(symbol, price) {
        alerts.lemma_filter_contains(due, i);
        let k = choose|k: int| 0 <= k < alerts.filter(due).len() && alerts.filter(due)[k] == alerts[i];
        assert(ids[k] == alerts[i].id);
    } else {
        if ids.contains(alerts[i].id) {
            let k = choose|k: int| 0 <= k < ids.len() && ids[k] == alerts[i].id;
            lemma_due_ids_are_due(alerts, symbol, price, k);
            let j = choose|j: int|
                0 <= j < alerts.len() && (#[trigger] alerts[j]).due(symbol, price) && alerts[j].id
                    == ids[k];
            assert(j == i);
        }
    }
}

/// No alert is reported twice by one evaluation.
pub proof fn law_evaluation_reports_each_alert_once(
    alerts: Seq<Alert>,
    symbol: Seq<char>,
    price: Price,
)
    requires
        distinct_ids(alerts),
    ensures
        due_ids(alerts, symbol, price).no_duplicates(),
    decreases alerts.len(),
{
    reveal(Seq::filter);
    let due = is_due(symbol, price);
    if alerts.len() > 0 {
        let front = alerts.drop_last();
        law_evaluation_reports_each_alert_once(front, symbol, price);
        let ids = due_ids(alerts, symbol, price);
        let front_ids = due_ids(front, symbol, price);
        if due(alerts.last()) {
            assert forall|a: int, b: int| 0 <= a < ids.len() && 0 <= b < ids.len() && a != b implies ids[a]
                != ids[b] by {
                let last = ids.len() - 1;
                if a < last && b < last {
                    assert(ids[a] == front_ids[a] && ids[b] == front_ids[b]);
                } else {
                    let other = if a < last {
                        a
                    } else {
                        b
                    };
                    assert(ids[other] == front_ids[other]);
                    lemma_due_ids_are_due(front, symbol, price, other);
                    let j = choose|j: int|
                        0 <= j < front.len() && (#[trigger] front[j]).due(symbol, price)
                            && front[j].id == front_ids[other];
                    assert(alerts[j] == front[j]);
                    assert(alerts[alerts.len() - 1].id == ids[last]);
                }
            }
        } else {
            assert(ids =~= front_ids);
        }
    }
}

/// An evaluation that is made again, for the same symbol and whatever the
/// price and the time, reports none of the alerts that the first one fired and
/// leaves them as the first one left them. Made again with the same price, it
/// reports nothing and changes nothing.
pub proof fn law_evaluation_is_idempotent(
    alerts: Seq<Alert>,
    symbol: Seq<char>,
    price: Price,
    now: i64,
    later_price: Price,
    later: i64,
)
    requires
        distinct_ids(alerts),
    ensures
        forall|id: i64|
            due_ids(alerts, symbol, price).contains(id) ==> !due_ids(
                settled(alerts, symbol, price, now),
                symbol,
                later_price,
            ).contains(id),
        forall|i: int|
            0 <= i < alerts.len() && (#[trigger] alerts[i]).due(symbol, price) ==> settled(
                settled(alerts, symbol, price, now),
                symbol,
                later_price,
                later,
            )[i] == settled(alerts, symbol, price, now)[i],
        due_ids(settled(alerts, symbol, price, now), symbol, price) == Seq::<i64>::empty(),
        settled(settled(alerts, symbol, price, now), symbol, price, later) == settled(
            alerts,
            symbol,
            price,
            now,
        ),
{
    let once = settled(alerts, symbol, price, now);
    assert(distinct_ids(once));
    assert forall|id: i64| due_ids(alerts, symbol, price).contains(id) implies !due_ids(
        once,
        symbol,
        later_price,
    ).contains(id) by {
        let ids = due_ids(alerts, symbol, price);
        let k = choose|k: int| 0 <= k < ids.len() && ids[k] == id;
        lemma_due_ids_are_due(alerts, symbol, price, k);
        let i = choose|i: int|
            0 <= i < alerts.len() && (#[trigger] alerts[i]).due(symbol, price) && alerts[i].id
                == ids[k];
        assert(once[i].status == AlertStatus::Triggered);
        assert(once[i].id == id);
        law_evaluation_triggers_what_is_due(once, symbol, later_price, later, i);
    }
    assert forall|x: Alert| !(#[trigger] is_due(symbol, price)(settle(symbol, price, now)(x))) by {}
    assert(once.all(|x: Alert| !is_due(symbol, price)(x)));
    once.lemma_all_neg_filter_empty(is_due(symbol, price));
    assert(due_ids(once, symbol, price) =~= Seq::<i64>::empty());
    assert(settled(once, symbol, price, later) =~= once);
}

/// Of two guarded updates of the same alert, at most one passes: once an
/// active alert was triggered, it is not active, a second update finds it so
/// and leaves the first trigger time in place.
pub proof fn law_guarded_update_passes_once(alert: Alert, first: i64, second: i64)
    requires
        alert.well_formed(),
        alert.status == AlertStatus::Active,
    ensures
        alert.triggered(first).status == AlertStatus::Triggered,
        alert.triggered(first).triggered_at == Some(first),
        alert.triggered(first).well_formed(),
        alert.triggered(first).with_status(AlertStatus::Triggered, second) == alert.triggered(first),
        !alert.triggered(first).status.may_become(AlertStatus::Active),
{
}

/// For an alert that fires when the price is at or above its target, any
/// price at or above the target meets the condition; for one that fires at or
/// below, any price at or below it does; and no other price does.
pub proof fn law_condition_is_a_threshold(alert: Alert, price: Price)
    ensures
        alert.condition == AlertCondition::Above ==> (alert.condition_met(price) <==> price@
            >= alert.price@),
        alert.condition == AlertCondition::Below ==> (alert.condition_met(price) <==> price@
            <= alert.price@),
{
}

} // verus!
