//! The alert record and the values it is made of.

use vstd::prelude::*;
use vstd::std_specs::convert::FromSpecImpl;
use crate::decimal::Price;
use crate::text::str_eq;

verus! {

/// The side of the target price on which an alert fires.
#[derive(Clone, Copy, Debug, PartialEq, Eq, Structural)]
pub enum AlertCondition {
    Above,
    Below,
}

impl AlertCondition {
    /// Whether a price of `current` meets this condition for a target of
    /// `target`: at or above it for `Above`, at or below it for `Below`.
    pub open spec fn met_by(self, current: Price, target: Price) -> bool {
        match self {
            AlertCondition::Above => current@ >= target@,
            AlertCondition::Below => current@ <= target@,
        }
    }

    /// The name shown to people.
    pub fn label(&self) -> (s: &'static str)
        ensures
            s@ == match *self {
                AlertCondition::Above => "Above"@,
                AlertCondition::Below => "Below"@,
            },
    {
        match self {
            AlertCondition::Above => "Above",
            AlertCondition::Below => "Below",
        }
    }

    /// The text stored for this condition.
    pub fn as_db_str(&self) -> (s: &'static str)
        ensures
            s@ == match *self {
                AlertCondition::Above => "above"@,
                AlertCondition::Below => "below"@,
            },
    {
        match self {
            AlertCondition::Above => "above",
            AlertCondition::Below => "below",
        }
    }

    /// Reads a stored condition; any other text is none.
    pub fn from_db_str(s: &str) -> (r: Option<AlertCondition>)
        ensures
            r == if s@ == "above"@ {
                Some(AlertCondition::Above)
            } else if s@ == "below"@ {
                Some(AlertCondition::Below)
            } else {
                None
            },
    {
        if str_eq(s, "above") {
            Some(AlertCondition::Above)
        } else if str_eq(s, "below") {
            Some(AlertCondition::Below)
        } else {
            None
        }
    }
}

/// Where an alert stands in its life cycle.
#[derive(Clone, Copy, Debug, PartialEq, Eq, Structural)]
pub enum AlertStatus {
    Active,
    Triggered,
    Cancelled,
}

impl AlertStatus {
    /// Whether an alert in this status may be found in `next` later on: an
    /// active alert may become anything, the other two stay what they are.
    pub open spec fn may_become(self, next: AlertStatus) -> bool {
        self == next || self == AlertStatus::Active
    }

    /// The text stored and shown for this status.
    pub open spec fn text(self) -> Seq<char> {
        match self {
            AlertStatus::Active => "active"@,
            AlertStatus::Triggered => "triggered"@,
            AlertStatus::Cancelled => "cancelled"@,
        }
    }

    /// The text stored and shown for this status.
    pub fn as_str(&self) -> (s: &'static str)
        ensures
            s@ == self.text(),
    {
        match self {
            AlertStatus::Active => "active",
            AlertStatus::Triggered => "triggered",
            AlertStatus::Cancelled => "cancelled",
        }
    }

    /// Reads a stored status; any other text is none.
    pub fn from_db_str(s: &str) -> (r: Option<AlertStatus>)
        ensures
            r == if s@ == "active"@ {
                Some(AlertStatus::Active)
            } else if s@ == "triggered"@ {
                Some(AlertStatus::Triggered)
            } else if s@ == "cancelled"@ {
                Some(AlertStatus::Cancelled)
            } else {
                None
            },
    {
        if str_eq(s, "active") {
            Some(AlertStatus::Active)
        } else if str_eq(s, "triggered") {
            Some(AlertStatus::Triggered)
        } else if str_eq(s, "cancelled") {
            Some(AlertStatus::Cancelled)
        } else {
            None
        }
    }

    /// Whether `other` is the text of this status.
    pub fn matches_str(&self, other: &str) -> (r: bool)
        ensures
            r == (other@ == self.text()),
    {
        str_eq(other, self.as_str())
    }
}

/// Where a price sample came from.
#[derive(Clone, Copy, Debug, PartialEq, Eq, Structural)]
pub enum SourceTag {
    /// The first source asked for the symbol's market.
    Primary,
    /// The second source of the domestic market.
    Secondary,
    /// Made up from the last known price.
    Fallback,
}

/// A threshold rule on one symbol. Times are seconds since the Unix epoch.
#[derive(Debug)]
pub struct Alert {
    pub id: i64,
    pub symbol: String,
    pub condition: AlertCondition,
    pub price: Price,
    pub status: AlertStatus,
    pub created_at: i64,
    pub updated_at: i64,
    pub triggered_at: Option<i64>,
    pub notification_email: Option<String>,
    pub user_id: String,
}

/// A copy of an optional text.
pub fn clone_optional_text(t: &Option<String>) -> (r: Option<String>)
    ensures
        r == *t,
{
    match t {
        Some(s) => Some(s.clone()),
        None => None,
    }
}

impl Clone for Alert {
    fn clone(&self) -> (r: Self)
        ensures
            r == *self,
    {
        Alert {
            id: self.id,
            symbol: self.symbol.clone(),
            condition: self.condition,
            price: self.price,
            status: self.status,
            created_at: self.created_at,
            updated_at: self.updated_at,
            triggered_at: self.triggered_at,
            notification_email: clone_optional_text(&self.notification_email),
            user_id: self.user_id.clone(),
        }
    }
}

impl Alert {
    /// The record keeps its trigger time exactly while it is triggered.
    pub open spec fn well_formed(&self) -> bool {
        (self.status == AlertStatus::Triggered) <==> self.triggered_at is Some
    }

    /// Whether `current_price` meets the alert's condition.
    pub open spec fn condition_met(&self, current_price: Price) -> bool {
        self.condition.met_by(current_price, self.price)
    }

    /// Whether an evaluation of `symbol` at `current_price` fires this alert:
    /// it is active, it watches that symbol, and its condition is met.
    pub open spec fn due(&self, symbol: Seq<char>, current_price: Price) -> bool {
        &&& self.status == AlertStatus::Active
        &&& self.symbol@ == symbol
        &&& self.condition_met(current_price)
    }

    /// This alert after a trigger at `now`.
    pub open spec fn triggered(self, now: i64) -> Alert {
        Alert {
            status: AlertStatus::Triggered,
            triggered_at: Some(now),
            updated_at: now,
            ..self
        }
    }

    /// This alert after its status was set to `status` at `now`. A status that
    /// an alert may not move to leaves it as it is; so does its own.
    pub open spec fn with_status(self, status: AlertStatus, now: i64) -> Alert {
        if self.status == AlertStatus::Active && status == AlertStatus::Triggered {
            self.triggered(now)
        } else if self.status == AlertStatus::Active && status == AlertStatus::Cancelled {
            Alert { status: AlertStatus::Cancelled, updated_at: now, ..self }
        } else {
            self
        }
    }

    /// Whether `current_price` meets the alert's condition: at or above the
    /// target for `Above`, at or below it for `Below`.
    pub fn is_triggered(&self, current_price: Price) -> (r: bool)
        ensures
            r == self.condition_met(current_price),
    {
        match self.condition {
            AlertCondition::Above => current_price.micros >= self.price.micros,
            AlertCondition::Below => current_price.micros <= self.price.micros,
        }
    }

    /// Moves an active alert to triggered and stamps it with `now`; leaves any
    /// other alert untouched. Says whether the alert moved.
    pub fn mark_triggered(&mut self, now: i64) -> (moved: bool)
        ensures
            moved == (old(self).status == AlertStatus::Active),
            moved ==> *final(self) == old(self).triggered(now),
            !moved ==> *final(self) == *old(self),
            old(self).well_formed() ==> final(self).well_formed(),
            old(self).status.may_become(final(self).status),
    {
        match self.status {
            AlertStatus::Active => {
                self.status = AlertStatus::Triggered;
                self.triggered_at = Some(now);
                self.updated_at = now;
                true
            },
            _ => false,
        }
    }

    /// Sets the status at `now` as far as the life cycle allows: an active
    /// alert may be triggered or cancelled, nothing else moves. Says whether
    /// the alert has the wanted status afterwards.
    pub fn set_status(&mut self, status: AlertStatus, now: i64) -> (done: bool)
        ensures
            *final(self) == old(self).with_status(status, now),
            done == (final(self).status == status),
            done == old(self).status.may_become(status),
            old(self).well_formed() ==> final(self).well_formed(),
            old(self).status.may_become(final(self).status),
    {
        match (self.status, status) {
            (AlertStatus::Active, AlertStatus::Triggered) => {
                self.status = AlertStatus::Triggered;
                self.triggered_at = Some(now);
                self.updated_at = now;
                true
            },
            (AlertStatus::Active, AlertStatus::Cancelled) => {
                self.status = AlertStatus::Cancelled;
                self.updated_at = now;
                true
            },
            (AlertStatus::Active, AlertStatus::Active) => true,
            (AlertStatus::Triggered, AlertStatus::Triggered) => true,
            (AlertStatus::Cancelled, AlertStatus::Cancelled) => true,
            _ => false,
        }
    }
}

/// What a caller supplies to create or change an alert.
#[derive(Debug)]
pub struct CreateAlertRequest {
    pub symbol: String,
    pub condition: AlertCondition,
    pub price: Price,
    pub notification_email: Option<String>,
    pub user_id: String,
}

/// An alert as it is handed to API callers.
#[derive(Debug)]
pub struct AlertResponse {
    pub id: i64,
    pub symbol: String,
    pub condition: AlertCondition,
    pub price: Price,
    pub status: AlertStatus,
    pub created_at: i64,
    pub updated_at: i64,
    pub triggered_at: Option<i64>,
    pub notification_email: Option<String>,
}

impl From<Alert> for AlertResponse {
    fn from(alert: Alert) -> (r: AlertResponse) {
        AlertResponse {
            id: alert.id,
            symbol: alert.symbol,
            condition: alert.condition,
            price: alert.price,
            status: alert.status,
            created_at: alert.created_at,
            updated_at: alert.updated_at,
            triggered_at: alert.triggered_at,
            notification_email: alert.notification_email,
        }
    }
}

impl FromSpecImpl<Alert> for AlertResponse {
    open spec fn obeys_from_spec() -> bool {
        true
    }

    open spec fn from_spec(alert: Alert) -> AlertResponse {
        AlertResponse {
            id: alert.id,
            symbol: alert.symbol,
            condition: alert.condition,
            price: alert.price,
            status: alert.status,
            created_at: alert.created_at,
            updated_at: alert.updated_at,
            triggered_at: alert.triggered_at,
            notification_email: alert.notification_email,
        }
    }
}

/// One normalized observation of a symbol's price. A sample that a source
/// gave or that the pipeline delivers is well formed: its price is above zero
/// and its volume is not below zero.
#[derive(Debug)]
pub struct PriceSample {
    pub symbol: String,
    pub price: Price,
    pub volume: i64,
    /// Seconds since the Unix epoch at which the sample was taken.
    pub timestamp: i64,
    pub source: SourceTag,
    /// The instrument's display name, where the source gave one.
    pub name: Option<String>,
}

impl PriceSample {
    /// The price is above zero and the volume is not below zero.
    pub open spec fn well_formed(&self) -> bool {
        self.price@ > 0 && self.volume >= 0
    }
}

impl Clone for PriceSample {
    fn clone(&self) -> (r: Self)
        ensures
            r == *self,
    {
        PriceSample {
            symbol: self.symbol.clone(),
            price: self.price,
            volume: self.volume,
            timestamp: self.timestamp,
            source: self.source,
            name: clone_optional_text(&self.name),
        }
    }
}

} // verus!
