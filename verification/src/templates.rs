//! What the pages show: alerts with every value as text, and page titles.

use vstd::prelude::*;
use vstd::string::*;
use crate::text::text_of;
use crate::clock::{format_timestamp, timestamp_text};
use crate::decimal::Price;
use crate::models::{Alert, AlertCondition};

verus! {

/// What every page has.
#[derive(Debug)]
pub struct BaseTemplate {
    pub title: String,
}

/// A strategy as the dashboard lists it.
#[derive(Debug)]
pub struct StrategyInfo {
    pub name: String,
    pub signal_count: i32,
    /// The markets the strategy is meant for, in words.
    pub market_type: String,
}

/// An alert with its condition, status and times as text.
#[derive(Debug)]
pub struct AlertForTemplate {
    pub id: i64,
    pub symbol: String,
    pub condition: String,
    pub price: Price,
    pub status: String,
    pub created_at: String,
    pub updated_at: String,
    pub triggered_at: Option<String>,
    pub notification_email: Option<String>,
}

/// The page that lists alerts.
#[derive(Debug)]
pub struct IndexTemplate {
    pub base: BaseTemplate,
    pub alerts: Vec<AlertForTemplate>,
}

/// The page that creates or edits an alert.
#[derive(Debug)]
pub struct AlertFormTemplate {
    pub base: BaseTemplate,
    pub alert: Option<AlertForTemplate>,
}

/// A moment as the pages show it; empty where the calendar does not cover it.
pub open spec fn shown_time(secs: i64) -> Seq<char> {
    match timestamp_text(secs as int) {
        Some(text) => text,
        None => Seq::empty(),
    }
}

/// Whether `shown` is `alert` as the pages show it.
pub open spec fn shows(shown: AlertForTemplate, alert: Alert) -> bool {
    &&& shown.id == alert.id
    &&& shown.symbol == alert.symbol
    &&& shown.condition@ == match alert.condition {
        AlertCondition::Above => "Above"@,
        AlertCondition::Below => "Below"@,
    }
    &&& shown.price == alert.price
    &&& shown.status@ == alert.status.text()
    &&& shown.created_at@ == shown_time(alert.created_at)
    &&& shown.updated_at@ == shown_time(alert.updated_at)
    &&& text_of(shown.triggered_at) == match alert.triggered_at {
        Some(at) => Some(shown_time(at)),
        None => None,
    }
    &&& shown.notification_email == alert.notification_email
}

/// A moment as the pages show it.
fn show_time(secs: i64) -> (text: String)
    ensures
        text@ == shown_time(secs),
{
    match format_timestamp(secs) {
        Some(text) => text,
        None => String::new(),
    }
}

impl AlertForTemplate {
    /// The alert as the pages show it.
    pub fn from(alert: Alert) -> (shown: AlertForTemplate)
        ensures
            shows(shown, alert),
    {
        AlertForTemplate {
            id: alert.id,
            symbol: alert.symbol,
            condition: String::from_str(alert.condition.label()),
            price: alert.price,
            status: String::from_str(alert.status.as_str()),
            created_at: show_time(alert.created_at),
            updated_at: show_time(alert.updated_at),
            triggered_at: match alert.triggered_at {
                Some(at) => Some(show_time(at)),
                None => None,
            },
            notification_email: alert.notification_email,
        }
    }
}

impl IndexTemplate {
    /// The list page for `alerts`, in their order.
    pub fn new(alerts: Vec<Alert>) -> (page: IndexTemplate)
        ensures
            page.base.title@ == "预警列表"@,
            page.alerts@.len() == alerts@.len(),
            forall|i: int| 0 <= i < alerts@.len() ==> shows(#[trigger] page.alerts@[i], alerts@[i]),
    {
        let mut alerts = alerts;
        let ghost given = alerts@;
        let mut shown: Vec<AlertForTemplate> = Vec::new();
        while alerts.len() > 0
            invariant
                shown@.len() + alerts@.len() == given.len(),
                forall|i: int| 0 <= i < alerts@.len() ==> alerts@[i] == given[i],
                forall|i: int|
                    0 <= i < shown@.len() ==> shows(
                        #[trigger] shown@[i],
                        given[given.len() - 1 - i],
                    ),
            decreases alerts@.len(),
        {
            match alerts.pop() {
                Some(alert) => {
                    shown.push(AlertForTemplate::from(alert));
                },
                None => {},
            }
        }
        let mut ordered: Vec<AlertForTemplate> = Vec::new();
        while shown.len() > 0
            invariant
                shown@.len() + ordered@.len() == given.len(),
                forall|i: int|
                    0 <= i < shown@.len() ==> shows(
                        #[trigger] shown@[i],
                        given[given.len() - 1 - i],
                    ),
                forall|i: int| 0 <= i < ordered@.len() ==> shows(#[trigger] ordered@[i], given[i]),
            decreases shown@.len(),
        {
            match shown.pop() {
                Some(one) => {
                    ordered.push(one);
                },
                None => {},
            }
        }
        IndexTemplate { base: BaseTemplate { title: String::from_str("预警列表") }, alerts: ordered }
    }
}

impl AlertFormTemplate {
    /// The form page: for editing `alert` where one is given, for creating an
    /// alert where none is.
    pub fn new(alert: Option<Alert>) -> (page: AlertFormTemplate)
        ensures
            page.base.title@ == if alert is Some {
                "编辑预警"@
            } else {
                "创建预警"@
            },
            match alert {
                Some(a) => page.alert matches Some(shown) && shows(shown, a),
                None => page.alert is None,
            },
    {
        match alert {
            Some(a) => AlertFormTemplate {
                base: BaseTemplate { title: String::from_str("编辑预警") },
                alert: Some(AlertForTemplate::from(a)),
            },
            None => AlertFormTemplate {
                base: BaseTemplate { title: String::from_str("创建预警") },
                alert: None,
            },
        }
    }
}

/// The strategies the dashboard lists: the limit-up pullback watch of the
/// domestic market, which counts no signals yet, and the breakout watch of all
/// markets with `breakout_signals` signals.
pub fn get_strategy_summaries(breakout_signals: i32) -> (r: Vec<StrategyInfo>)
    ensures
        r@.len() == 2,
        r@[0].name@ == "涨停回踩监控"@,
        r@[0].signal_count == 0,
        r@[0].market_type@ == "A股专用"@,
        r@[1].name@ == "突破预警"@,
        r@[1].signal_count == breakout_signals,
        r@[1].market_type@ == "全市场"@,
{
    let mut r: Vec<StrategyInfo> = Vec::new();
    r.push(
        StrategyInfo {
            name: String::from_str("涨停回踩监控"),
            signal_count: 0,
            market_type: String::from_str("A股专用"),
        },
    );
    r.push(
        StrategyInfo {
            name: String::from_str("突破预警"),
            signal_count: breakout_signals,
            market_type: String::from_str("全市场"),
        },
    );
    r
}

} // verus!
