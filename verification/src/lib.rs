//! Verified core of a price-alert service.
//!
//! The crate holds the decisions of the service as plain functions on plain
//! values: parsing of upstream quote replies, the price cache, the hourly
//! request budget, retry and fallback rules, the alert state machine and the
//! per-symbol pipeline. Network, storage, time-outs and mail transport are left
//! to the caller, which performs the actions the pipeline asks for and hands
//! the outcomes back.

pub mod text;
pub mod decimal;
pub mod models;
pub mod errors;
pub mod routing;
pub mod adapters;
pub mod cache;
pub mod budget;
pub mod retry;
pub mod fallback;
pub mod store;
pub mod evaluator;
pub mod history;
pub mod config;
mod clock;
pub mod service;
pub mod market;
pub mod notify;
pub mod templates;
pub mod identity;
