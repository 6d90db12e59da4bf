//! State, rules and request building of a terminal client for a log-aggregation
//! service: the screens' state machine, the filter panel and the criteria it
//! compiles, the scrolling log view with its live-tail insertion, and the queries
//! sent to the service together with the reading of its replies.

pub mod api;
pub mod app;
pub mod config;
pub mod input;
pub mod text;
pub mod time;
pub mod ui;
pub mod utils;
