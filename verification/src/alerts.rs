//! Alerting data contracts.

pub mod model;
