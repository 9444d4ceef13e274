//! Verified core of an HTTP health-check ("probe") pipeline.
//!
//! The crate covers the parts of a probe run that are pure logic: turning a
//! probe definition into a request descriptor, classifying the outcome of a
//! dispatch into a result record, and the alert payload data contract with
//! its serialized form. Network dispatch and the expectation validator live
//! outside the crate and exchange plain values with it.

pub mod alerts;
pub mod http_probe;
pub mod probe;
