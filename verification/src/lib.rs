//! Verified core of a crawl worker: lease handling, per-response
//! classification, batch assembly, and the worker state machine.

pub mod batch;
pub mod digest;
pub mod encode;
pub mod fetch;
pub mod hex;
pub mod html;
pub mod model;
pub mod worker;
