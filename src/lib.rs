//! Verified core of a fan-out transport benchmark: per-channel drivers,
//! partial-failure aggregation and progress accounting.
pub mod connection;
pub mod limits;
pub mod outcome;
pub mod progress;
pub mod request;
pub mod run;
pub mod transfer;
