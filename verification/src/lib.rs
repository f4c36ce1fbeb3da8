//! Verified core of the battery monitor: the decisions, text building and
//! bookkeeping of the history store, the battery state tracker, the
//! configuration and the monitoring service, with the I/O left to the
//! application around it.

pub mod text;
pub mod decimal;
pub mod clock;
pub mod down_sample;
pub mod charge;
pub mod config;
pub mod store;
pub mod insertion;
pub mod processor;
pub mod service;
pub mod system_status;
