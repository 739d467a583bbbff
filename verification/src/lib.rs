//! Quota accounting for LLM subscriptions.

pub mod adapter;
pub mod amount;
pub mod app;
pub mod claude;
pub mod client;
pub mod domain;
pub mod error;
pub mod ids;
pub mod metrics;
pub mod num;
pub mod order;
pub mod protocol;
pub mod rollover;
pub mod session;
pub mod storage;
pub mod text;
pub mod time;
pub mod ui;
