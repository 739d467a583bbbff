//! The subscription adapter.
//!
//! Usage is exposed as *headroom percentages*, not raw counts: a rolling
//! 5-hour session window and rolling weekly windows (separate Opus/Sonnet
//! buckets on Max plans). Hitting a cap hard-blocks new prompts.

pub mod adapter;
pub mod credentials;
pub mod laws;
pub mod parser;
pub mod probe;
pub mod slug;
