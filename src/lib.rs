//! A chat-bot core that links chat users to a music-statistics account,
//! renders the statistics it fetches, and keeps per-user usage records.

pub mod clock;
pub mod commands;
pub mod detail;
pub mod error;
pub mod invocation;
pub mod json;
pub mod numeric;
pub mod render;
pub mod stats;
pub mod store;
