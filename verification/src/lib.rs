//! A watcher for RSS-style feed sources: each source is polled on its own
//! interval, items newer than a per-source watermark are detected, and every
//! batch of new items is fanned out to the configured chat notifiers.
//!
//! The polling and dispatch engine is verified: the watermark discipline,
//! the new-item filter, the chunking of batches for each notifier, the
//! bounded retry policy around fetches, and the token-refresh discipline of
//! the QQ-style notifiers. Network transport, XML deserialization and
//! process plumbing live in the surrounding application crate.

pub mod byrbt;
pub mod config;
pub mod dispatch;
pub mod errors;
pub mod item;
pub mod mikan;
pub mod mikan_rss;
pub mod notify;
pub mod poll;
pub mod retry;
pub mod time;
pub mod tjupt;

pub use byrbt::Byrbt;
pub use byrbt::ByrbtRSSContent;
pub use byrbt::ByrbtSource;
pub use config::ByrbtConfig;
pub use config::ClapConfig;
pub use config::Config;
pub use config::MikanConfig;
pub use config::QQBotConfig;
pub use config::TjuptConfig;
pub use errors::Error;
pub use item::Item;
pub use mikan::Mikan;
pub use mikan_rss::MikanRSSContent;
pub use poll::FetchOutcome;
pub use poll::PollState;
pub use poll::TickPlan;
pub use poll::Watermark;
pub use retry::RetryPolicy;
pub use time::Timestamp;
pub use tjupt::Tjupt;
pub use tjupt::TjuptRSSContent;
pub use tjupt::TjuptSource;
