//! Clipboard history core: a bounded, deduplicating, most-recent-first store of
//! clipboard entries, the poller that feeds it, and the panel state machine that
//! lets a user pick an earlier entry again.

mod clock;
pub mod history;
pub mod links;
pub mod models;
pub mod monitor;
pub mod panel;
pub mod pasteboard;
pub mod view;
