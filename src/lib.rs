//! Event-to-history reconciliation for a chat bot: it records username and
//! avatar changes and deleted messages of chat users, and answers paginated
//! history queries sent to it as chat commands.
//!
//! - `record`: the records and events the library reads and stores.
//! - `timeline`: time-descending collections.
//! - `detect`: the change detector, which decides append-or-skip.
//! - `store`: an in-memory history store and its queries.
//! - `reconcile`: one inbound event turned into store writes.
//! - `laws`: what holds of sequences of observations, replays and pages.
//! - `text`, `command`, `dispatch`: command words, grammar and replies.
//! - `config`, `error`: settings and failures.

pub mod record;
pub mod timeline;
pub mod detect;
pub mod store;
pub mod reconcile;
pub mod laws;
pub mod text;
pub mod command;
pub mod dispatch;
pub mod config;
pub mod error;
