//! The decisions of an application server whose content lives in its
//! database.
//!
//! Requests are routed by rows of a table to named responses. A response is
//! either sent as it is or run as a script in one of a fixed pool of
//! isolates; a script reaches the database through a session of
//! transactions that is committed or rolled back as a whole. A notification
//! channel of the database invalidates the caches and carries messages to
//! the isolates.
//!
//! This crate holds what the server decides and computes. Whatever waits,
//! reads or writes calls into it: every loop of the server takes its next
//! step from one of the modules below.
//!
//! - [`paths`], [`dispatch`], [`http`] and [`request`]: from a request to
//!   what is done with it, and the bytes of the answer;
//! - [`session`], [`transaction`], [`client`], [`query`] and [`params`]:
//!   the transaction session, its workers, and what statements are bound
//!   with;
//! - [`tasks`], [`js`] and [`ops`]: what an isolate is given, and the
//!   operations that scripts call;
//! - [`notification`] and [`settings`]: the notification bus and the
//!   settings cache;
//! - [`boot`], [`crypto`] and [`constants`]: the start of the server,
//!   passwords and tokens, and the names shared with the database;
//! - [`text`], [`numbers`], [`words`] and [`collections`]: texts, whole
//!   numbers and a small ordered map.

pub mod boot;
pub mod client;
pub mod collections;
pub mod constants;
pub mod crypto;
pub mod dispatch;
pub mod http;
pub mod js;
pub mod notification;
pub mod numbers;
pub mod ops;
pub mod params;
pub mod paths;
pub mod query;
pub mod request;
pub mod session;
pub mod settings;
pub mod tasks;
pub mod text;
pub mod transaction;
pub mod words;
