//! An uptime monitor: users register websites; a producer queues the ones
//! due for a check, workers probe them and record each outcome, and a
//! notifier mails the owner when a website goes up or down.

pub mod api;
pub mod auth;
pub mod common;
pub mod jwt;
pub mod middleware;
pub mod monitor;
pub mod producer;
pub mod notifier;
pub mod worker;
