//! A todo service: users sign up and sign in for a token, and manage their
//! own todos with it.

pub mod auth;
pub mod handlers;
pub mod middleware;
