//! Core of a tool that archives a user's repositories on GitHub.
//!
//! The library decides what to send and what a reply means; it performs no
//! network traffic itself. A driver hands each [`transport::Request`] to an
//! HTTP client and gives the [`transport::Reply`] back.

pub mod error;
pub mod github;
pub mod json;
pub mod repository;
pub mod session;
pub mod timestamp;
pub mod transport;
