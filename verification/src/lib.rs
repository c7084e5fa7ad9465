//! Verified core of a tool that collects happy tweets.
//!
//! The tool searches recent tweets for a term, scores each one with a
//! sentiment classifier, keeps the positive ones and merges them, by URL,
//! into the set saved by earlier runs. Everything that decides or computes
//! lives here and is proved against its contract; network, files, threads
//! and the classifier itself are driven from outside through plain values.

pub mod api;
pub mod bridge;
pub mod error;
pub mod history;
pub mod merge;
pub mod pipeline;
pub mod request;
pub mod sentiment;
pub mod tweet;
pub mod validate;
