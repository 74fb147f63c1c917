//! Reliable background processing of document jobs.
//!
//! A webhook hands in a job; the job is wrapped in a [`queue::Message`] and
//! stored in a durable queue with visibility timeouts. A single poller moves
//! ready messages into a bounded channel, a fixed pool of workers runs the
//! job handler on them and acknowledges each delivery by deleting it on
//! success or by extending its visibility timeout on failure.
//!
//! Every decision of that protocol is a verified function from a state and
//! an event to the next state and an action. The asynchronous runtime that
//! performs the actions lives outside this crate.

pub mod channel;
pub mod config;
pub mod decimal;
pub mod errors;
pub mod generate_key;
pub mod handler;
pub mod hexadecimal;
pub mod identifier;
pub mod memory_queue;
pub mod message;
pub mod ocr;
pub mod path;
pub mod poller;
pub mod pool;
pub mod producer;
pub mod queue;
pub mod shutdown;
pub mod storage;
pub mod token;
pub mod trace_context;
pub mod upload;
pub mod webhook;
pub mod worker;

pub use crate::message::{Claim, Payload};
