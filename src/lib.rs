//! Verified core of a desktop client that relays video uploads and chat
//! queries to a remote analysis service.
//!
//! - `chunk`: slicing a payload into ordered, bounded-size chunks.
//! - `queue`: the bounded FIFO hand-off between chunk producer and consumer.
//! - `upload`: the all-or-nothing outcome of a streamed upload.
//! - `collector`: gathering a response stream, degrading gracefully on faults.
//! - `messages`: the human-readable error texts of every operation.
//! - `config`: endpoint, chunk size, log level and mode settings.
pub mod chunk;
pub mod queue;
pub mod messages;
pub mod upload;
pub mod collector;
pub mod config;
