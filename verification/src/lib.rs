//! Verified core of a subscriber that discovers its topic at run time.
//!
//! The subscriber does not know the data type of the topic it consumes. It
//! watches the middleware's feed of active publications until one carries
//! the target topic name and its type can be resolved, creates the topic
//! from the resolved descriptor, and then polls a reader for samples.
//!
//! This crate holds the decisions of that process and nothing else: every
//! call into the middleware is made by the caller, who reports what the call
//! returned and is told what to do next.

pub mod bootstrap;
pub mod consumer;
pub mod discovery;
pub mod entry;
pub mod matcher;
pub mod report;
pub mod resolver;
pub mod script;
pub mod trace;
