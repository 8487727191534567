//! Ingestion pipeline for compressed-state trees: a backward signature
//! crawler, a live subscriber, a shared double-ended work queue, a worker
//! step machine with a bounded retry policy, an instruction decoder and a
//! supervisor that keeps one pipeline per tracked tree.

pub mod address;
pub mod config;
pub mod crawler;
pub mod cursor;
pub mod decoder;
pub mod queue;
pub mod retry;
pub mod subscriber;
pub mod supervisor;
pub mod transaction;
pub mod worker;
