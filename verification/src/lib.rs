//! A polite web crawler's engine: the shared frontier and dedup cache, the
//! per-URL fetch pipeline as a machine of decisions, and the worker
//! lifecycle. Network, clock and storage stay with the caller.

pub mod address;
pub mod cache;
pub mod crawler;
pub mod helper;
pub mod parser;
pub mod pipeline;
pub mod robots;
pub mod seeds;
pub mod text;
