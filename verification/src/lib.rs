//! Core of a lightweight, config-driven telemetry collector.
//!
//! Each configured item is acquired on a fixed interval (by reading a file,
//! running a command, or executing a shell snippet), its raw text is digested
//! into named numeric measurements, and the results are fanned out to the
//! configured sinks. This crate holds the verified decision logic of that
//! pipeline: which command an item's acquisition runs, how raw text is
//! digested, and which write each sink performs on a tick. The embedding
//! program performs the actual I/O that these decisions call for.

pub mod acquire;
pub mod conf;
pub mod digest;
pub mod item;
pub mod output;
pub mod pipeline;
pub mod text;
