//! Korean legal information library: request shaping, cache keys,
//! response normalization, metrics bookkeeping and text formatting.

pub mod api;
pub mod cache;
pub mod cli;
pub mod clock;
pub mod config;
pub mod error;
pub mod progress;
pub mod ranking;
pub mod strmap;
pub mod metrics;
pub mod output;
pub mod text;
pub mod time;
