//! A persistent job queue: discovered trends, the jobs made from them, and
//! the settings that drive the polling around them.

pub mod cells;
pub mod config;
pub mod decimal;
pub mod error;
pub mod job;
pub mod queue;
pub mod schema;
pub mod sql;
pub mod stats;
pub mod status;
pub mod store;
pub mod text;
pub mod timestamp;
pub mod trend;
