//! A synthetic-data bulk-loading pipeline: work partitioning, random record
//! generation, the binary bulk-load encoding of a batch, and the per-batch
//! reconciliation that each worker performs.

pub mod config;
pub mod calendar;
pub mod random;
pub mod record;
pub mod encode;
pub mod worker;
pub mod schema;
