//! Core of a local-first agent runtime: token-budgeted context selection,
//! class-aware scheduling, capability policy, and a hash-chained audit log.

pub mod agent;
pub mod cap;
pub mod classifier;
pub mod columnar;
pub mod context;
pub mod digest;
pub mod embed;
pub mod gateway;
pub mod infer;
pub mod kernel;
pub mod plane;
pub mod policy;
pub mod receipts;
pub mod redactor;
pub mod router;
pub mod sched;
pub mod schema;
pub mod store;
pub mod tables;
pub mod text;
pub mod tools;
pub mod types;
