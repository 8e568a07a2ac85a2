//! The worker: takes client payloads from the work queue, picks a
//! destination for each and forwards it.

pub mod args;
pub mod config;
pub mod logger;
pub mod matching;
pub mod pipeline;
pub mod routes;
