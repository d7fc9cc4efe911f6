//! Index building for sorted string table (SST) files.

pub mod backend;
pub mod builder;
pub mod config;
pub mod file;
pub mod indexer;
pub mod output;
pub mod plugins;
pub mod scheduler;
pub mod task;
pub mod worker;
