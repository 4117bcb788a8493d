//! A recursive text-search core: match records, the per-file sink that
//! collects them, the worker that scans one file at a time, and the
//! dispatcher that merges every file's batch into one result collection.

pub mod dispatch;
pub mod error;
pub mod haystack;
pub mod laws;
pub mod matcher;
pub mod record;
pub mod search;
pub mod session;
pub mod sink;
pub mod worker;
