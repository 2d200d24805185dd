//! Decision logic of a service that keeps a local photo directory and an
//! Immich library in sync: deletion-age policy, checksums, event records and
//! the step functions that drive the file and deletion watchers.

pub mod event_log;
pub mod hash;
pub mod policy;
pub mod text;
pub mod workers;
