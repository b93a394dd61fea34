//! Repository environments: finding the one a request names, and syncing their
//! source clones.
pub mod service;
