//! Bookkeeping behind the on-screen panels.
pub mod metrics;
