//! A portable critical section: one process-wide region, entered with
//! `acquire` and left with `release`, whose provider is fixed when the
//! program is built.
//!
//! This library holds the verified parts: the restore-state encodings that
//! carry information from an `acquire` to its `release`, and the hosted
//! provider's decisions together with a model of its whole state.

pub mod hosted;
pub mod laws;
pub mod restore;
