//! The bridge program: binds a mint on one ledger to a mint on another and
//! moves value between them by paired sub-invocations.
pub mod error;
pub mod instruction;
pub mod interfaces;
pub mod laws;
pub mod processor;
pub mod schema;
