//! The token ledger program: instruction codec, record schema and processor.
pub mod error;
pub mod instruction;
pub mod laws;
pub mod processor;
pub mod schema;
