//! A minimal counter program over one host slot: it adds an amount from the
//! instruction payload to the counter stored in the slot.
pub mod error;
pub mod instruction;
pub mod processor;
pub mod schema;
