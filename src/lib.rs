//! A registry that mints uniquely numbered kitties for their owners.
//!
//! Each kitty is a 16-byte attribute vector derived by hashing the caller's
//! entropy sources. Identifiers come from one global counter, and the
//! registry is append-only.

pub mod generator;
pub mod kitty;
pub mod lemmas;
pub mod ledger;

pub use generator::generate;
pub use kitty::{Kitty, KittyGender};
pub use ledger::{allocate, Error, Event, Ledger};
