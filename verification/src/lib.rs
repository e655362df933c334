//! Vote counters for a key-value store: two decimal counters per rated item,
//! the commands that update them, and the protocol by which a host carries
//! out the reads and writes those commands ask for.

pub mod verb;
pub mod error;
pub mod decimal;
pub mod keys;
pub mod command;
pub mod store;
