//! A journal of timestamped to-do entries kept as one JSON document.
//!
//! The crate holds the whole read-modify-write cycle as functions from the
//! bytes of the backing file to the bytes that have to be written back, so
//! that every decision the journal makes is stated in a contract and proved.
//! Opening, reading and writing the file itself is left to the caller.

pub mod cli;
pub mod clock;
pub mod decimal;
pub mod decode;
pub mod encode;
pub mod error;
pub mod json;
pub mod laws;
pub mod store;
pub mod task;
