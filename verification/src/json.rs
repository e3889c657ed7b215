//! A small model of JSON text, enough to say what the payloads of this crate
//! are, and to write them.

pub mod number;
pub mod scan;
pub mod syntax;
pub mod unique;
pub mod writer;
