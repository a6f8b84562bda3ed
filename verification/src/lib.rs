//! Wire-level primitives of a QUIC-style transport: variable-length integers,
//! connection identifiers and packet numbers, each with its byte layout stated
//! as a mathematical model and its encoder and decoder proved against it.

pub mod error;
pub mod protocol;

pub use crate::error::{Error, ErrorKind};
