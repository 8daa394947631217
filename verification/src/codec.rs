//! The binary wire format: variable-length integers, keyed fields, and
//! messages made of fields.

pub mod field;
pub mod message;
pub mod value;
pub mod varint;
