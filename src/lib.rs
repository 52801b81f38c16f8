//! Opcode documentation lookup: turns a request path into a lookup key,
//! scans the rows of an opcode reference page and answers with the
//! documentation of the opcodes that match.

pub mod dom;
pub mod error;
pub mod laws;
pub mod lookup;
pub mod page;
pub mod service;
pub mod text;

