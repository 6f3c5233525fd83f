//! A statically typed bridge onto an object hierarchy that is reached only
//! through a flat, C-style boundary.
//!
//! The boundary itself (creating, reading and writing native objects) lives
//! outside this library. What the library holds are the decisions that the
//! bridge takes around each boundary call: which numeric codes mean which
//! types, how a returned status is read, which concrete wrapper a nested
//! object is re-wrapped in, how a value to be stored is tagged, and how a
//! matrix payload is laid out.

pub mod matrix;
pub mod naming;
pub mod registry;
pub mod text;
pub mod value;
