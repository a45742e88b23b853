//! A declaration model for C translation units.
//!
//! The crate turns a snapshot of a C frontend's entity tree into a compact
//! tree of the enums, structs, unions, typedefs and functions that the main
//! source file declares, reconciling typedef aliases with the tags they name.

pub mod aggregate;
pub mod declaration;
pub mod error;
pub mod frontend;
pub mod function;
pub mod laws;
pub mod leaf;
pub mod outcome;
pub mod source_file;
pub mod types;
