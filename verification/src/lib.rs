//! Extraction of a program's interface description from its source text:
//! the program identifier, the instruction signatures, the account
//! structs, the plain structs and the error codes.

pub mod extract;
pub mod fields;
pub mod laws;
pub mod model;
pub mod patterns;
pub mod text;
