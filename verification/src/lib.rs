//! Change detection: deciding whether a value is observably identical to an
//! earlier one, so that work depending on it need not be redone.
//!
//! Sameness differs from equality in two ways. Floating-point numbers are
//! compared by bit pattern, and shared handles by the allocation they point
//! to, never by content.

pub mod ascending;
pub mod derive;
pub mod handles;
pub mod laws;
pub mod ordered;
pub mod paths;
pub mod protocol;
pub mod scalars;
pub mod sequences;
pub mod stepping;
pub mod tokens;
pub mod tuples;
pub mod unordered;

pub use protocol::IsSame;
