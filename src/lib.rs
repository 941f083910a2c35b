//! Interpreting fixed ASCII tokens (single bytes or short byte strings) as
//! boolean values, under a configurable pair of true and false tokens.
pub mod ascii;
pub mod ascii_byte;
pub mod ascii_bytes;
pub mod error;
