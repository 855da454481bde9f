//! Generation of C++ glue functions for a foreign-function boundary, together
//! with the per-value conversion policies that keep the generated C++ half and
//! the Rust-side call adapters in exact signature agreement.

pub mod conversion;
pub mod generator;
pub mod headers;
pub mod text;
