//! Material libraries.

pub mod material;

pub use material::{Material, MaterialParser, MtlLine};
