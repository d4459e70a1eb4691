//! Typed records stored as aligned columns and read back, with schema inference from
//! sample records or from the declared record type.
pub mod convert;
pub mod infer;
pub mod laws;
pub mod model;
pub mod negative;
