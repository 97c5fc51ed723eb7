//! A null-tolerant, handle-based boundary layer over GBLN value trees.

pub mod accessors;
pub mod builders;
pub mod config;
pub mod constructors;
pub mod containers;
pub mod error;
pub mod io;
pub mod laws;
pub mod parse;
pub mod serialize;
pub mod text;
pub mod types;

pub use error::{get_last_error, set_last_error, GblnErrorCode};
pub use types::{GblnValue, GblnValueType, Value};
