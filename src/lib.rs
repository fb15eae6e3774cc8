//! Port model, code generation and simulation-driving logic for binding
//! Verilator-compiled hardware models into Rust.

pub mod api;
pub mod bench;
pub mod binding;
pub mod doc;
pub mod generator;
pub mod ports;
pub mod shim;
pub mod text;
pub mod trace;
pub mod verilator;
pub mod vpi;
pub mod width;

pub use crate::shim::MissingPortError;
