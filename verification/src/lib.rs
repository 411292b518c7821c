//! Lowering of a portable interface description to foreign-function glue.
//!
//! An interface declares functions, objects and their methods over a closed
//! set of portable types. For each of four binary conventions this crate
//! derives, per function, the instruction program that exposes it as a flat
//! symbol (`export`) and the matching program that calls that symbol
//! (`import`).

pub mod abi;
pub mod dart;
pub mod handle;
pub mod js;
pub mod naming;
pub mod parser;
pub mod rust;
pub mod shim;

pub use crate::abi::Abi;
