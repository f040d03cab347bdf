//! Typed bindings from an interface description.
//!
//! The library turns the in-memory model of an interface description (the
//! instructions of a program, their arguments and the named types they use)
//! into the text of flat type declarations and a table from eight-byte
//! discriminators to instruction names.
pub mod names;
pub mod digest;
pub mod model;
pub mod decimal;
pub mod unresolved;
pub mod mapper;
pub mod emit;
pub mod declare;
pub mod resolve;
pub mod laws;
pub mod scan;
