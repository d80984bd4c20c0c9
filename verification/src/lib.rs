//! Host-side rules for exposing native functions, properties and classes to a
//! script engine, with the engine itself kept behind a small set of trusted
//! declarations.

pub mod engine;
pub mod environment;
pub mod error;
pub mod greeting;
pub mod person;
pub mod sequence;
pub mod text;
