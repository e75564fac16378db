//! Derivation of builder types from structure descriptions.
//!
//! Given the description of a structure with named fields, the library
//! synthesizes the declarations of a companion builder: a mirror structure
//! whose every field is optional, one setter per field, a factory that
//! starts with every field unset, and a fallible finalization step that
//! assembles the target structure or reports the first missing required
//! field.  Two hand-expanded instances of the generated protocol,
//! [`command::Command`] and [`config::Config`], carry the runtime
//! behaviour of the generated code.

pub mod assemble;
pub mod command;
pub mod config;
pub mod generate;
pub mod shape;
pub mod synth;
