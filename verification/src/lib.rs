//! A source-to-source rewriting library: it injects literal-protection and
//! control-flow-marker calls into a program's syntax tree, under a fully
//! configurable policy, and reports exactly what changed.

pub mod ast;
pub mod crypto;
pub mod derive_model;
pub mod diff;
pub mod errors;
pub mod manifest;
pub mod orchestrate;
pub mod laws;
pub mod laws_flow;
pub mod paths;
pub mod policy;
pub mod rename;
pub mod strutil;
pub mod transform;
pub mod transform_spec;
pub mod utils;
