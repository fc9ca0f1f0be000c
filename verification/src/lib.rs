//! The back half of a compiler for a small functional language.
//!
//! [`types`] holds types and type schemes, [`syntax`] the surface syntax
//! tree that inference annotates, and [`term`] the program after closure
//! conversion: global functions with explicit free variables, closures and
//! terms that carry their resolved schemes. [`backend`] describes the
//! code-generation backend as a record of calls with typed handles on the
//! objects that the calls reply with, and [`lower`] holds what lowering a
//! function to that backend rests on.

pub mod backend;
pub mod lower;
pub mod operators;
pub mod syntax;
pub mod term;
pub mod types;
