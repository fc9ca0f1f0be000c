//! The code-generation backend as the library sees it: a record of calls,
//! and typed handles on the objects that the calls reply with.

pub mod builder;
pub mod call;
pub mod context;
pub mod handles;
pub mod module;
pub mod trace;
pub mod value;
