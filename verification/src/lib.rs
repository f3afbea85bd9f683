//! A small declarative expression language for feature extraction over
//! tabular data, together with a compiler that lowers expressions into
//! lazy polars queries.
//!
//! The expression model lives in [`expression`]; [`translate`] holds
//! the compilation contracts and the polars lowering; [`builder`] is
//! the surface a scripting host drives; [`config`] loads named,
//! versioned feature definitions from JSON text.

pub mod builder;
pub mod config;
pub mod expression;
pub mod translate;
