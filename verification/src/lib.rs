//! Semantic model of native classes for a binding generator: how each class is
//! represented across the language boundary, what it inherits from, which
//! members it surfaces and which ancillary types those members pull in.

pub mod kind;
pub mod pattern;
pub mod ast;
pub mod names;
pub mod oracle;
pub mod env;
pub mod func;
pub mod field;
pub mod constant;
pub mod class;
pub mod class_view;
pub mod inheritance;
pub mod dedup;
pub mod identity;
pub mod laws;
