//! Schema-driven code generation: the task engine that turns a profile and a
//! set of answers into rendered output files.

pub mod ask;
pub mod cli;
pub mod consts;
pub mod dict;
pub mod error;
pub mod paths;
pub mod profile;
pub mod registry;
pub mod scripts;
pub mod task;
pub mod text;
