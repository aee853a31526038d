//! Verified models of the zsh C-API helper layer used by zsh modules written
//! in Rust: parameter flags and kinds, module feature tables, numeric values,
//! redirection and token classification, the signal queue, option tables and
//! scratch buffers.
//!
//! The zsh structures are modelled as plain values: a C pointer is held as its
//! address (`Addr`, zero is null) and a C function pointer as an optional
//! address (`Option<FnAddr>`).  Code that talks to a running shell converts the
//! real structures to and from these models.
#![allow(non_camel_case_types, non_snake_case, non_upper_case_globals)]

pub mod types;
pub mod consts;
pub mod syntax;
pub mod tables;
pub mod params;
pub mod param_kind;
pub mod param_ref;
pub mod arithmetic;
pub mod feature_sets;
pub mod heaps;
pub mod signals;
pub mod options;
pub mod history;
pub mod lists;
pub mod strings;
pub mod zle;
pub mod module;
pub mod report;
pub mod printing;
pub mod text;
pub mod laws;
