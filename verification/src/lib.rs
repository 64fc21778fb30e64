//! Front-end of an interactive query shell: it classifies an input file by
//! extension, derives a sanitized table name from the file stem, dispatches
//! each input line as a meta-command, an exit directive, or query text, and
//! drives an error-isolated read-eval-print session around an external query
//! engine. Everything that touches the terminal, the file system, or the
//! engine itself lives outside this crate; the decisions live here.
#![allow(unused_imports)]

pub mod command;
pub mod format;
pub mod session;
pub mod startup;
pub mod naming;
pub mod render;
pub mod repl;
pub mod text;
