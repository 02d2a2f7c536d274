//! Importers that lower native Java-formatter configurations to a jals [`Config`], and the
//! comment-reflow and layout vocabulary the formatter builds on.
//!
//! [`Config`]: config::Config

pub mod strs;
pub mod config;
pub mod ir;
pub mod import;
pub mod javadoc;
