//! Pre-processing front end for a chart deployment tool: a two-tier variable
//! store, a template-token substitution engine for values documents, and the
//! pipeline that resolves command-line overrides into the files and argument
//! vector handed to the external binary.

pub mod chars;
pub mod command;
pub mod laws;
pub mod paths;
pub mod pattern;
pub mod runtime;
pub mod store;
pub mod subst;
