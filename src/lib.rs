//! Locates the directory where the application keeps its configuration.
//!
//! The location comes from the `LEXICON_HOME` environment variable when it
//! holds a non-empty value, and otherwise is `.lexicon` under the user's home
//! directory. Reading the environment and canonicalizing a path are left to
//! the caller; the decision between the two, and the default path itself,
//! are computed and proved here.
mod home;
pub mod laws;
pub mod path;
pub mod resolve;
