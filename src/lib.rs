//! Loads a configuration value from a file, choosing the decoder by the
//! file's extension.
//!
//! The verified part decides everything that does not touch the file system
//! or the decoders: which format a path names, what the loader must do with
//! it, and which error kind each failure becomes.
mod error;
mod format;
mod load;

pub use error::{ConfigFileError, DecodeError};
pub use format::{classify_extension, classify_path, FormatTag};
pub use load::{after_access, after_decode, plan_for_format, plan_load, reject, LoadPlan};
