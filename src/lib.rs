//! A film-photo library: naming of rolls and photos, metadata comments and
//! tag arguments for the external metadata tool, artifact sizing and
//! rendering, the import of a directory as a roll (its steps and the state
//! machine that orders them), the single cover of a roll, waiting for the
//! store, and the bookkeeping of batch outcomes.

pub mod text;
pub mod metadata;
pub mod dates;
pub mod naming;
pub mod exiftool;
pub mod batch;
pub mod import;
pub mod artifacts;
pub mod readiness;
pub mod catalog;
pub mod data_url;
pub mod session;
