//! Decision logic of a two-product desktop installer: probing for a tool,
//! accounting for a streamed download, planning the extraction of an archive,
//! registering a directory on the user's search path, and sequencing the run.
//!
//! The crate performs no I/O. Callers feed it what they observed (a status
//! code, a chunk length, an archive's bytes, a directory listing) and act on
//! what it returns.
pub mod archive;
pub mod download;
pub mod launch;
pub mod orchestrator;
pub mod paths;
pub mod presence;
pub mod progress;
pub mod registrar;
pub mod report;
pub mod text;
