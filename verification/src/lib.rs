//! Coverage collection and documentation publishing for continuous
//! integration, as verified decision logic.
//!
//! Every workflow here is a state machine: it is handed what happened
//! (a process exited, a directory listing arrived) and answers with the
//! next thing to do. The caller performs the work; this crate decides.

pub mod artifact;
pub mod badge;
pub mod bootstrap;
pub mod cli;
pub mod coverage;
pub mod error;
pub mod path;
pub mod process;
pub mod progress;
pub mod publish;
pub mod text;

pub use bootstrap::build_kcov;
pub use coverage::{run_coverage, CoverageOptions};
pub use error::CliError;
pub use publish::doc_upload;
