//! The command-line front ends: what each one's options ask for.

pub mod coverage;
pub mod coveralls;
pub mod doc_upload;
pub mod flags;
