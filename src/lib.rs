//! Orchestration of an external zero-knowledge proving toolchain: artifact
//! layout, the input configuration document, stage commands and the
//! fail-fast pipeline that sequences them.

pub mod config;
pub mod keydir;
pub mod paths;
pub mod pipeline;
pub mod stage;
pub mod toml_calls;

pub use config::Inputs;
pub use pipeline::ProofResult;
