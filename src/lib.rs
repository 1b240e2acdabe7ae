//! A build-job orchestrator: a registry of build jobs, the planning of the
//! external build command for a package, the classification of its outcome,
//! and the gating of artifact retrieval on a job's status.
pub mod args;
pub mod build_pipeline;
pub mod states;
pub mod text;
