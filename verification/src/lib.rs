//! Remote container builds on a Kubernetes cluster: everything that is decided
//! or computed between the command line, the cluster and the registry.

pub mod args;
pub mod auth;
pub mod backend;
pub mod build;
pub mod builder;
pub mod builder_laws;
pub mod call_laws;
pub mod command_laws;
pub mod context;
pub mod job;
pub mod job_laws;
pub mod json;
pub mod manifest;
pub mod manifest_laws;
pub mod numeral;
pub mod object_laws;
pub mod oci;
pub mod pod;
pub mod schedule;
pub mod shell;
pub mod text;
