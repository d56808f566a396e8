//! A command-line reference for Kubernetes object kinds: each topic has a short
//! explanation, a sample manifest in YAML and a link to the documentation.

pub mod topic;
pub mod yaml;
pub mod page;
pub mod cli;
