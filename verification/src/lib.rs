//! Decides which release artifacts a finished CI pipeline publishes, names them, and
//! drives their transfer, integrity check, mirroring and bookkeeping step by step.

pub mod address;
pub mod artifact;
pub mod config;
pub mod gitlab;
pub mod integrity;
pub mod local_directory;
pub mod mirror;
pub mod text;
pub mod timestamp;
pub mod webhook;
