//! Backup orchestration core: a typed configuration model, a resolver that
//! maps a storage backend to a repository address and environment, a
//! synthesizer that builds backup-engine invocations, and the planning half
//! of the secret-adoption engine.

pub mod adopt;
pub mod command;
pub mod config;
pub mod storage;
