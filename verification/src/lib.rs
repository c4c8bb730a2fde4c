//! Aiome verified core: input guards, path jails, protocol kernels.
pub mod aiome_log;
pub mod artifact;
pub mod autonomous;
pub mod budget;
pub mod circuit_breaker;
pub mod common;
pub mod concept;
pub mod context;
pub mod contracts;
pub mod core_ops;
pub mod crypto;
pub mod delegation;
pub mod dialogue;
pub mod dream;
pub mod error;
pub mod evolution;
pub mod expression;
pub mod federation;
pub mod fs_guard;
pub mod guardrails;
pub mod heartbeat;
pub mod ident;
pub mod immune_system;
pub mod init;
pub mod job;
pub mod karma;
pub mod karma_cache;
pub mod knowledge;
pub mod lifecycle;
pub mod media_forge;
pub mod mock_x;
pub mod net_guard;
pub mod pattern;
pub mod protocol;
pub mod python_check;
pub mod scanner;
pub mod settings;
pub mod stream;
pub mod swarm;
pub mod taxonomy;
pub mod text;
pub mod text_guard;
pub mod unicode;
