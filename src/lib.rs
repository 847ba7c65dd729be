//! Lifecycle of ephemeral cloud development instances: shared infrastructure,
//! image selection, launch requests, readiness waits, teardown, and synthesis of
//! the first-boot bootstrap script.

pub mod ami;
pub mod error;
pub mod git;
pub mod infra;
pub mod launch;
pub mod loader;
pub mod lifecycle;
pub mod profile;
pub mod session;
pub mod settings;
pub mod shell;
pub mod ssh_key;
pub mod state;
pub mod strmap;
pub mod text;
pub mod user_data;
pub mod vcs;
