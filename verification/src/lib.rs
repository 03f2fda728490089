//! Editor resolution and launch for a template-file manager.
//!
//! The library decides which editor to run on a template file and in what
//! order to fall back; the caller spawns the processes and prints.

pub mod confirm;
pub mod env_var;
pub mod launch;
pub mod laws;
pub mod path;
pub mod platform;
pub mod template_dir;
