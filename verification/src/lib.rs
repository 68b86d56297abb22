//! Planning for a tool that switches between Neovim configuration profiles.
//!
//! Neovim keeps what belongs to one profile in four directories under the
//! user's home directory. A profile is put aside by marking each of the four
//! with an extension, and brought back by taking the extension off again. This
//! library decides which paths are involved, which filesystem action belongs to
//! each, whether the user has agreed, and when a run stops. It touches no file
//! itself: a driver shows what the library announces, carries out the actions
//! it hands over one by one, and reports how each one went.

pub mod confirm;
pub mod error;
pub mod home;
pub mod laws;
pub mod operation;
pub mod paths;
pub mod plan;
pub mod session;
pub mod text;
