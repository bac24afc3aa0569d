//! Planning and text generation for a Hyprland desktop installer.
//!
//! The library turns a record of the user's choices into the packages to
//! install, the services to enable and the autostart block of the compositor's
//! configuration file, and splices that block into existing file content. It
//! performs no input or output itself: prompts, processes and files belong to
//! the caller, who is told what to ask, what to run and what to write.
//!
//! - [`catalog`] and [`wizard`]: the questions, and what an answer changes.
//! - [`config`]: the record of the choices.
//! - [`summary`]: the table of the choices.
//! - [`planner`]: the packages and services that the choices call for.
//! - [`executor`]: the order of the operations of a run, one at a time.
//! - [`generator`]: the autostart lines that the choices call for.
//! - [`patcher`] and [`update`]: the block in the configuration file.
//! - [`user`]: the unprivileged user and that user's configuration directory.
//! - [`search`] and [`text`]: character sequences.

pub mod catalog;
pub mod config;
pub mod executor;
pub mod generator;
pub mod patcher;
pub mod planner;
pub mod search;
pub mod summary;
pub mod text;
pub mod update;
pub mod user;
pub mod wizard;
