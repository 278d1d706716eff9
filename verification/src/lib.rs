//! Resolution of per-keyboard configuration and build locations.
//!
//! A project keeps one directory per keyboard, named by the keyboard's
//! identifier, with a `config.json` in it that names the hardware profile.
//! This library validates identifiers, computes where a keyboard's
//! configuration file and build directory are, takes the hardware profile out
//! of the configuration document, and works out what reporting on a keyboard
//! prints and what compiling for it runs. It touches neither the file system
//! nor any process: its callers read the file and run the command.

pub mod config;
pub mod context;
pub mod dispatch;
pub mod error;
pub mod ident;
pub mod paths;
pub mod text;

pub use config::KeyboardConfig;
pub use context::ProjectContext;
pub use error::{ConfigError, KeymapError, ParseFailure, SubprocessError, ValidationError};
