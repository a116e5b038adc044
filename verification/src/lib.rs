//! Locating and bootstrapping an application's `config.toml`.
//!
//! The crate holds the decisions of a configuration loader: how an
//! application name becomes a directory name, where the configuration file
//! lives, what a freshly created file contains, which filesystem step comes
//! next, and which error a failed step becomes. The filesystem work itself is
//! done by the caller, who reports each outcome back as an [`loader::Event`].

pub mod error;
pub mod loader;
pub mod name;
pub mod path;
pub mod resolver;
pub mod template;
