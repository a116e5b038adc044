//! What can go wrong while a configuration is loaded.

use std::path::PathBuf;
use vstd::prelude::*;

verus! {

/// An I/O failure of the standard library, carried along as the cause of an
/// error. Nothing is known of its contents here.
#[verifier::external_type_specification]
#[verifier::external_body]
pub struct ExIoError(std::io::Error);

/// The diagnostic of `toml`'s deserializer, carried along as the cause of an
/// error. Nothing is known of its contents here.
#[verifier::external_type_specification]
#[verifier::external_body]
pub struct ExTomlError(toml::de::Error);

/// List of error categories. Where an error has a `path`, it is the path on
/// disk of the directory or file that the failed work concerned.
#[derive(Debug)]
pub enum ConfigError {
    /// Reading the configuration file failed.
    ReadConfig { source: std::io::Error, path: PathBuf },
    /// Creating the directory or the file failed.
    CreateFs { source: std::io::Error, path: PathBuf },
    /// The file's text is not a valid configuration. `toml` is the text as it
    /// was read.
    Deserialize { source: toml::de::Error, path: PathBuf, toml: String },
    /// The operating system offers no configuration directory.
    ConfigDir,
}

} // verus!
