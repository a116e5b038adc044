//! Where a configuration file lives.

use crate::name::{kebab, normalize_app_name};
use std::path::PathBuf;
use vstd::prelude::*;

verus! {

/// A filesystem path of the standard library. Its contents are not looked
/// into here: a base directory is only carried along.
#[verifier::external_type_specification]
#[verifier::external_body]
pub struct ExPathBuf(std::path::PathBuf);

/// The path that `PathBuf::push` makes of a path and one more name.
pub uninterp spec fn joined(base: PathBuf, name: Seq<char>) -> PathBuf;

/// `PathBuf::push` with a string slice: extends the path by that name. What
/// comes of it depends on the path before and on the name, and on nothing
/// else.
#[verifier::external_body]
fn push_name(path: &mut PathBuf, name: &str)
    ensures
        *final(path) == joined(*old(path), name@),
{
    path.push(name);
}

/// `PathBuf::clone`: the copy is the same path.
pub assume_specification[ <PathBuf as Clone>::clone ](path: &PathBuf) -> (out: PathBuf)
    ensures
        out == *path,
;

/// What a [`ConfigPath`] points at.
#[derive(Clone, Copy, Debug, PartialEq, Eq, Structural)]
pub enum Target {
    /// The application's directory, `<base>/<app-dir>`.
    Directory,
    /// The configuration file in it, `<base>/<app-dir>/config.toml`.
    ConfigFile,
}

/// A location below a base directory: the application's directory, or the
/// configuration file inside it.
#[derive(Clone, Debug, PartialEq, Eq)]
pub struct ConfigPath {
    /// The directory under which the application's directory lives.
    pub base: PathBuf,
    /// The name of the application's directory.
    pub app_dir: String,
    /// Whether the directory or the file in it is meant.
    pub target: Target,
}

/// The name of the configuration file inside the application's directory.
pub open spec fn config_file_name() -> Seq<char> {
    "config.toml"@
}

impl ConfigPath {
    /// The path segments that follow the base directory, in order.
    pub open spec fn segments(self) -> Seq<Seq<char>> {
        match self.target {
            Target::Directory => seq![self.app_dir@],
            Target::ConfigFile => seq![self.app_dir@, config_file_name()],
        }
    }

    /// The path on disk: the base directory extended by the segments, one
    /// after the other.
    pub open spec fn location(self) -> PathBuf {
        match self.target {
            Target::Directory => joined(self.base, self.app_dir@),
            Target::ConfigFile => joined(joined(self.base, self.app_dir@), config_file_name()),
        }
    }

    /// The configuration file of this location's directory.
    pub open spec fn file(self) -> ConfigPath {
        ConfigPath { base: self.base, app_dir: self.app_dir, target: Target::ConfigFile }
    }

    /// The directory of the application `app_name` below `base`.
    pub fn app_dir(app_name: &str, base: PathBuf) -> (out: ConfigPath)
        ensures
            out.base == base,
            out.app_dir@ == kebab(app_name@),
            out.target == Target::Directory,
            out.segments() == seq![kebab(app_name@)],
    {
        ConfigPath { base, app_dir: normalize_app_name(app_name), target: Target::Directory }
    }

    /// The configuration file in the directory of this location.
    pub fn config_file(self) -> (out: ConfigPath)
        ensures
            out == self.file(),
            out.segments() == seq![self.app_dir@, config_file_name()],
    {
        ConfigPath { base: self.base, app_dir: self.app_dir, target: Target::ConfigFile }
    }

    /// The path on disk that this location stands for.
    pub fn on_disk(&self) -> (out: PathBuf)
        ensures
            out == self.location(),
    {
        let mut out = self.base.clone();
        push_name(&mut out, self.app_dir.as_str());
        match self.target {
            Target::Directory => {},
            Target::ConfigFile => {
                push_name(&mut out, "config.toml");
            },
        }
        out
    }

    /// The names to append to the base directory, one after the other, to
    /// reach this location.
    pub fn segment_names(&self) -> (out: Vec<String>)
        ensures
            out@.len() == self.segments().len(),
            forall|i: int| 0 <= i < out@.len() ==> (#[trigger] out@[i])@ == self.segments()[i],
    {
        let mut out: Vec<String> = Vec::new();
        out.push(self.app_dir.clone());
        match self.target {
            Target::Directory => {},
            Target::ConfigFile => {
                out.push(String::from_str("config.toml"));
            },
        }
        out
    }
}

/// The path on disk is the base directory extended by each segment in turn:
/// first the application's directory, then, for the file, its name.
pub proof fn location_extends_base_by_segments(path: ConfigPath)
    ensures
        path.location() == path.segments().fold_left(
            path.base,
            |at: PathBuf, name: Seq<char>| joined(at, name),
        ),
{
    let extend = |at: PathBuf, name: Seq<char>| joined(at, name);
    let names = path.segments();
    let dir = seq![path.app_dir@];
    assert(dir.drop_last() =~= Seq::<Seq<char>>::empty());
    assert(dir.drop_last().fold_left(path.base, extend) == path.base);
    assert(dir.fold_left(path.base, extend) == joined(path.base, path.app_dir@));
    if path.target == Target::ConfigFile {
        assert(names.drop_last() =~= dir);
    }
}

} // verus!
