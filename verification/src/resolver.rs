//! The base directories under which a configuration is looked for, and the
//! order in which they are tried.

use crate::error::ConfigError;
use std::path::PathBuf;
use vstd::prelude::*;

verus! {

/// The path that `PathBuf::from` makes of a text.
pub uninterp spec fn path_of_text(text: Seq<char>) -> PathBuf;

/// `PathBuf::from` on a string slice: the path spelled by that text. The
/// conversion depends on the text alone.
#[verifier::external_body]
fn path_from(text: &str) -> (out: PathBuf)
    ensures
        out == path_of_text(text@),
{
    PathBuf::from(text)
}

/// `dirs::config_dir`: the user's configuration directory as the operating
/// system and the environment give it, if they give one. Nothing is claimed
/// of the outcome.
#[verifier::external_body]
fn os_config_dir() -> Option<PathBuf> {
    dirs::config_dir()
}

/// The text of the fixed location that is tried before the user's
/// directory: `/etc` on Unix-like systems, the working directory elsewhere.
pub open spec fn system_or_local_text(unix: bool) -> Seq<char> {
    if unix {
        "/etc"@
    } else {
        "./"@
    }
}

/// The fixed location that is tried before the user's directory. `unix`
/// says whether the platform is of the Unix family.
pub fn system_or_local_dir(unix: bool) -> (out: PathBuf)
    ensures
        out == path_of_text(system_or_local_text(unix)),
{
    if unix {
        path_from("/etc")
    } else {
        path_from("./")
    }
}

/// The user's configuration directory, given what the operating system
/// offered: that directory, or `ConfigDir` where it offered none.
pub open spec fn user_dir_of(found: Option<PathBuf>) -> Result<PathBuf, ConfigError> {
    match found {
        Some(dir) => Ok(dir),
        None => Err(ConfigError::ConfigDir),
    }
}

/// Computes [`user_dir_of`].
pub fn require_user_dir(found: Option<PathBuf>) -> (out: Result<PathBuf, ConfigError>)
    ensures
        out == user_dir_of(found),
{
    match found {
        Some(dir) => Ok(dir),
        None => Err(ConfigError::ConfigDir),
    }
}

/// Asks the operating system for the user's configuration directory. The
/// only failure is `ConfigDir`, and it means that the system offered none.
pub fn user_config_dir() -> (out: Result<PathBuf, ConfigError>)
    ensures
        exists|found: Option<PathBuf>| out == user_dir_of(found),
        out matches Err(e) ==> e == ConfigError::ConfigDir,
{
    let found = os_config_dir();
    let ghost offered = found;
    let out = require_user_dir(found);
    assert(out == user_dir_of(offered));
    out
}

/// What a load does next.
#[derive(Debug)]
pub enum Plan {
    /// Load from below this fixed location. A failure there is not reported:
    /// the user's directory is tried after it.
    TrySystem(PathBuf),
    /// Load from below the user's directory. Whatever comes of it is the
    /// result.
    TryUser(PathBuf),
    /// Give up with this error.
    Fail(ConfigError),
}

/// The plan that leads to the user's directory, given what the operating
/// system offered.
pub open spec fn user_plan_of(found: Option<PathBuf>) -> Plan {
    match found {
        Some(dir) => Plan::TryUser(dir),
        None => Plan::Fail(ConfigError::ConfigDir),
    }
}

/// Computes [`user_plan_of`].
pub fn user_plan(found: Option<PathBuf>) -> (out: Plan)
    ensures
        out == user_plan_of(found),
{
    match require_user_dir(found) {
        Ok(dir) => Plan::TryUser(dir),
        Err(e) => Plan::Fail(e),
    }
}

/// How a load begins: at the fixed location, unless the user's directory is
/// forced.
pub fn first_plan(force_user_dir: bool, unix: bool) -> (out: Plan)
    ensures
        !force_user_dir ==> out == Plan::TrySystem(path_of_text(system_or_local_text(unix))),
        force_user_dir ==> exists|found: Option<PathBuf>| out == user_plan_of(found),
        force_user_dir ==> !(out is TrySystem),
{
    if force_user_dir {
        let found = os_config_dir();
        let ghost offered = found;
        let plan = user_plan(found);
        assert(plan == user_plan_of(offered));
        plan
    } else {
        Plan::TrySystem(system_or_local_dir(unix))
    }
}

/// What follows the attempt at the fixed location, given its result and what
/// the operating system offered as the user's directory: a success is the
/// load's result; after any failure the user's directory is next, and the
/// failure itself is dropped.
pub open spec fn fallback_of<C, E>(first: Result<C, E>, found: Option<PathBuf>) -> Result<C, Plan> {
    match first {
        Ok(value) => Ok(value),
        Err(_) => Err(user_plan_of(found)),
    }
}

/// Decides what follows the attempt at the fixed location. The operating
/// system is asked for the user's directory only after a failure.
pub fn fallback<C, E>(first: Result<C, E>) -> (out: Result<C, Plan>)
    ensures
        first matches Ok(value) ==> out == Ok::<C, Plan>(value),
        first is Err ==> exists|found: Option<PathBuf>| out == fallback_of(first, found),
        first is Err ==> (out matches Err(plan) && !(plan is TrySystem)),
{
    match first {
        Ok(value) => Ok(value),
        Err(_) => {
            let found = os_config_dir();
            let ghost offered = found;
            let plan = user_plan(found);
            assert(Err::<C, Plan>(plan) == fallback_of(first, offered));
            Err(plan)
        },
    }
}

/// The fallback does not look at the failure: whatever went wrong at the
/// fixed location, the user's directory is tried next if the system offers
/// one, and `ConfigDir` is the error if it offers none. The first failure
/// itself is never the load's result.
pub proof fn fallback_ignores_the_failure<C, E>(first: E, other: E, found: Option<PathBuf>)
    ensures
        fallback_of(Err::<C, E>(first), found) == fallback_of(Err::<C, E>(other), found),
        fallback_of(Err::<C, E>(first), found) == Err::<C, Plan>(user_plan_of(found)),
        found matches Some(dir) ==> fallback_of(Err::<C, E>(first), found) == Err::<C, Plan>(
            Plan::TryUser(dir),
        ),
        found is None ==> fallback_of(Err::<C, E>(first), found) == Err::<C, Plan>(
            Plan::Fail(ConfigError::ConfigDir),
        ),
{
}

/// A success at the fixed location is the load's result, whatever the
/// system offers as the user's directory.
pub proof fn fallback_keeps_a_success<C, E>(value: C, found: Option<PathBuf>)
    ensures
        fallback_of(Ok::<C, E>(value), found) == Ok::<C, Plan>(value),
{
}

} // verus!
