//! Settings read from the environment: the truthy rule for flags and the
//! validation of the shadow root.

use vstd::prelude::*;
use vstd::string::*;
use crate::text::{is_absolute, is_absolute_path, same_text};

verus! {

/// Required: absolute path to the directory used as the shadow root.
pub const ENV_FAKEROOT: &'static str = "FAKEROOT";

/// Optional: whether directory opens are redirected too.
pub const ENV_FAKEROOT_DIRS: &'static str = "FAKEROOT_DIRS";

/// Optional: whether a path is redirected even where no shadow file exists.
pub const ENV_FAKEROOT_ALL: &'static str = "FAKEROOT_ALL";

/// Optional: whether each decision is traced to the diagnostic stream.
pub const ENV_FAKEROOT_DEBUG: &'static str = "FAKEROOT_DEBUG";

/// The text of an optional setting.
pub open spec fn setting_view(v: Option<&str>) -> Option<Seq<char>> {
    match v {
        Some(s) => Some(s@),
        None => None,
    }
}

/// A flag is enabled when it is set to anything but `false` or `0`.
pub open spec fn flag_enabled(v: Option<Seq<char>>) -> bool {
    match v {
        Some(s) => s != "false"@ && s != "0"@,
        None => false,
    }
}

/// Whether a flag whose setting is `value` (`None` when unset) is enabled.
pub fn is_enabled(value: Option<&str>) -> (r: bool)
    ensures
        r == flag_enabled(setting_view(value)),
{
    match value {
        Some(s) => !same_text(s, "false") && !same_text(s, "0"),
        None => false,
    }
}

/// Why the shadow root could not be resolved.
#[derive(Clone, Copy, Debug, PartialEq, Eq, Structural)]
pub enum ConfigError {
    /// The shadow-root setting is absent.
    MissingConfig,
    /// The shadow-root setting is not an absolute path.
    NotAbsolute,
    /// The shadow-root setting names nothing on disk.
    RootNotFound,
}

/// The outcome of resolving the shadow root from its setting (`None` when
/// unset) and from whether that path exists on disk.
pub open spec fn root_outcome(setting: Option<Seq<char>>, on_disk: bool) -> Result<
    Seq<char>,
    ConfigError,
> {
    match setting {
        None => Err(ConfigError::MissingConfig),
        Some(s) => if !is_absolute(s) {
            Err(ConfigError::NotAbsolute)
        } else if !on_disk {
            Err(ConfigError::RootNotFound)
        } else {
            Ok(s)
        },
    }
}

/// The text of a resolved shadow root.
pub open spec fn root_view(root: &Result<String, ConfigError>) -> Result<Seq<char>, ConfigError> {
    match root {
        Ok(s) => Ok(s@),
        Err(e) => Err(*e),
    }
}

/// Resolves the shadow root from its setting (`None` when unset);
/// `on_disk` tells whether the path it names exists. The caller resolves it
/// once and keeps the outcome, failure included, for every later call.
pub fn get_fake_root(setting: Option<&str>, on_disk: bool) -> (r: Result<String, ConfigError>)
    ensures
        root_view(&r) == root_outcome(setting_view(setting), on_disk),
{
    match setting {
        None => Err(ConfigError::MissingConfig),
        Some(s) => if !is_absolute_path(s) {
            Err(ConfigError::NotAbsolute)
        } else if !on_disk {
            Err(ConfigError::RootNotFound)
        } else {
            Ok(String::from_str(s))
        },
    }
}

/// The policy flags, each read from its own setting.
#[derive(Clone, Copy, Debug, PartialEq, Eq, Structural)]
pub struct PolicyFlags {
    /// Directory opens are redirected too.
    pub dirs_enabled: bool,
    /// A path is redirected even where no shadow file exists.
    pub allow_missing: bool,
    /// Each decision is traced to the diagnostic stream.
    pub debug_enabled: bool,
}

impl PolicyFlags {
    /// Parses the three flag settings (`None` where unset).
    pub fn from_settings(dirs: Option<&str>, all: Option<&str>, debug: Option<&str>) -> (r: Self)
        ensures
            r.dirs_enabled == flag_enabled(setting_view(dirs)),
            r.allow_missing == flag_enabled(setting_view(all)),
            r.debug_enabled == flag_enabled(setting_view(debug)),
    {
        PolicyFlags {
            dirs_enabled: is_enabled(dirs),
            allow_missing: is_enabled(all),
            debug_enabled: is_enabled(debug),
        }
    }
}

} // verus!
