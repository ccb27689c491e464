//! The four values the configuration collaborator hands to the core.

use vstd::prelude::*;
use vstd::string::StringExecFns;

verus! {

/// Settings fixed at process attach and treated as immutable afterwards.
#[derive(Debug, Clone)]
pub struct Config {
    /// Base address of the notifier service.
    pub notifier_host: String,
    /// Per-request timeout in milliseconds.
    pub timeout_ms: u64,
    /// Target frame rate; `-1` keeps the game's own value.
    pub target_fps: i32,
    /// Vsync count; `-1` keeps the game's own value.
    pub vsync_count: i32,
}

impl Config {
    /// A configuration holding the default of every field.
    pub open spec fn is_default(self) -> bool {
        &&& self.notifier_host@ == "http://127.0.0.1:4693"@
        &&& self.timeout_ms == 100
        &&& self.target_fps == -1
        &&& self.vsync_count == -1
    }

    pub fn default_notifier_host() -> (host: String)
        ensures
            host@ == "http://127.0.0.1:4693"@,
    {
        String::from_str("http://127.0.0.1:4693")
    }

    pub fn default_timeout_ms() -> (timeout: u64)
        ensures
            timeout == 100,
    {
        100
    }

    pub fn default_target_fps() -> (fps: i32)
        ensures
            fps == -1,
    {
        -1
    }

    pub fn default_vsync_count() -> (count: i32)
        ensures
            count == -1,
    {
        -1
    }

    /// Chooses the configuration to run with: the stored one when it was read
    /// and parsed, the defaults otherwise. The flag asks the caller to write
    /// the defaults back to disk.
    pub fn load(stored: Option<Config>) -> (loaded: (Config, bool))
        ensures
            stored matches Some(c) ==> loaded.0 == c && !loaded.1,
            stored is None ==> loaded.0.is_default() && loaded.1,
    {
        match stored {
            Some(config) => (config, false),
            None => (Config::default(), true),
        }
    }
}

impl Default for Config {
    fn default() -> (config: Config)
        ensures
            config.is_default(),
    {
        Config {
            notifier_host: Config::default_notifier_host(),
            timeout_ms: Config::default_timeout_ms(),
            target_fps: Config::default_target_fps(),
            vsync_count: Config::default_vsync_count(),
        }
    }
}

} // verus!
