//! The persisted configuration: a schema version and a username string.
//!
//! Storage itself (location and encoding) belongs to the host platform's
//! user-config mechanism and is driven from the binary; the library only
//! describes the record and the fallback taken when loading fails.

use vstd::prelude::*;

verus! {

/// The schema version tag under which the record is persisted.
pub const CONFIG_VERSION: u64 = 1;

/// Configuration data that persists between application runs.
#[derive(Debug)]
pub struct Config {
    /// The custom username shown on the greeting page; empty when unset.
    pub username: String,
}

impl Clone for Config {
    fn clone(&self) -> (r: Self)
        ensures
            r == *self,
    {
        Config { username: self.username.clone() }
    }
}

impl Default for Config {
    /// A fresh configuration carries no custom username.
    fn default() -> (r: Self)
        ensures
            r.username@ == Seq::<char>::empty(),
    {
        Config { username: String::new() }
    }
}

/// The configuration the application starts from: what the store yielded,
/// or the default when loading failed or nothing was stored.
pub fn load_or_default(loaded: Option<Config>) -> (r: Config)
    ensures
        loaded matches Some(c) ==> r == c,
        loaded is None ==> r.username@ == Seq::<char>::empty(),
{
    match loaded {
        Some(c) => c,
        None => Config::default(),
    }
}

} // verus!
