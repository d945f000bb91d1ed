//! The user-facing settings.
use vstd::prelude::*;
use crate::process::owned;

verus! {

/// User settings.
pub struct Config {
    /// The PHP version used when none is asked for.
    pub default_php: String,
}

impl Default for Config {
    /// PHP 8.5 by default.
    fn default() -> (c: Config)
        ensures
            c.default_php@ == "8.5"@,
    {
        Config { default_php: owned("8.5") }
    }
}

} // verus!
