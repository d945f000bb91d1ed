//! `link`: the project kinds a directory can be linked as.
use vstd::prelude::*;

verus! {

/// The kinds of projects that can be linked.
pub enum LinkCommand {
    Laravel { name: String, path: Option<String>, php_version: Option<String> },
    Symfony { name: String, path: Option<String>, php_version: Option<String> },
    Vite { name: String, path: Option<String>, port: u16 },
}

} // verus!
