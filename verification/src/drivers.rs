//! The kinds of projects the application can serve.
pub mod laravel;

use vstd::prelude::*;
use crate::drivers::laravel::Laravel;

verus! {

/// What a site is served from.
pub struct ServeContext {
    /// The domain asked for, if any.
    pub domain: Option<String>,
    /// The project directory.
    pub path: String,
    /// The PHP version asked for, if any.
    pub php_version: Option<String>,
    /// The PHP-FPM socket of that version, if known.
    pub php_fpm: Option<String>,
}

/// A kind of project.
pub trait Driver {
    /// The name shown to the user.
    fn name(&self) -> (n: String);

    /// The paths that must all exist in a project directory for this driver
    /// to serve it, in the order they are checked.
    fn markers(&self, path: &str) -> (m: Vec<String>);
}

/// The drivers, in the order they are tried.
#[derive(Debug, Clone, Copy, PartialEq, Eq, Structural)]
pub enum DriverKind {
    Laravel,
}

/// The drivers the application knows, in the order they are tried.
pub fn drivers() -> (d: Vec<DriverKind>)
    ensures
        d@ == seq![DriverKind::Laravel],
{
    let mut d: Vec<DriverKind> = Vec::new();
    d.push(DriverKind::Laravel);
    assert(d@ =~= seq![DriverKind::Laravel]);
    d
}

} // verus!
