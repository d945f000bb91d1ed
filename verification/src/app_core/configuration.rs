//! The PHP installations the application knows of.
use vstd::prelude::*;
use crate::process::owned;
use crate::text::same_text;

verus! {

/// One PHP installation.
pub struct PhpInstallation {
    pub fpm_config_path: String,
    pub fpm_socket_path: String,
    pub fpm_binary_path: Option<String>,
    pub cli_binary_path: Option<String>,
}

/// The application's configuration: PHP installations by version. No
/// version occurs twice ([`Configuration::wf`]); [`Configuration::insert`]
/// keeps it so, and the functions that read a configuration require it.
pub struct Configuration {
    pub php: Vec<(String, PhpInstallation)>,
}

/// The FPM socket of the first entry for `version`.
pub open spec fn socket_of(entries: Seq<(String, PhpInstallation)>, version: Seq<char>) -> Option<Seq<char>>
    decreases entries.len(),
{
    if entries.len() == 0 {
        None
    } else if entries[0].0@ == version {
        Some(entries[0].1.fpm_socket_path@)
    } else {
        socket_of(entries.drop_first(), version)
    }
}

impl Configuration {
    /// No two installations share a version.
    pub open spec fn wf(&self) -> bool {
        forall|i: int, j: int|
            0 <= i < j < self.php@.len() ==> #[trigger] self.php@[i].0@ != #[trigger] self.php@[j].0@
    }

    /// The version of entry `i`.
    pub open spec fn version(&self, i: int) -> Seq<char> {
        self.php@[i].0@
    }

    /// The entry of `version`, if there is one.
    pub open spec fn index_of(&self, version: Seq<char>) -> Option<int> {
        if exists|i: int| 0 <= i < self.php@.len() && self.version(i) == version {
            Some(choose|i: int| 0 <= i < self.php@.len() && self.version(i) == version)
        } else {
            None
        }
    }

    /// Records the installation of `version`, replacing the one recorded for
    /// it, if any, in its place; otherwise it is added at the end.
    pub fn insert(&mut self, version: String, install: PhpInstallation)
        requires
            old(self).wf(),
        ensures
            final(self).wf(),
            match old(self).index_of(version@) {
                Some(i) => final(self).php@ == old(self).php@.update(i, (version, install)),
                None => final(self).php@ == old(self).php@.push((version, install)),
            },
    {
        let mut i: usize = 0;
        while i < self.php.len()
            invariant
                i <= self.php@.len(),
                self.php@ == old(self).php@,
                old(self).wf(),
                forall|j: int| 0 <= j < i ==> old(self).version(j) != version@,
            decreases self.php.len() - i,
        {
            if same_text(self.php[i].0.as_str(), version.as_str()) {
                let ghost before = self.php@;
                proof {
                    assert(old(self).version(i as int) == version@);
                    let k = old(self).index_of(version@)->0;
                    assert(old(self).version(k) == version@);
                    assert(k == i) by {
                        if k < i {
                        } else if k > i {
                            assert(before[i as int].0@ != before[k].0@);
                        }
                    }
                }
                self.php.set(i, (version, install));
                proof {
                    assert(self.php@ =~= before.update(i as int, (version, install)));
                    assert forall|a: int, b: int| 0 <= a < b < self.php@.len() implies
                        #[trigger] self.php@[a].0@ != #[trigger] self.php@[b].0@ by {
                        assert(self.php@[a].0@ == before[a].0@);
                        assert(self.php@[b].0@ == before[b].0@);
                    }
                }
                return;
            }
            i = i + 1;
        }
        let ghost before = self.php@;
        assert(!(exists|j: int| 0 <= j < before.len() && old(self).version(j) == version@));
        self.php.push((version, install));
        proof {
            assert(self.php@ =~= before.push((version, install)));
            assert forall|a: int, b: int| 0 <= a < b < self.php@.len() implies
                #[trigger] self.php@[a].0@ != #[trigger] self.php@[b].0@ by {
                if b == before.len() {
                    assert(old(self).version(a) != version@);
                }
            }
        }
    }

    /// The FPM socket of the installation of `version`, if there is one.
    pub fn fpm_socket_for(&self, version: &str) -> (r: Option<String>)
        requires
            self.wf(),
        ensures
            r matches Some(s) ==> socket_of(self.php@, version@) == Some(s@),
            r is None ==> socket_of(self.php@, version@) is None,
    {
        let mut i: usize = 0;
        assert(self.php@.skip(0) =~= self.php@);
        while i < self.php.len()
            invariant
                i <= self.php@.len(),
                socket_of(self.php@, version@) == socket_of(self.php@.skip(i as int), version@),
            decreases self.php.len() - i,
        {
            let ghost rest = self.php@.skip(i as int);
            assert(rest[0] == self.php@[i as int]);
            if same_text(self.php[i].0.as_str(), version) {
                return Some(owned(self.php[i].1.fpm_socket_path.as_str()));
            }
            assert(rest.drop_first() =~= self.php@.skip(i + 1));
            i = i + 1;
        }
        None
    }
}

impl Default for Configuration {
    /// No installations.
    fn default() -> (c: Configuration)
        ensures
            c.php@.len() == 0,
            c.wf(),
    {
        Configuration { php: Vec::new() }
    }
}

} // verus!
