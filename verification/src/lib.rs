//! A safe library in the spirit of a pacman/libalpm wrapper: the piece with
//! real algorithmic content is a verified interpreter for C `printf`-style
//! format strings (the wrapper renders log-callback messages with it), next to
//! the plain data types of the wrapper — log levels, error codes, transaction
//! flags, signature levels and the like — with their bit-level conversions
//! proved exact. The [`Alpm`] value models the option state an instance
//! carries: the directory lists, the package lists, and the logging switches,
//! with every accessor's effect pinned down.

pub mod db;
pub mod error;
pub mod event;
pub mod ini;
pub mod laws;
pub mod log;
pub mod options;
pub mod package;
pub mod parser;
pub mod pgp;
pub mod render;
pub mod trans;
pub mod types;

use vstd::prelude::*;

verus! {

/// Removing the first occurrence of `t` from a list of strings: the list
/// unchanged when `t` does not occur.
pub open spec fn spec_remove_first(s: Seq<String>, t: Seq<char>) -> Seq<String>
    decreases s.len(),
{
    if s.len() == 0 {
        s
    } else if s[0]@ == t {
        s.drop_first()
    } else {
        seq![s[0]] + spec_remove_first(s.drop_first(), t)
    }
}

proof fn lemma_remove_first_at(s: Seq<String>, t: Seq<char>, i: int)
    requires
        0 <= i < s.len(),
        s[i]@ == t,
        forall|j: int| 0 <= j < i ==> s[j]@ != t,
    ensures
        spec_remove_first(s, t) == s.remove(i),
    decreases i,
{
    if i == 0 {
        assert(s.drop_first() =~= s.remove(0));
    } else {
        assert(s[0]@ != t);
        assert(s.drop_first()[i - 1]@ == t);
        assert forall|j: int| 0 <= j < i - 1 implies #[trigger] s.drop_first()[j]@ != t by {
            assert(s[j + 1]@ != t);
        }
        lemma_remove_first_at(s.drop_first(), t, i - 1);
        assert(seq![s[0]] + s.drop_first().remove(i - 1) =~= s.remove(i));
    }
}

proof fn lemma_remove_first_absent(s: Seq<String>, t: Seq<char>)
    requires
        forall|j: int| 0 <= j < s.len() ==> s[j]@ != t,
    ensures
        spec_remove_first(s, t) == s,
    decreases s.len(),
{
    if s.len() > 0 {
        assert(s[0]@ != t);
        assert forall|j: int| 0 <= j < s.drop_first().len() implies #[trigger] s.drop_first()[j]@
            != t by {
            assert(s[j + 1]@ != t);
        }
        lemma_remove_first_absent(s.drop_first(), t);
        assert(seq![s[0]] + s.drop_first() =~= s);
    }
}

/// Removes the first list entry equal to `name`, if any.
fn remove_first(v: &mut Vec<String>, name: &String)
    ensures
        final(v)@ == spec_remove_first(old(v)@, name@),
{
    let n = v.len();
    let mut i: usize = 0;
    while i < n
        invariant
            i <= n,
            n == v@.len(),
            v@ == old(v)@,
            forall|j: int| 0 <= j < i ==> old(v)@[j]@ != name@,
        decreases n - i,
    {
        if v[i] == *name {
            proof {
                lemma_remove_first_at(old(v)@, name@, i as int);
            }
            v.remove(i);
            return;
        }
        i = i + 1;
    }
    proof {
        lemma_remove_first_absent(old(v)@, name@);
    }
}

/// A model of one alpm instance's option state: what the native handle
/// stores for the configuration accessors. The native handle itself — the
/// databases on disk, the transaction machinery — stays with the native
/// library; this value carries the lists and switches that the wrapper
/// reads and writes, with each accessor's effect stated exactly.
#[derive(Debug, PartialEq, Eq, Clone)]
pub struct Alpm {
    pub cache_dirs: Vec<String>,
    pub hook_dirs: Vec<String>,
    pub log_file: String,
    pub gpg_dir: String,
    pub use_syslog: bool,
    pub no_upgrades: Vec<String>,
    pub ignore_pkgs: Vec<String>,
    pub ignore_groups: Vec<String>,
    pub assume_installed: Vec<String>,
}

impl Default for Alpm {
    /// A fresh instance: every list empty, every switch off.
    fn default() -> (r: Alpm)
        ensures
            r.cache_dirs@.len() == 0,
            r.hook_dirs@.len() == 0,
            r.log_file@.len() == 0,
            r.gpg_dir@.len() == 0,
            !r.use_syslog,
            r.no_upgrades@.len() == 0,
            r.ignore_pkgs@.len() == 0,
            r.ignore_groups@.len() == 0,
            r.assume_installed@.len() == 0,
    {
        Alpm {
            cache_dirs: Vec::new(),
            hook_dirs: Vec::new(),
            log_file: String::new(),
            gpg_dir: String::new(),
            use_syslog: false,
            no_upgrades: Vec::new(),
            ignore_pkgs: Vec::new(),
            ignore_groups: Vec::new(),
            assume_installed: Vec::new(),
        }
    }
}

impl Alpm {
    /// Gets the list of cache directories in use by this instance.
    pub fn cache_dirs(&self) -> (r: &Vec<String>)
        ensures
            r == self.cache_dirs,
    {
        &self.cache_dirs
    }

    /// Sets the list of cache directories in use by this instance.
    pub fn set_cache_dirs(&mut self, dirs: Vec<String>)
        ensures
            final(self).cache_dirs == dirs,
            *final(self) == (Alpm { cache_dirs: final(self).cache_dirs, ..*old(self) }),
    {
        self.cache_dirs = dirs;
    }

    /// Adds one entry to the list of cache directories in use by this instance.
    pub fn add_cache_dir(&mut self, dir: String)
        ensures
            final(self).cache_dirs@ == old(self).cache_dirs@.push(dir),
            *final(self) == (Alpm { cache_dirs: final(self).cache_dirs, ..*old(self) }),
    {
        self.cache_dirs.push(dir);
    }

    /// Removes the first entry equal to `dir` from the list of cache directories in use by this instance,
    /// if any.
    pub fn remove_cache_dir(&mut self, dir: &String)
        ensures
            final(self).cache_dirs@ == spec_remove_first(old(self).cache_dirs@, dir@),
            *final(self) == (Alpm { cache_dirs: final(self).cache_dirs, ..*old(self) }),
    {
        remove_first(&mut self.cache_dirs, dir);
    }

    /// Gets the list of hook directories in use by this instance.
    pub fn hook_dirs(&self) -> (r: &Vec<String>)
        ensures
            r == self.hook_dirs,
    {
        &self.hook_dirs
    }

    /// Sets the list of hook directories in use by this instance.
    pub fn set_hook_dirs(&mut self, dirs: Vec<String>)
        ensures
            final(self).hook_dirs == dirs,
            *final(self) == (Alpm { hook_dirs: final(self).hook_dirs, ..*old(self) }),
    {
        self.hook_dirs = dirs;
    }

    /// Adds one entry to the list of hook directories in use by this instance.
    pub fn add_hook_dir(&mut self, dir: String)
        ensures
            final(self).hook_dirs@ == old(self).hook_dirs@.push(dir),
            *final(self) == (Alpm { hook_dirs: final(self).hook_dirs, ..*old(self) }),
    {
        self.hook_dirs.push(dir);
    }

    /// Removes the first entry equal to `dir` from the list of hook directories in use by this instance,
    /// if any.
    pub fn remove_hook_dir(&mut self, dir: &String)
        ensures
            final(self).hook_dirs@ == spec_remove_first(old(self).hook_dirs@, dir@),
            *final(self) == (Alpm { hook_dirs: final(self).hook_dirs, ..*old(self) }),
    {
        remove_first(&mut self.hook_dirs, dir);
    }

    /// Gets the list of packages that should not be upgraded.
    pub fn no_upgrades(&self) -> (r: &Vec<String>)
        ensures
            r == self.no_upgrades,
    {
        &self.no_upgrades
    }

    /// Sets the list of packages that should not be upgraded.
    pub fn set_no_upgrades(&mut self, pkgs: Vec<String>)
        ensures
            final(self).no_upgrades == pkgs,
            *final(self) == (Alpm { no_upgrades: final(self).no_upgrades, ..*old(self) }),
    {
        self.no_upgrades = pkgs;
    }

    /// Adds one entry to the list of packages that should not be upgraded.
    pub fn add_no_upgrade(&mut self, pkg: String)
        ensures
            final(self).no_upgrades@ == old(self).no_upgrades@.push(pkg),
            *final(self) == (Alpm { no_upgrades: final(self).no_upgrades, ..*old(self) }),
    {
        self.no_upgrades.push(pkg);
    }

    /// Removes the first entry equal to `pkg` from the list of packages that should not be upgraded,
    /// if any.
    pub fn remove_no_upgrade(&mut self, pkg: &String)
        ensures
            final(self).no_upgrades@ == spec_remove_first(old(self).no_upgrades@, pkg@),
            *final(self) == (Alpm { no_upgrades: final(self).no_upgrades, ..*old(self) }),
    {
        remove_first(&mut self.no_upgrades, pkg);
    }

    /// Gets the list of packages that should be ignored.
    pub fn ignore_pkgs(&self) -> (r: &Vec<String>)
        ensures
            r == self.ignore_pkgs,
    {
        &self.ignore_pkgs
    }

    /// Sets the list of packages that should be ignored.
    pub fn set_ignore_pkgs(&mut self, pkgs: Vec<String>)
        ensures
            final(self).ignore_pkgs == pkgs,
            *final(self) == (Alpm { ignore_pkgs: final(self).ignore_pkgs, ..*old(self) }),
    {
        self.ignore_pkgs = pkgs;
    }

    /// Adds one entry to the list of packages that should be ignored.
    pub fn add_ignore_pkg(&mut self, pkg: String)
        ensures
            final(self).ignore_pkgs@ == old(self).ignore_pkgs@.push(pkg),
            *final(self) == (Alpm { ignore_pkgs: final(self).ignore_pkgs, ..*old(self) }),
    {
        self.ignore_pkgs.push(pkg);
    }

    /// Removes the first entry equal to `pkg` from the list of packages that should be ignored,
    /// if any.
    pub fn remove_ignore_pkg(&mut self, pkg: &String)
        ensures
            final(self).ignore_pkgs@ == spec_remove_first(old(self).ignore_pkgs@, pkg@),
            *final(self) == (Alpm { ignore_pkgs: final(self).ignore_pkgs, ..*old(self) }),
    {
        remove_first(&mut self.ignore_pkgs, pkg);
    }

    /// Gets the list of groups that should be ignored.
    pub fn ignore_groups(&self) -> (r: &Vec<String>)
        ensures
            r == self.ignore_groups,
    {
        &self.ignore_groups
    }

    /// Sets the list of groups that should be ignored.
    pub fn set_ignore_groups(&mut self, groups: Vec<String>)
        ensures
            final(self).ignore_groups == groups,
            *final(self) == (Alpm { ignore_groups: final(self).ignore_groups, ..*old(self) }),
    {
        self.ignore_groups = groups;
    }

    /// Adds one entry to the list of groups that should be ignored.
    pub fn add_ignore_group(&mut self, group: String)
        ensures
            final(self).ignore_groups@ == old(self).ignore_groups@.push(group),
            *final(self) == (Alpm { ignore_groups: final(self).ignore_groups, ..*old(self) }),
    {
        self.ignore_groups.push(group);
    }

    /// Removes the first entry equal to `group` from the list of groups that should be ignored,
    /// if any.
    pub fn remove_ignore_group(&mut self, group: &String)
        ensures
            final(self).ignore_groups@ == spec_remove_first(old(self).ignore_groups@, group@),
            *final(self) == (Alpm { ignore_groups: final(self).ignore_groups, ..*old(self) }),
    {
        remove_first(&mut self.ignore_groups, group);
    }

    /// Gets the list of dependencies a system upgrade assumes installed.
    pub fn assume_installed(&self) -> (r: &Vec<String>)
        ensures
            r == self.assume_installed,
    {
        &self.assume_installed
    }

    /// Sets the list of dependencies a system upgrade assumes installed.
    pub fn set_assume_installed(&mut self, deps: Vec<String>)
        ensures
            final(self).assume_installed == deps,
            *final(self) == (Alpm { assume_installed: final(self).assume_installed, ..*old(self) }),
    {
        self.assume_installed = deps;
    }

    /// Adds one entry to the list of dependencies a system upgrade assumes installed.
    pub fn add_assume_installed(&mut self, dep: String)
        ensures
            final(self).assume_installed@ == old(self).assume_installed@.push(dep),
            *final(self) == (Alpm { assume_installed: final(self).assume_installed, ..*old(self) }),
    {
        self.assume_installed.push(dep);
    }

    /// Removes the first entry equal to `dep` from the list of dependencies a system upgrade assumes installed,
    /// if any.
    pub fn remove_assume_installed(&mut self, dep: &String)
        ensures
            final(self).assume_installed@ == spec_remove_first(old(self).assume_installed@, dep@),
            *final(self) == (Alpm { assume_installed: final(self).assume_installed, ..*old(self) }),
    {
        remove_first(&mut self.assume_installed, dep);
    }

    /// Gets the log file location used by this instance.
    pub fn log_file(&self) -> (r: &String)
        ensures
            r == self.log_file,
    {
        &self.log_file
    }

    /// Sets the log file location used by this instance.
    pub fn set_log_file(&mut self, path: String)
        ensures
            final(self).log_file == path,
            *final(self) == (Alpm { log_file: final(self).log_file, ..*old(self) }),
    {
        self.log_file = path;
    }

    /// Gets the path to this instance's GnuPG home directory.
    pub fn gpg_dir(&self) -> (r: &String)
        ensures
            r == self.gpg_dir,
    {
        &self.gpg_dir
    }

    /// Sets the path to this instance's GnuPG home directory.
    pub fn set_gpg_dir(&mut self, path: String)
        ensures
            final(self).gpg_dir == path,
            *final(self) == (Alpm { gpg_dir: final(self).gpg_dir, ..*old(self) }),
    {
        self.gpg_dir = path;
    }

    /// Gets whether this instance logs events to syslog.
    pub fn use_syslog(&self) -> (r: bool)
        ensures
            r == self.use_syslog,
    {
        self.use_syslog
    }

    /// Sets whether this instance logs events to syslog.
    pub fn set_use_syslog(&mut self, value: bool)
        ensures
            final(self).use_syslog == value,
            *final(self) == (Alpm { use_syslog: final(self).use_syslog, ..*old(self) }),
    {
        self.use_syslog = value;
    }
}

} // verus!
