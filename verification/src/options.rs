//! Per-repository configuration.

use vstd::prelude::*;

verus! {

/// Config for a repository.
#[derive(Debug, PartialEq, Eq, Clone)]
pub struct RepoConfig {
    /// The urls of the repository's mirrors.
    pub servers: Vec<String>,
}

impl RepoConfig {
    pub fn new(servers: Vec<String>) -> (r: RepoConfig)
        ensures
            r.servers == servers,
    {
        RepoConfig { servers }
    }
}

impl Default for RepoConfig {
    /// No mirrors configured.
    fn default() -> (r: RepoConfig)
        ensures
            r.servers@.len() == 0,
    {
        RepoConfig { servers: Vec::new() }
    }
}

} // verus!
