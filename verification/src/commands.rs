//! The arguments of winch's subcommands, and what `search`, `sync` and
//! `upgrade` announce.

use vstd::prelude::*;
use crate::text::{join2, owned};

verus! {

/// `winch install`: the package, the repository to take it from, and
/// whether to install from a local source.
pub struct InstallArgs {
    pub package: String,
    pub repo: Option<String>,
    pub local: bool,
}

/// `winch search`: the package, and whether to search locally only.
pub struct SearchArgs {
    pub package: String,
    pub local: bool,
}

/// `winch sync`: the repository to sync with, or every repository.
pub struct SyncArgs {
    pub repo: Option<String>,
}

/// `winch upgrade`: the package to upgrade and the repository to take it
/// from.
pub struct UpgradeArgs {
    pub package: Option<String>,
    pub repo: Option<String>,
}

/// Whether a repository argument stands for every repository: absent, or
/// `*`.
pub open spec fn all_repos(repo: Option<Seq<char>>) -> bool {
    match repo {
        None => true,
        Some(r) => r == seq!['*'],
    }
}

/// The view of an optional text.
pub open spec fn opt_view(s: Option<String>) -> Option<Seq<char>> {
    match s {
        Some(x) => Some(x@),
        None => None,
    }
}

/// Whether `repo` is `*`.
fn is_wildcard(repo: &str) -> (r: bool)
    ensures
        r == (repo@ == seq!['*']),
{
    if repo.unicode_len() != 1 {
        return false;
    }
    let c = repo.get_char(0);
    proof {
        if c == '*' {
            assert(repo@ =~= seq!['*']);
        }
    }
    c == '*'
}

fn names_all_repos(repo: &Option<String>) -> (r: bool)
    ensures
        r == all_repos(opt_view(*repo)),
{
    match repo {
        None => true,
        Some(r) => is_wildcard(r.as_str()),
    }
}

/// The announcement of an upgrade of `package`.
pub fn upgrade_message(package: &str, repo: &Option<String>) -> (r: String)
    ensures
        r@ == if all_repos(opt_view(*repo)) {
            "Upgrading package: "@ + package@ + " from all repos"@
        } else {
            "Upgrading package: "@ + package@ + " from repo: "@ + repo->Some_0@
        },
{
    let mut r = join2("Upgrading package: ", package);
    if names_all_repos(repo) {
        r.append(" from all repos");
    } else {
        match repo {
            Some(name) => {
                r.append(" from repo: ");
                r.append(name.as_str());
            },
            None => {},
        }
    }
    r
}

impl SearchArgs {
    /// The announcement of this search.
    pub fn message(&self) -> (r: String)
        ensures
            r@ == if self.local {
                "Searching for package: "@ + self.package@ + " locally"@
            } else {
                "Searching for package: "@ + self.package@ + " in remote repos"@
            },
    {
        let mut r = join2("Searching for package: ", self.package.as_str());
        if self.local {
            r.append(" locally");
        } else {
            r.append(" in remote repos");
        }
        r
    }
}

impl SyncArgs {
    /// The announcement of this sync.
    pub fn message(&self) -> (r: String)
        ensures
            r@ == if all_repos(opt_view(self.repo)) {
                "Syncing with all repos"@
            } else {
                "Syncing with repo: "@ + self.repo->Some_0@
            },
    {
        if names_all_repos(&self.repo) {
            owned("Syncing with all repos")
        } else {
            match &self.repo {
                Some(name) => join2("Syncing with repo: ", name.as_str()),
                None => owned("Syncing with all repos"),
            }
        }
    }
}

} // verus!
