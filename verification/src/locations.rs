//! Where packages are looked up and where their files live.

use vstd::prelude::*;
use crate::text::{join2, owned};

verus! {

/// The address that describes a package: its author and versions.
pub fn package_info_url(package: &str) -> (r: String)
    ensures
        r@ == "https://api.winchteam.dev/getInfo/"@ + package@,
{
    join2("https://api.winchteam.dev/getInfo/", package)
}

/// The address that tells where a given release of a package is published.
pub fn release_info_url(package: &str, author: &str, version: &str) -> (r: String)
    ensures
        r@ == "https://api.winchteam.dev/download/"@ + package@ + "/"@ + author@ + "/"@ + version@,
{
    let mut r = owned("https://api.winchteam.dev/download/");
    r.append(package);
    r.append("/");
    r.append(author);
    r.append("/");
    r.append(version);
    r
}

/// The name of the file that records an installed package.
pub fn sidecar_name(package: &str) -> (r: String)
    ensures
        r@ == package@ + ".json"@,
{
    join2(package, ".json")
}

/// The record of an installed package under a home directory.
pub fn sidecar_path(home: &str, package: &str) -> (r: String)
    ensures
        r@ == home@ + "/.winch/bin/"@ + package@ + ".json"@,
{
    let mut r = owned(home);
    r.append("/.winch/bin/");
    r.append(package);
    r.append(".json");
    r
}

/// The file `name` in the directory `dir`, joined with a slash.
pub fn file_in_dir(dir: &str, name: &str) -> (r: String)
    ensures
        r@ == dir@ + "/"@ + name@,
{
    let mut r = owned(dir);
    r.append("/");
    r.append(name);
    r
}

} // verus!
