//! What the root of the service answers.

use vstd::prelude::*;

verus! {

/// The name and version of the package that serves.
#[derive(Debug)]
pub struct PackageInfo {
    pub name: String,
    pub version: String,
}

/// The answer to a request for the package's name and version.
pub fn package_info(name: &str, version: &str) -> (info: PackageInfo)
    ensures
        info.name@ == name@,
        info.version@ == version@,
{
    PackageInfo { name: name.to_owned(), version: version.to_owned() }
}

} // verus!
