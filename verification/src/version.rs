//! Package versions.

use vstd::prelude::*;
use vstd::string::StringExecFns;

verus! {

/// A package version string.
#[derive(Clone, Debug)]
pub struct Version(String);

impl Version {
    /// The characters of this version.
    pub closed spec fn view(self) -> Seq<char> {
        self.0@
    }

    /// Create a new version.
    pub fn new(string: &str) -> (v: Version)
        ensures
            v@ == string@,
    {
        Version(String::from_str(string))
    }

    /// Get a string representation of this version.
    pub fn as_str(&self) -> (s: &str)
        ensures
            s@ == self@,
    {
        self.0.as_str()
    }
}

} // verus!
