//! Package licenses.

use vstd::prelude::*;
use vstd::string::StringExecFns;

verus! {

/// A package license string.
#[derive(Clone, Debug)]
pub struct License(String);

impl License {
    /// The characters of this license.
    pub closed spec fn view(self) -> Seq<char> {
        self.0@
    }

    /// Create a new license.
    pub fn new(string: &str) -> (l: License)
        ensures
            l@ == string@,
    {
        License(String::from_str(string))
    }

    /// Get a string representation of this license.
    pub fn as_str(&self) -> (s: &str)
        ensures
            s@ == self@,
    {
        self.0.as_str()
    }
}

} // verus!
