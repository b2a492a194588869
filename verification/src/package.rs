//! Packages: owned, fully detached snapshots of one record's metadata.
//!
//! A `Package` is the safe exit point from the native core: once built it
//! holds owned strings and plain integers only, and depends on no native
//! handle.

use vstd::prelude::*;
use vstd::string::StringExecFns;

verus! {

/// The decimal digit character for `d`.
pub open spec fn digit_char(d: int) -> char {
    if d == 0 {
        '0'
    } else if d == 1 {
        '1'
    } else if d == 2 {
        '2'
    } else if d == 3 {
        '3'
    } else if d == 4 {
        '4'
    } else if d == 5 {
        '5'
    } else if d == 6 {
        '6'
    } else if d == 7 {
        '7'
    } else if d == 8 {
        '8'
    } else {
        '9'
    }
}

/// The decimal rendering of a non-negative integer.
pub open spec fn dec_str(n: int) -> Seq<char>
    decreases n,
{
    if n < 10 {
        seq![digit_char(n)]
    } else {
        dec_str(n / 10) + seq![digit_char(n % 10)]
    }
}

/// The decimal rendering of an integer, with a leading minus sign when
/// negative.
pub open spec fn int_str(v: int) -> Seq<char> {
    if v < 0 {
        seq!['-'] + dec_str(-v)
    } else {
        dec_str(v)
    }
}

/// The one-character string for a decimal digit.
fn digit_string(d: u32) -> (s: &'static str)
    requires
        d < 10,
    ensures
        s@ == seq![digit_char(d as int)],
{
    proof {
        reveal_strlit("0");
        reveal_strlit("1");
        reveal_strlit("2");
        reveal_strlit("3");
        reveal_strlit("4");
        reveal_strlit("5");
        reveal_strlit("6");
        reveal_strlit("7");
        reveal_strlit("8");
        reveal_strlit("9");
    }
    let s = match d {
        0u32 => "0",
        1u32 => "1",
        2u32 => "2",
        3u32 => "3",
        4u32 => "4",
        5u32 => "5",
        6u32 => "6",
        7u32 => "7",
        8u32 => "8",
        _ => "9",
    };
    proof {
        assert(s@ =~= seq![digit_char(d as int)]);
    }
    s
}

/// Render a non-negative integer in decimal.
fn u32_string(n: u32) -> (s: String)
    ensures
        s@ == dec_str(n as int),
    decreases n,
{
    if n < 10 {
        let mut s = String::new();
        s.append(digit_string(n));
        proof {
            assert(s@ =~= dec_str(n as int));
        }
        s
    } else {
        let mut s = u32_string(n / 10);
        s.append(digit_string(n % 10));
        proof {
            assert(s@ =~= dec_str(n as int));
        }
        s
    }
}

/// Render an integer in decimal, with a leading minus sign when negative.
pub(crate) fn i32_string(v: i32) -> (s: String)
    ensures
        s@ == int_str(v as int),
{
    if v < 0 {
        let m: u32 = (-(v as i64)) as u32;
        let mut s = String::new();
        proof {
            reveal_strlit("-");
        }
        s.append("-");
        let digits = u32_string(m);
        s.append(digits.as_str());
        proof {
            assert(s@ =~= int_str(v as int));
        }
        s
    } else {
        let s = u32_string(v as u32);
        proof {
            assert(s@ =~= int_str(v as int));
        }
        s
    }
}

/// Whether two borrowed strings spell the same characters.
pub(crate) fn str_eq(a: &str, b: &str) -> (r: bool)
    ensures
        r == (a@ == b@),
{
    let sa: String = a.to_owned();
    let sb: String = b.to_owned();
    sa == sb
}

/// An owned snapshot of one package's metadata.
#[derive(Debug)]
pub struct Package {
    name: String,
    epoch: Option<i32>,
    version: String,
    release: String,
    arch: Option<String>,
    license: String,
    summary: String,
    description: String,
    buildtime: i32,
}

impl Package {
    /// The name, as a sequence of characters.
    pub closed spec fn spec_name(self) -> Seq<char> {
        self.name@
    }

    /// The epoch, when the record carries one.
    pub closed spec fn spec_epoch(self) -> Option<i32> {
        self.epoch
    }

    /// The version, as a sequence of characters.
    pub closed spec fn spec_version(self) -> Seq<char> {
        self.version@
    }

    /// The release, as a sequence of characters.
    pub closed spec fn spec_release(self) -> Seq<char> {
        self.release@
    }

    /// The architecture, when the record carries one.
    pub closed spec fn spec_arch(self) -> Option<Seq<char>> {
        match self.arch {
            Some(a) => Some(a@),
            None => None,
        }
    }

    /// The license, as a sequence of characters.
    pub closed spec fn spec_license(self) -> Seq<char> {
        self.license@
    }

    /// The summary, as a sequence of characters.
    pub closed spec fn spec_summary(self) -> Seq<char> {
        self.summary@
    }

    /// The description, as a sequence of characters.
    pub closed spec fn spec_description(self) -> Seq<char> {
        self.description@
    }

    /// The build time, in seconds since the epoch.
    pub closed spec fn spec_buildtime(self) -> i32 {
        self.buildtime
    }

    /// Assemble a package from its fields.
    pub fn new(
        name: String,
        epoch: Option<i32>,
        version: String,
        release: String,
        arch: Option<String>,
        license: String,
        summary: String,
        description: String,
        buildtime: i32,
    ) -> (p: Package)
        ensures
            p.spec_name() == name@,
            p.spec_epoch() == epoch,
            p.spec_version() == version@,
            p.spec_release() == release@,
            p.spec_arch() == (match arch {
                Some(a) => Some::<Seq<char>>(a@),
                None => None::<Seq<char>>,
            }),
            p.spec_license() == license@,
            p.spec_summary() == summary@,
            p.spec_description() == description@,
            p.spec_buildtime() == buildtime,
    {
        Package { name, epoch, version, release, arch, license, summary, description, buildtime }
    }

    /// Name of the package.
    pub fn name(&self) -> (s: &str)
        ensures
            s@ == self.spec_name(),
    {
        self.name.as_str()
    }

    /// Epoch of the package.
    pub fn epoch(&self) -> (e: Option<i32>)
        ensures
            e == self.spec_epoch(),
    {
        self.epoch
    }

    /// Version of the package.
    pub fn version(&self) -> (s: &str)
        ensures
            s@ == self.spec_version(),
    {
        self.version.as_str()
    }

    /// Release of the package.
    pub fn release(&self) -> (s: &str)
        ensures
            s@ == self.spec_release(),
    {
        self.release.as_str()
    }

    /// Arch of the package.
    pub fn arch(&self) -> (a: Option<&str>)
        ensures
            match self.spec_arch() {
                Some(v) => a matches Some(s) && s@ == v,
                None => a is None,
            },
    {
        match &self.arch {
            Some(a) => Some(a.as_str()),
            None => None,
        }
    }

    /// License of the package.
    pub fn license(&self) -> (s: &str)
        ensures
            s@ == self.spec_license(),
    {
        self.license.as_str()
    }

    /// Succinct description of the package.
    pub fn summary(&self) -> (s: &str)
        ensures
            s@ == self.spec_summary(),
    {
        self.summary.as_str()
    }

    /// Longer description of the package.
    pub fn description(&self) -> (s: &str)
        ensures
            s@ == self.spec_description(),
    {
        self.description.as_str()
    }

    /// Build time of the package, in seconds since the epoch.
    pub fn buildtime(&self) -> (t: i32)
        ensures
            t == self.spec_buildtime(),
    {
        self.buildtime
    }

    /// The EVR (epoch, version, release) rendering: `epoch:version-release`
    /// with the epoch part present only when the package carries one.
    pub open spec fn spec_evr(self) -> Seq<char> {
        match self.spec_epoch() {
            Some(e) => int_str(e as int) + seq![':'] + self.spec_version() + seq!['-']
                + self.spec_release(),
            None => self.spec_version() + seq!['-'] + self.spec_release(),
        }
    }

    /// EVR (epoch, version, release) of the package.
    pub fn evr(&self) -> (s: String)
        ensures
            s@ == self.spec_evr(),
    {
        proof {
            reveal_strlit(":");
            reveal_strlit("-");
        }
        let mut s = String::new();
        match &self.epoch {
            Some(e) => {
                let d = i32_string(*e);
                s.append(d.as_str());
                s.append(":");
            },
            None => {},
        }
        s.append(self.version.as_str());
        s.append("-");
        s.append(self.release.as_str());
        proof {
            assert(s@ =~= self.spec_evr());
        }
        s
    }

    /// The NEVRA rendering: `name-evr`, with `.arch` appended when the
    /// package carries an architecture.
    pub open spec fn spec_nevra(self) -> Seq<char> {
        match self.spec_arch() {
            Some(a) => self.spec_name() + seq!['-'] + self.spec_evr() + seq!['.'] + a,
            None => self.spec_name() + seq!['-'] + self.spec_evr(),
        }
    }

    /// NEVRA (name, epoch, version, release, arch) of the package.
    pub fn nevra(&self) -> (s: String)
        ensures
            s@ == self.spec_nevra(),
    {
        proof {
            reveal_strlit("-");
            reveal_strlit(".");
        }
        let mut s = String::new();
        s.append(self.name.as_str());
        s.append("-");
        let evr = self.evr();
        s.append(evr.as_str());
        match &self.arch {
            Some(a) => {
                s.append(".");
                s.append(a.as_str());
            },
            None => {},
        }
        proof {
            assert(s@ =~= self.spec_nevra());
        }
        s
    }
}

} // verus!
