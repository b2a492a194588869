//! Problems reported while preparing or committing a transaction.

use vstd::prelude::*;

verus! {

/// The kinds of pre-flight problems the engine reports
/// (`rpmProblemType_e` in the native engine).
#[allow(non_camel_case_types)]
#[derive(Copy, Clone, Debug, Eq, PartialEq, Structural, Hash)]
pub enum ProblemType {
    /// Package is for a different architecture.
    RPMPROB_BADARCH,
    /// Package is for a different operating system.
    RPMPROB_BADOS,
    /// Package is already installed.
    RPMPROB_PKG_INSTALLED,
    /// Path is not relocatable for the package.
    RPMPROB_BADRELOCATE,
    /// Package has unsatisfied requirements.
    RPMPROB_REQUIRES,
    /// Package has unsatisfied conflicts.
    RPMPROB_CONFLICT,
    /// File conflicts between attempted installs.
    RPMPROB_NEW_FILE_CONFLICT,
    /// File from an install conflicts with a file from another package.
    RPMPROB_FILE_CONFLICT,
    /// A newer package is already installed.
    RPMPROB_OLDPACKAGE,
    /// Installing the package needs more space on a filesystem.
    RPMPROB_DISKSPACE,
    /// Installing the package needs more inodes on a filesystem.
    RPMPROB_DISKNODES,
    /// Package is obsoleted by another.
    RPMPROB_OBSOLETES,
    /// Package did not pass verification.
    RPMPROB_VERIFY,
}

impl ProblemType {
    /// The numeric code of this problem type, as the native engine defines
    /// it.
    pub open spec fn spec_code(self) -> u32 {
        match self {
            ProblemType::RPMPROB_BADARCH => 0u32,
            ProblemType::RPMPROB_BADOS => 1u32,
            ProblemType::RPMPROB_PKG_INSTALLED => 2u32,
            ProblemType::RPMPROB_BADRELOCATE => 3u32,
            ProblemType::RPMPROB_REQUIRES => 4u32,
            ProblemType::RPMPROB_CONFLICT => 5u32,
            ProblemType::RPMPROB_NEW_FILE_CONFLICT => 6u32,
            ProblemType::RPMPROB_FILE_CONFLICT => 7u32,
            ProblemType::RPMPROB_OLDPACKAGE => 8u32,
            ProblemType::RPMPROB_DISKSPACE => 9u32,
            ProblemType::RPMPROB_DISKNODES => 10u32,
            ProblemType::RPMPROB_OBSOLETES => 11u32,
            ProblemType::RPMPROB_VERIFY => 12u32,
        }
    }

    /// The numeric code of this problem type, as the native engine defines
    /// it.
    pub fn code(self) -> (c: u32)
        ensures
            c == self.spec_code(),
    {
        match self {
            ProblemType::RPMPROB_BADARCH => 0u32,
            ProblemType::RPMPROB_BADOS => 1u32,
            ProblemType::RPMPROB_PKG_INSTALLED => 2u32,
            ProblemType::RPMPROB_BADRELOCATE => 3u32,
            ProblemType::RPMPROB_REQUIRES => 4u32,
            ProblemType::RPMPROB_CONFLICT => 5u32,
            ProblemType::RPMPROB_NEW_FILE_CONFLICT => 6u32,
            ProblemType::RPMPROB_FILE_CONFLICT => 7u32,
            ProblemType::RPMPROB_OLDPACKAGE => 8u32,
            ProblemType::RPMPROB_DISKSPACE => 9u32,
            ProblemType::RPMPROB_DISKNODES => 10u32,
            ProblemType::RPMPROB_OBSOLETES => 11u32,
            ProblemType::RPMPROB_VERIFY => 12u32,
        }
    }

    /// The problem type a numeric code denotes, or `None` for an
    /// unrecognized code.
    pub fn from_code(c: u32) -> (r: Option<ProblemType>)
        ensures
            match r {
                Some(t) => t.spec_code() == c,
                None => forall|t: ProblemType| t.spec_code() != c,
            },
    {
        match c {
            0u32 => Some(ProblemType::RPMPROB_BADARCH),
            1u32 => Some(ProblemType::RPMPROB_BADOS),
            2u32 => Some(ProblemType::RPMPROB_PKG_INSTALLED),
            3u32 => Some(ProblemType::RPMPROB_BADRELOCATE),
            4u32 => Some(ProblemType::RPMPROB_REQUIRES),
            5u32 => Some(ProblemType::RPMPROB_CONFLICT),
            6u32 => Some(ProblemType::RPMPROB_NEW_FILE_CONFLICT),
            7u32 => Some(ProblemType::RPMPROB_FILE_CONFLICT),
            8u32 => Some(ProblemType::RPMPROB_OLDPACKAGE),
            9u32 => Some(ProblemType::RPMPROB_DISKSPACE),
            10u32 => Some(ProblemType::RPMPROB_DISKNODES),
            11u32 => Some(ProblemType::RPMPROB_OBSOLETES),
            12u32 => Some(ProblemType::RPMPROB_VERIFY),
            _ => None,
        }
    }
}

/// One reported problem: its type, its rendered texts, and — for the two
/// disk problems — the missing amount.
#[derive(Debug)]
pub struct Problem {
    problem_type: ProblemType,
    text: String,
    data: String,
    nevr: String,
    alt_nevr: String,
    disk_need: u64,
}

impl Problem {
    /// The type of this problem.
    pub closed spec fn spec_type(self) -> ProblemType {
        self.problem_type
    }

    /// The rendered problem text.
    pub closed spec fn spec_text(self) -> Seq<char> {
        self.text@
    }

    /// The generic data string attached to this problem.
    pub closed spec fn spec_data(self) -> Seq<char> {
        self.data@
    }

    /// The identity of the package the problem is about.
    pub closed spec fn spec_nevr(self) -> Seq<char> {
        self.nevr@
    }

    /// The identity of the other package involved, when there is one.
    pub closed spec fn spec_alt_nevr(self) -> Seq<char> {
        self.alt_nevr@
    }

    /// The missing disk amount, meaningful for the disk problem types.
    pub closed spec fn spec_disk_need(self) -> u64 {
        self.disk_need
    }

    /// Assemble a problem from its parts.
    pub fn new(
        problem_type: ProblemType,
        text: String,
        data: String,
        nevr: String,
        alt_nevr: String,
        disk_need: u64,
    ) -> (p: Problem)
        ensures
            p.spec_type() == problem_type,
            p.spec_text() == text@,
            p.spec_data() == data@,
            p.spec_nevr() == nevr@,
            p.spec_alt_nevr() == alt_nevr@,
            p.spec_disk_need() == disk_need,
    {
        Problem { problem_type, text, data, nevr, alt_nevr, disk_need }
    }

    /// The type of this problem.
    pub fn problem_type(&self) -> (t: ProblemType)
        ensures
            t == self.spec_type(),
    {
        self.problem_type
    }

    /// The rendered problem text.
    pub fn string(&self) -> (s: &str)
        ensures
            s@ == self.spec_text(),
    {
        self.text.as_str()
    }

    /// The generic data string attached to this problem.
    pub fn data_string(&self) -> (s: &str)
        ensures
            s@ == self.spec_data(),
    {
        self.data.as_str()
    }

    /// The identity of the package the problem is about.
    pub fn nevr(&self) -> (s: &str)
        ensures
            s@ == self.spec_nevr(),
    {
        self.nevr.as_str()
    }

    /// The identity of the other package involved, when there is one.
    pub fn alt_nevr(&self) -> (s: &str)
        ensures
            s@ == self.spec_alt_nevr(),
    {
        self.alt_nevr.as_str()
    }

    /// Whether two problems describe the same condition: same type, same
    /// texts, same identities, same disk amount.
    pub fn equal(one: &Problem, two: &Problem) -> (r: bool)
        ensures
            r == (one.spec_type() == two.spec_type() && one.spec_text() == two.spec_text()
                && one.spec_data() == two.spec_data() && one.spec_nevr() == two.spec_nevr()
                && one.spec_alt_nevr() == two.spec_alt_nevr()
                && one.spec_disk_need() == two.spec_disk_need()),
    {
        one.problem_type == two.problem_type && one.text == two.text && one.data == two.data
            && one.nevr == two.nevr && one.alt_nevr == two.alt_nevr
            && one.disk_need == two.disk_need
    }

    /// The missing disk amount.
    ///
    /// Only the two disk problem types carry one, so any other type is
    /// ruled out up front rather than answered with a meaningless number.
    pub fn disk_requirement(&self) -> (n: u64)
        requires
            self.spec_type() == ProblemType::RPMPROB_DISKSPACE || self.spec_type()
                == ProblemType::RPMPROB_DISKNODES,
        ensures
            n == self.spec_disk_need(),
    {
        self.disk_need
    }
}

/// The problems a failed run reported, in the order the engine listed
/// them.
#[derive(Debug)]
pub struct ProblemSet {
    /// The reported problems.
    pub problems: Vec<Problem>,
}

} // verus!
