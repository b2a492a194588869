//! Transaction sets: the vehicle through which all database and
//! install/erase/reinstall operations are staged and committed.
//!
//! One shared transaction set is reused across operations; `clean` returns
//! it to a neutral state between uses.  Staging appends elements — no
//! engine work happens until `run`.

use vstd::prelude::*;
use crate::error::{Error, ErrorKind};
use crate::internal::problem::{Problem, ProblemSet};
use crate::internal::te::{ElementType, ElementTypeFilter, TransactionElement};
use crate::package::Package;

verus! {

/// Behavior modifier: dry run, no changes committed.
pub const TRANS_FLAG_TEST: u32 = 0x1;

/// Behavior modifier: stop after building the problem set.
pub const TRANS_FLAG_BUILD_PROBS: u32 = 0x2;

/// Behavior modifier: do not run package scripts.
pub const TRANS_FLAG_NOSCRIPTS: u32 = 0x4;

/// Behavior modifier: update the database only, touch no files.
pub const TRANS_FLAG_JUSTDB: u32 = 0x8;

/// Behavior modifier: do not run triggers.
pub const TRANS_FLAG_NOTRIGGERS: u32 = 0x10;

/// Behavior modifier: skip documentation files.
pub const TRANS_FLAG_NODOCS: u32 = 0x20;

/// Behavior modifier: install all files, even skipped ones.
pub const TRANS_FLAG_ALLFILES: u32 = 0x40;

/// Behavior modifier: do not load plugins.
pub const TRANS_FLAG_NOPLUGINS: u32 = 0x80;

/// Behavior modifier: do not set file security contexts.
pub const TRANS_FLAG_NOCONTEXTS: u32 = 0x100;

/// Pre-flight filter: ignore operating-system mismatches.
pub const PROB_FILTER_IGNOREOS: u32 = 0x1;

/// Pre-flight filter: ignore architecture mismatches.
pub const PROB_FILTER_IGNOREARCH: u32 = 0x2;

/// Pre-flight filter: allow replacing an already installed package.
pub const PROB_FILTER_REPLACEPKG: u32 = 0x4;

/// Pre-flight filter: force relocation of non-relocatable paths.
pub const PROB_FILTER_FORCERELOCATE: u32 = 0x8;

/// Pre-flight filter: allow replacing files new in this transaction.
pub const PROB_FILTER_REPLACENEWFILES: u32 = 0x10;

/// Pre-flight filter: allow replacing files of installed packages.
pub const PROB_FILTER_REPLACEOLDFILES: u32 = 0x20;

/// Pre-flight filter: allow downgrading to an older package.
pub const PROB_FILTER_OLDPACKAGE: u32 = 0x40;

/// Pre-flight filter: ignore missing disk space.
pub const PROB_FILTER_DISKSPACE: u32 = 0x80;

/// Pre-flight filter: ignore missing inodes.
pub const PROB_FILTER_DISKNODES: u32 = 0x100;

/// A composable set of transaction behavior modifiers.
#[derive(Copy, Clone, Debug, Eq, PartialEq, Structural, Hash)]
pub struct TransFlags {
    /// The union of the selected modifiers' bits.
    pub bits: u32,
}

impl TransFlags {
    /// No modifiers.
    pub fn none() -> (f: TransFlags)
        ensures
            f.bits == 0u32,
    {
        TransFlags { bits: 0 }
    }

    /// The set holding exactly the given bits.
    pub fn from_bits(bits: u32) -> (f: TransFlags)
        ensures
            f.bits == bits,
    {
        TransFlags { bits }
    }

    /// The union of two sets.
    pub fn union(self, other: TransFlags) -> (f: TransFlags)
        ensures
            f.bits == (self.bits | other.bits),
    {
        TransFlags { bits: self.bits | other.bits }
    }

    /// The intersection of two sets.
    pub fn intersect(self, other: TransFlags) -> (f: TransFlags)
        ensures
            f.bits == (self.bits & other.bits),
    {
        TransFlags { bits: self.bits & other.bits }
    }

    /// Whether every modifier of `other` is selected here too.
    pub fn contains(self, other: TransFlags) -> (b: bool)
        ensures
            b == ((self.bits & other.bits) == other.bits),
    {
        (self.bits & other.bits) == other.bits
    }
}

/// A composable set of pre-flight problem filters.
#[derive(Copy, Clone, Debug, Eq, PartialEq, Structural, Hash)]
pub struct FilterFlags {
    /// The union of the selected filters' bits.
    pub bits: u32,
}

impl FilterFlags {
    /// No filters.
    pub fn none() -> (f: FilterFlags)
        ensures
            f.bits == 0u32,
    {
        FilterFlags { bits: 0 }
    }

    /// The set holding exactly the given bits.
    pub fn from_bits(bits: u32) -> (f: FilterFlags)
        ensures
            f.bits == bits,
    {
        FilterFlags { bits }
    }

    /// The union of two sets.
    pub fn union(self, other: FilterFlags) -> (f: FilterFlags)
        ensures
            f.bits == (self.bits | other.bits),
    {
        FilterFlags { bits: self.bits | other.bits }
    }

    /// The intersection of two sets.
    pub fn intersect(self, other: FilterFlags) -> (f: FilterFlags)
        ensures
            f.bits == (self.bits & other.bits),
    {
        FilterFlags { bits: self.bits & other.bits }
    }

    /// Whether every filter of `other` is selected here too.
    pub fn contains(self, other: FilterFlags) -> (b: bool)
        ensures
            b == ((self.bits & other.bits) == other.bits),
    {
        (self.bits & other.bits) == other.bits
    }
}

/// Whether `e` stages the identity of `pkg` with classification `et`, with
/// no operating system recorded.
pub open spec fn element_for(pkg: Package, et: ElementType, e: TransactionElement) -> bool {
    &&& e.spec_element_type() == et
    &&& e.spec_name() == pkg.spec_name()
    &&& e.spec_epoch() == pkg.spec_epoch()
    &&& e.spec_version() == pkg.spec_version()
    &&& e.spec_release() == pkg.spec_release()
    &&& e.spec_arch() == pkg.spec_arch()
    &&& e.spec_os() is None
    &&& e.spec_problems().len() == 0
}

/// A transaction set: the staged elements, the selected behavior
/// modifiers, and the configured root directory.
pub struct TransactionSet {
    elements: Vec<TransactionElement>,
    flags: TransFlags,
    root_dir: Option<String>,
    has_notify: bool,
}

impl TransactionSet {
    /// The staged elements, in staging order.
    pub closed spec fn spec_elements(self) -> Seq<TransactionElement> {
        self.elements@
    }

    /// The selected behavior modifiers.
    pub closed spec fn spec_flags(self) -> TransFlags {
        self.flags
    }

    /// The configured root directory, when one was set.
    pub closed spec fn spec_root_dir(self) -> Option<Seq<char>> {
        match self.root_dir {
            Some(p) => Some(p@),
            None => None,
        }
    }

    /// Whether a progress callback was registered.
    pub closed spec fn spec_has_notify(self) -> bool {
        self.has_notify
    }

    /// Create a transaction set: empty, no modifiers, no root directory,
    /// no callback.
    pub fn create() -> (ts: TransactionSet)
        ensures
            ts.spec_elements().len() == 0,
            ts.spec_flags().bits == 0u32,
            ts.spec_root_dir() is None,
            !ts.spec_has_notify(),
    {
        TransactionSet {
            elements: Vec::new(),
            flags: TransFlags { bits: 0 },
            root_dir: None,
            has_notify: false,
        }
    }

    /// Return the set to a neutral state between uses: the staged
    /// elements are dropped; modifiers, root directory and callback
    /// registration stay.
    pub fn clean(&mut self)
        ensures
            final(self).spec_elements().len() == 0,
            final(self).spec_flags() == old(self).spec_flags(),
            final(self).spec_root_dir() == old(self).spec_root_dir(),
            final(self).spec_has_notify() == old(self).spec_has_notify(),
    {
        self.elements = Vec::new();
    }

    /// The number of staged elements.
    pub fn element_length(&self) -> (n: usize)
        ensures
            n == self.spec_elements().len(),
    {
        self.elements.len()
    }

    /// The staged element at `index`.
    ///
    /// An out-of-range index indicates a broken invariant, so it is ruled
    /// out up front rather than clamped.
    pub fn get_element(&self, index: usize) -> (e: &TransactionElement)
        requires
            index < self.spec_elements().len(),
        ensures
            *e == self.spec_elements()[index as int],
    {
        &self.elements[index]
    }

    /// The selected behavior modifiers.
    pub fn flags(&self) -> (f: TransFlags)
        ensures
            f == self.spec_flags(),
    {
        self.flags
    }

    /// Select the behavior modifiers, returning the previous selection.
    pub fn set_flags(&mut self, flags: TransFlags) -> (prev: TransFlags)
        ensures
            prev == old(self).spec_flags(),
            final(self).spec_flags() == flags,
            final(self).spec_elements() == old(self).spec_elements(),
            final(self).spec_root_dir() == old(self).spec_root_dir(),
            final(self).spec_has_notify() == old(self).spec_has_notify(),
    {
        let prev = self.flags;
        self.flags = flags;
        prev
    }

    /// Configure the root directory for the transaction.
    ///
    /// `rc` is the native call's verdict on the proposed path; a non-zero
    /// verdict leaves the set unchanged and reports the rejection.
    pub fn set_root_dir(&mut self, path: &str, rc: i32) -> (r: Result<(), Error>)
        ensures
            r is Ok <==> rc == 0,
            r is Ok ==> final(self).spec_root_dir() == Some(path@)
                && final(self).spec_elements() == old(self).spec_elements()
                && final(self).spec_flags() == old(self).spec_flags()
                && final(self).spec_has_notify() == old(self).spec_has_notify(),
            r is Err ==> *final(self) == *old(self),
            r matches Err(e) ==> e.spec_kind() == ErrorKind::InvalidRootDir,
    {
        if rc == 0 {
            self.root_dir = Some(path.to_owned());
            Ok(())
        } else {
            Err(Error::new(ErrorKind::InvalidRootDir, None))
        }
    }

    /// The configured root directory, when one was set.
    pub fn root_dir(&self) -> (p: Option<&str>)
        ensures
            match self.spec_root_dir() {
                Some(v) => p matches Some(s) && s@ == v,
                None => p is None,
            },
    {
        match &self.root_dir {
            Some(p) => Some(p.as_str()),
            None => None,
        }
    }

    /// Register a progress callback with the engine for later invocation
    /// during `run`.  The callback itself lives with the native shell;
    /// here only the registration is tracked.
    pub fn set_notify_callback(&mut self)
        ensures
            final(self).spec_has_notify(),
            final(self).spec_elements() == old(self).spec_elements(),
            final(self).spec_flags() == old(self).spec_flags(),
            final(self).spec_root_dir() == old(self).spec_root_dir(),
    {
        self.has_notify = true;
    }

    /// Stage an installation of `pkg`.
    ///
    /// `rc` is the native staging call's verdict; on success the element
    /// is appended — no engine work happens yet.
    pub fn add_install_element(&mut self, pkg: &Package, rc: i32) -> (r: Result<(), Error>)
        ensures
            r is Ok <==> rc == 0,
            r is Ok ==> final(self).spec_elements().len() == old(self).spec_elements().len() + 1
                && final(self).spec_elements().drop_last() == old(self).spec_elements()
                && element_for(*pkg, ElementType::ADDED, final(self).spec_elements().last()),
            r is Ok ==> final(self).spec_flags() == old(self).spec_flags()
                && final(self).spec_root_dir() == old(self).spec_root_dir()
                && final(self).spec_has_notify() == old(self).spec_has_notify(),
            r is Err ==> *final(self) == *old(self),
            r matches Err(e) ==> e.spec_kind() == ErrorKind::TransactionElement,
    {
        self.stage(pkg, ElementType::ADDED, rc)
    }

    /// Stage a reinstallation of `pkg`.
    pub fn add_reinstall_element(&mut self, pkg: &Package, rc: i32) -> (r: Result<(), Error>)
        ensures
            r is Ok <==> rc == 0,
            r is Ok ==> final(self).spec_elements().len() == old(self).spec_elements().len() + 1
                && final(self).spec_elements().drop_last() == old(self).spec_elements()
                && element_for(*pkg, ElementType::ADDED, final(self).spec_elements().last()),
            r is Ok ==> final(self).spec_flags() == old(self).spec_flags()
                && final(self).spec_root_dir() == old(self).spec_root_dir()
                && final(self).spec_has_notify() == old(self).spec_has_notify(),
            r is Err ==> *final(self) == *old(self),
            r matches Err(e) ==> e.spec_kind() == ErrorKind::TransactionElement,
    {
        self.stage(pkg, ElementType::ADDED, rc)
    }

    /// Stage an erasure of `pkg`.
    pub fn add_erase_element(&mut self, pkg: &Package, rc: i32) -> (r: Result<(), Error>)
        ensures
            r is Ok <==> rc == 0,
            r is Ok ==> final(self).spec_elements().len() == old(self).spec_elements().len() + 1
                && final(self).spec_elements().drop_last() == old(self).spec_elements()
                && element_for(*pkg, ElementType::REMOVED, final(self).spec_elements().last()),
            r is Ok ==> final(self).spec_flags() == old(self).spec_flags()
                && final(self).spec_root_dir() == old(self).spec_root_dir()
                && final(self).spec_has_notify() == old(self).spec_has_notify(),
            r is Err ==> *final(self) == *old(self),
            r matches Err(e) ==> e.spec_kind() == ErrorKind::TransactionElement,
    {
        self.stage(pkg, ElementType::REMOVED, rc)
    }

    /// Append one staged element for `pkg` when the native verdict allows
    /// it.
    fn stage(&mut self, pkg: &Package, et: ElementType, rc: i32) -> (r: Result<(), Error>)
        ensures
            r is Ok <==> rc == 0,
            r is Ok ==> final(self).spec_elements().len() == old(self).spec_elements().len() + 1
                && final(self).spec_elements().drop_last() == old(self).spec_elements()
                && element_for(*pkg, et, final(self).spec_elements().last()),
            r is Ok ==> final(self).spec_flags() == old(self).spec_flags()
                && final(self).spec_root_dir() == old(self).spec_root_dir()
                && final(self).spec_has_notify() == old(self).spec_has_notify(),
            r is Err ==> *final(self) == *old(self),
            r matches Err(e) ==> e.spec_kind() == ErrorKind::TransactionElement,
    {
        if rc == 0 {
            let arch = match pkg.arch() {
                Some(a) => Some(a.to_owned()),
                None => None,
            };
            let e = TransactionElement::new(
                et,
                pkg.name(),
                pkg.epoch(),
                pkg.version(),
                pkg.release(),
                arch,
                None,
            );
            self.elements.push(e);
            proof {
                assert(self.elements@.drop_last() =~= old(self).elements@);
            }
            Ok(())
        } else {
            Err(Error::new(ErrorKind::TransactionElement, None))
        }
    }

    /// The outcome of committing this transaction.
    ///
    /// `rc` is the native run's verdict and `problems` what it reported;
    /// zero means every staged action went through, anything else
    /// surfaces the problem set rather than a bare failure.
    pub fn run(&self, rc: i32, problems: Vec<Problem>) -> (r: Result<(), ProblemSet>)
        ensures
            r is Ok <==> rc == 0,
            r matches Err(ps) ==> ps.problems@ == problems@,
    {
        if rc == 0 {
            Ok(())
        } else {
            Err(ProblemSet { problems })
        }
    }
}

/// The position of the first element at or after `i` whose class the
/// filter accepts, or the length when there is none.
pub open spec fn next_accepted(
    elems: Seq<TransactionElement>,
    filter: ElementTypeFilter,
    i: int,
) -> int
    decreases elems.len() - i,
{
    if i < 0 || i >= elems.len() {
        elems.len() as int
    } else if filter.spec_accepts(elems[i].spec_element_type()) {
        i
    } else {
        next_accepted(elems, filter, i + 1)
    }
}

/// A forward-only, non-restartable walk over the staged elements whose
/// class a filter accepts.
pub struct TransactionSetIterator {
    pos: usize,
    filter: ElementTypeFilter,
}

impl TransactionSetIterator {
    /// How far the walk has come.
    pub closed spec fn spec_pos(self) -> int {
        self.pos as int
    }

    /// The classes this walk selects.
    pub closed spec fn spec_filter(self) -> ElementTypeFilter {
        self.filter
    }

    /// The next accepted element of `ts`, or `None` once the walk is
    /// past the last one.
    pub fn next<'a>(&mut self, ts: &'a TransactionSet) -> (r: Option<&'a TransactionElement>)
        ensures
            final(self).spec_filter() == old(self).spec_filter(),
            ({
                let k = next_accepted(ts.spec_elements(), old(self).spec_filter(), old(self).spec_pos());
                if k < ts.spec_elements().len() {
                    &&& (r matches Some(e) && *e == ts.spec_elements()[k])
                    &&& final(self).spec_pos() == k + 1
                } else {
                    &&& r is None
                    &&& final(self).spec_pos() >= ts.spec_elements().len()
                }
            }),
    {
        let ghost elems = ts.spec_elements();
        let ghost pos0 = self.spec_pos();
        let n = ts.element_length();
        if self.pos >= n {
            proof {
                assert(next_accepted(elems, self.filter, pos0) == elems.len() as int);
            }
            return None;
        }
        let mut i: usize = self.pos;
        while i < n
            invariant
                n == elems.len(),
                elems == ts.spec_elements(),
                0 <= i <= n,
                self.filter == old(self).spec_filter(),
                pos0 == old(self).spec_pos(),
                pos0 <= i,
                next_accepted(elems, self.filter, pos0) == next_accepted(elems, self.filter, i as int),
            decreases n - i,
        {
            if self.filter.accepts(ts.get_element(i).element_type()) {
                self.pos = i + 1;
                return Some(ts.get_element(i));
            }
            i = i + 1;
        }
        self.pos = n;
        None
    }
}

impl TransactionSet {
    /// Walk the staged elements whose class the filter accepts, in
    /// staging order: forward-only, non-restartable.
    pub fn iter(&self, filter: ElementTypeFilter) -> (it: TransactionSetIterator)
        ensures
            it.spec_pos() == 0,
            it.spec_filter() == filter,
    {
        TransactionSetIterator { pos: 0, filter }
    }
}

} // verus!
