//! The transaction surface: staging installs, erasures and reinstalls,
//! and committing them as one unit.
//!
//! Staging only appends to the element list — no engine work happens
//! until the run — and every native verdict is surfaced as a typed
//! error, never a bare boolean.

use vstd::prelude::*;
use crate::error::{Error, ErrorKind};
use crate::internal::problem::{Problem, ProblemSet};
use crate::internal::te::{ElementType, TransactionElement};
use crate::internal::ts::{element_for, FilterFlags, TransFlags, TransactionSet};
use crate::package::Package;

verus! {

/// A transaction: the staged actions to be committed together.
pub struct Transaction {
    ts: TransactionSet,
}

impl Transaction {
    /// The underlying transaction set.
    pub closed spec fn spec_ts(self) -> TransactionSet {
        self.ts
    }

    /// Begin a transaction: nothing staged yet.
    pub fn new() -> (t: Transaction)
        ensures
            t.spec_ts().spec_elements().len() == 0,
            t.spec_ts().spec_flags().bits == 0u32,
            t.spec_ts().spec_root_dir() is None,
            !t.spec_ts().spec_has_notify(),
    {
        Transaction { ts: TransactionSet::create() }
    }

    /// Stage `package` for installation; `rc` is the native staging
    /// call's verdict.
    pub fn add(&mut self, package: &Package, rc: i32) -> (r: Result<(), Error>)
        ensures
            r is Ok <==> rc == 0,
            r is Ok ==> final(self).spec_ts().spec_elements().len() == old(self).spec_ts().spec_elements().len() + 1 && final(self).spec_ts().spec_elements().drop_last() == old(self).spec_ts().spec_elements()
                && element_for(
                *package,
                ElementType::ADDED,
                final(self).spec_ts().spec_elements().last(),
            ),
            r is Err ==> *final(self) == *old(self),
            r matches Err(e) ==> e.spec_kind() == ErrorKind::TransactionElement,
    {
        self.ts.add_install_element(package, rc)
    }

    /// Stage `package` for reinstallation; `rc` is the native staging
    /// call's verdict.
    pub fn reinstall(&mut self, package: &Package, rc: i32) -> (r: Result<(), Error>)
        ensures
            r is Ok <==> rc == 0,
            r is Ok ==> final(self).spec_ts().spec_elements().len() == old(self).spec_ts().spec_elements().len() + 1 && final(self).spec_ts().spec_elements().drop_last() == old(self).spec_ts().spec_elements()
                && element_for(
                *package,
                ElementType::ADDED,
                final(self).spec_ts().spec_elements().last(),
            ),
            r is Err ==> *final(self) == *old(self),
            r matches Err(e) ==> e.spec_kind() == ErrorKind::TransactionElement,
    {
        self.ts.add_reinstall_element(package, rc)
    }

    /// Stage `package` for removal; `rc` is the native staging call's
    /// verdict.
    pub fn remove(&mut self, package: &Package, rc: i32) -> (r: Result<(), Error>)
        ensures
            r is Ok <==> rc == 0,
            r is Ok ==> final(self).spec_ts().spec_elements().len() == old(self).spec_ts().spec_elements().len() + 1 && final(self).spec_ts().spec_elements().drop_last() == old(self).spec_ts().spec_elements()
                && element_for(
                *package,
                ElementType::REMOVED,
                final(self).spec_ts().spec_elements().last(),
            ),
            r is Err ==> *final(self) == *old(self),
            r matches Err(e) ==> e.spec_kind() == ErrorKind::TransactionElement,
    {
        self.ts.add_erase_element(package, rc)
    }

    /// Use the database rooted at the given path, e.g. for installing
    /// into a separate chroot; `rc` is the native call's verdict on the
    /// path.
    pub fn use_db(&mut self, db: &str, rc: i32) -> (r: Result<(), Error>)
        ensures
            r is Ok <==> rc == 0,
            r is Ok ==> final(self).spec_ts().spec_root_dir() == Some(db@) && final(self).spec_ts().spec_elements() == old(self).spec_ts().spec_elements()
                && final(self).spec_ts().spec_flags() == old(self).spec_ts().spec_flags()
                && final(self).spec_ts().spec_has_notify() == old(self).spec_ts().spec_has_notify(),
            r is Err ==> *final(self) == *old(self),
            r matches Err(e) ==> e.spec_kind() == ErrorKind::InvalidRootDir,
    {
        self.ts.set_root_dir(db, rc)
    }

    /// Register a progress callback for the run.  The callback itself
    /// lives with the native shell; here its registration is tracked.
    pub fn callback(&mut self)
        ensures
            final(self).spec_ts().spec_has_notify(),
            final(self).spec_ts().spec_elements() == old(self).spec_ts().spec_elements(),
            final(self).spec_ts().spec_flags() == old(self).spec_ts().spec_flags(),
            final(self).spec_ts().spec_root_dir() == old(self).spec_ts().spec_root_dir(),
    {
        self.ts.set_notify_callback()
    }

    /// Select the behavior modifiers for the run, returning the previous
    /// selection.
    pub fn set_flags(&mut self, flags: TransFlags) -> (prev: TransFlags)
        ensures
            prev == old(self).spec_ts().spec_flags(),
            final(self).spec_ts().spec_flags() == flags,
            final(self).spec_ts().spec_elements() == old(self).spec_ts().spec_elements(),
    {
        self.ts.set_flags(flags)
    }

    /// The number of staged actions.
    pub fn element_length(&self) -> (n: usize)
        ensures
            n == self.spec_ts().spec_elements().len(),
    {
        self.ts.element_length()
    }

    /// The staged action at `index`.
    pub fn get_element(&self, index: usize) -> (e: &TransactionElement)
        requires
            index < self.spec_ts().spec_elements().len(),
        ensures
            *e == self.spec_ts().spec_elements()[index as int],
    {
        self.ts.get_element(index)
    }

    /// The outcome of committing the transaction under the given
    /// pre-flight problem filters: `rc` is the native run's verdict and
    /// `problems` what it reported.  The filters are applied by the
    /// engine itself; a failed run surfaces its problem set.
    pub fn run(&self, filter: FilterFlags, rc: i32, problems: Vec<Problem>) -> (r: Result<
        (),
        ProblemSet,
    >)
        ensures
            r is Ok <==> rc == 0,
            r matches Err(ps) ==> ps.problems@ == problems@,
    {
        self.ts.run(rc, problems)
    }
}

} // verus!
