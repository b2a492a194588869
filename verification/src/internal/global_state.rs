//! The process-wide state of the native engine.
//!
//! The engine keeps a great deal of global mutable state; which calls are
//! safe depends on what has already been invoked.  This module models that
//! state — whether the one-time configuration has run, and the single
//! shared transaction set — together with the exclusive lease through
//! which every caller must reach the shared set.  The native shell wraps a
//! value of [`GlobalState`] in its process-wide lock; here the transitions
//! themselves are stated and checked.

use vstd::prelude::*;
use vstd::string::StringExecFns;
use crate::error::{Error, ErrorKind};
use crate::internal::ts::TransactionSet;

verus! {

/// The witness that the holder has exclusive access to the shared
/// transaction set.  Only [`GlobalState::acquire_ts`] creates one, and
/// only [`GlobalState::release_ts`] consumes one.
#[derive(Debug)]
pub struct TsLease {
    token: bool,
}

/// The tracked global state: the one-shot configuration flag and the
/// shared transaction set.
///
/// The configuration flag is monotonic: it moves from unconfigured to
/// configured exactly once per process, because the underlying native
/// initialization corrupts its state when invoked twice.
pub struct GlobalState {
    configured: bool,
    ts: TransactionSet,
    ts_leased: bool,
}

/// The message a second configuration attempt is rejected with.
pub open spec fn already_configured_msg() -> Seq<char> {
    "librpm is already configured, global state can't be configured again"@
}

/// How one `configure` call relates its outcome to the state it found:
/// a state already configured rejects the attempt outright; otherwise the
/// native verdict `rc` decides, and only success flips the flag.
pub open spec fn configure_spec(
    pre: GlobalState,
    rc: i32,
    post: GlobalState,
    r: Result<(), Error>,
) -> bool {
    &&& post.spec_ts() == pre.spec_ts()
    &&& post.spec_leased() == pre.spec_leased()
    &&& if pre.spec_configured() {
        &&& post.spec_configured()
        &&& r matches Err(e) && e.spec_kind() == ErrorKind::AlreadyConfigured && e.spec_msg()
            == Some(already_configured_msg())
    } else if rc == 0 {
        &&& post.spec_configured()
        &&& r is Ok
    } else {
        &&& !post.spec_configured()
        &&& r matches Err(e) && e.spec_kind() == ErrorKind::Config
    }
}

/// How one `acquire_ts` call relates its outcome to the state it found:
/// a leased state yields nothing and stays as it is; an unleased one
/// yields the lease and is marked leased.
pub open spec fn acquire_spec(pre: GlobalState, post: GlobalState, r: Option<TsLease>) -> bool {
    &&& post.spec_configured() == pre.spec_configured()
    &&& post.spec_ts() == pre.spec_ts()
    &&& if pre.spec_leased() {
        post.spec_leased() && r is None
    } else {
        post.spec_leased() && r is Some
    }
}

impl GlobalState {
    /// Whether the one-time configuration has run.
    pub closed spec fn spec_configured(self) -> bool {
        self.configured
    }

    /// The shared transaction set.
    pub closed spec fn spec_ts(self) -> TransactionSet {
        self.ts
    }

    /// Whether the shared transaction set is currently leased out.
    pub closed spec fn spec_leased(self) -> bool {
        self.ts_leased
    }

    /// A fresh global state: unconfigured, with a fresh shared transaction
    /// set, and nothing leased.
    pub fn new() -> (g: GlobalState)
        ensures
            !g.spec_configured(),
            !g.spec_leased(),
            g.spec_ts().spec_elements().len() == 0,
            g.spec_ts().spec_flags().bits == 0u32,
            g.spec_ts().spec_root_dir() is None,
            !g.spec_ts().spec_has_notify(),
    {
        GlobalState { configured: false, ts: TransactionSet::create(), ts_leased: false }
    }

    /// Whether the one-time configuration has run.
    pub fn is_configured(&self) -> (b: bool)
        ensures
            b == self.spec_configured(),
    {
        self.configured
    }

    /// Record the outcome of the one-time configuration attempt.
    ///
    /// `rc` is the native configuration call's verdict.  A state already
    /// configured rejects the attempt — it is never retried or queued —
    /// and a failed verdict leaves the state unconfigured, so the caller
    /// may try again with a different path.
    pub fn configure(&mut self, rc: i32) -> (r: Result<(), Error>)
        ensures
            configure_spec(*old(self), rc, *final(self), r),
    {
        if self.configured {
            Err(
                Error::new(
                    ErrorKind::AlreadyConfigured,
                    Some(
                        String::from_str(
                            "librpm is already configured, global state can't be configured again",
                        ),
                    ),
                ),
            )
        } else if rc == 0 {
            self.configured = true;
            Ok(())
        } else {
            Err(Error::new(ErrorKind::Config, None))
        }
    }

    /// Try to take the exclusive lease on the shared transaction set.
    ///
    /// At most one lease is out at any time; while one is out, every
    /// further attempt yields nothing.  The native shell turns this
    /// try-step into a blocking acquisition by waiting on its lock.
    pub fn acquire_ts(&mut self) -> (r: Option<TsLease>)
        ensures
            acquire_spec(*old(self), *final(self), r),
    {
        if self.ts_leased {
            None
        } else {
            self.ts_leased = true;
            Some(TsLease { token: true })
        }
    }

    /// Read the shared transaction set; the lease witnesses exclusivity.
    pub fn ts_ref(&self, lease: &TsLease) -> (t: &TransactionSet)
        ensures
            *t == self.spec_ts(),
    {
        &self.ts
    }

    /// Work on the shared transaction set; the lease witnesses
    /// exclusivity.
    pub fn ts_mut(&mut self, lease: &TsLease) -> (t: &mut TransactionSet)
        ensures
            *t == old(self).spec_ts(),
            final(self).spec_ts() == *final(t),
            final(self).spec_configured() == old(self).spec_configured(),
            final(self).spec_leased() == old(self).spec_leased(),
    {
        &mut self.ts
    }

    /// Give the lease back: the shared transaction set is cleaned — its
    /// staged elements dropped — before anyone else can take it, and the
    /// lease itself is consumed.
    pub fn release_ts(&mut self, lease: TsLease)
        ensures
            !final(self).spec_leased(),
            final(self).spec_configured() == old(self).spec_configured(),
            final(self).spec_ts().spec_elements().len() == 0,
            final(self).spec_ts().spec_flags() == old(self).spec_ts().spec_flags(),
            final(self).spec_ts().spec_root_dir() == old(self).spec_ts().spec_root_dir(),
            final(self).spec_ts().spec_has_notify() == old(self).spec_ts().spec_has_notify(),
    {
        self.ts.clean();
        self.ts_leased = false;
    }
}

impl Default for GlobalState {
    /// A fresh global state, as [`GlobalState::new`] builds it.
    fn default() -> (g: GlobalState)
        ensures
            !g.spec_configured(),
            !g.spec_leased(),
            g.spec_ts().spec_elements().len() == 0,
    {
        GlobalState::new()
    }
}

/// One-shot configuration: from an unconfigured state, a first successful
/// attempt reports success and configures the process; a second attempt —
/// whatever its native verdict, and so whatever path it would have read —
/// is rejected as already configured, and the process stays configured.
pub proof fn lemma_configure_one_shot(
    s0: GlobalState,
    rc0: i32,
    s1: GlobalState,
    r1: Result<(), Error>,
    rc1: i32,
    s2: GlobalState,
    r2: Result<(), Error>,
)
    requires
        !s0.spec_configured(),
        rc0 == 0,
        configure_spec(s0, rc0, s1, r1),
        configure_spec(s1, rc1, s2, r2),
    ensures
        r1 is Ok,
        r2 matches Err(e) && e.spec_kind() == ErrorKind::AlreadyConfigured,
        s2.spec_configured(),
{
}

/// Lease exclusivity: from a state with no lease out, a first acquisition
/// succeeds, and every further acquisition before the release yields
/// nothing — so two open iterators can never both hold the shared
/// transaction set, and their native calls never interleave.
pub proof fn lemma_lease_exclusive(
    s0: GlobalState,
    s1: GlobalState,
    r1: Option<TsLease>,
    s2: GlobalState,
    r2: Option<TsLease>,
)
    requires
        !s0.spec_leased(),
        acquire_spec(s0, s1, r1),
        acquire_spec(s1, s2, r2),
    ensures
        r1 is Some,
        r2 is None,
{
}

} // verus!
