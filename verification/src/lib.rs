//! Contract-checked core of a binding to the RPM package manager's native
//! engine.
//!
//! The native engine is a single-threaded, globally stateful C library.  This
//! crate models the discipline required to drive it safely — the one-shot
//! process configuration, the lock-and-lease protocol around the shared
//! transaction set, the streaming match-iterator protocol, reference-counted
//! header views, and the typed tag/value codec — as plain data with verified
//! state transitions.  A thin unverified shell performs the actual native
//! calls and feeds their results to the functions here.

pub mod config;
pub mod db;
pub mod error;
pub mod internal;
pub mod license;
pub mod macro_context;
pub mod package;
pub mod transaction;
pub mod version;

pub use crate::db::Index;
pub use crate::db::Iter;
pub use crate::error::Error;
pub use crate::error::ErrorKind;
pub use crate::license::License;
pub use crate::package::Package;
pub use crate::transaction::Transaction;
pub use crate::version::Version;
