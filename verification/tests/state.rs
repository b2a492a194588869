//! Tests for the one-shot configuration, the global lease, the macro
//! context, and the error type.

use librpm::config::{read_file, set_db_path};
use librpm::internal::global_state::GlobalState;
use librpm::macro_context::MacroContext;
use librpm::{Error, ErrorKind};

#[test]
fn configure_succeeds_once_then_rejects() {
    let mut state = GlobalState::new();
    assert!(!state.is_configured());

    assert!(state.configure(0).is_ok());
    assert!(state.is_configured());

    // The second attempt is rejected, whatever its native verdict and
    // whatever path it would have read.
    let e = state.configure(0).unwrap_err();
    assert_eq!(e.kind(), ErrorKind::AlreadyConfigured);
    assert_eq!(
        e.message(),
        "already configured: librpm is already configured, global state can't be configured again"
    );
    assert!(state.is_configured());
}

// Opening the database configures the process; the engine's global state
// cannot be cleared without a process restart, so a second open must be
// rejected rather than retried.
#[test]
fn db_open_twice_test() {
    let mut state = GlobalState::new();
    assert!(read_file(&mut state, None, true, 0).is_ok());
    let e = read_file(&mut state, None, true, 0).unwrap_err();
    assert_eq!(e.kind(), ErrorKind::AlreadyConfigured);
    assert_eq!(
        e.message(),
        "already configured: librpm is already configured, global state can't be configured again"
    );
}

#[test]
fn failed_configuration_may_be_retried() {
    let mut state = GlobalState::new();
    let e = state.configure(1).unwrap_err();
    assert_eq!(e.kind(), ErrorKind::Config);
    assert!(!state.is_configured());
    assert!(state.configure(0).is_ok());
    assert!(state.is_configured());
}

#[test]
fn read_file_checks_then_configures() {
    let mut state = GlobalState::new();

    // A path that cannot exist is refused without configuring.
    let e = read_file(&mut state, Some("/no/such/rpmrc"), false, 0).unwrap_err();
    assert_eq!(e.kind(), ErrorKind::Config);
    assert!(!state.is_configured());

    // A path with an interior NUL can never reach the native call.
    let e = read_file(&mut state, Some("bad\0path"), true, 0).unwrap_err();
    assert_eq!(e.kind(), ErrorKind::Config);
    assert!(!state.is_configured());

    // The default configuration needs no path at all.
    assert!(read_file(&mut state, None, true, 0).is_ok());
    assert!(state.is_configured());

    // And a second read is rejected outright.
    let e = read_file(&mut state, None, true, 0).unwrap_err();
    assert_eq!(e.kind(), ErrorKind::AlreadyConfigured);
}

#[test]
fn lease_is_exclusive() {
    let mut state = GlobalState::new();
    let lease = state.acquire_ts().unwrap();
    assert!(state.acquire_ts().is_none());
    assert!(state.acquire_ts().is_none());
    state.release_ts(lease);
    let lease = state.acquire_ts().unwrap();
    state.release_ts(lease);
}

#[test]
fn release_cleans_the_shared_set() {
    let mut state = GlobalState::new();
    let lease = state.acquire_ts().unwrap();
    let pkg = librpm::Package::new(
        "bash".to_string(),
        None,
        "4.2".to_string(),
        "1".to_string(),
        None,
        "GPLv3+".to_string(),
        "The GNU Bourne Again shell".to_string(),
        "A shell.".to_string(),
        0,
    );
    state.ts_mut(&lease).add_install_element(&pkg, 0).unwrap();
    assert_eq!(state.ts_ref(&lease).element_length(), 1);
    state.release_ts(lease);
    let lease = state.acquire_ts().unwrap();
    assert_eq!(state.ts_ref(&lease).element_length(), 0);
    state.release_ts(lease);
}

#[test]
fn macros_define_and_delete() {
    let mut ctx = MacroContext::default();
    assert!(!ctx.is_defined("_dbpath"));

    ctx.define("_dbpath /var/lib/rpm", 0).unwrap();
    assert!(ctx.is_defined("_dbpath"));

    // The body may itself contain spaces; the name is everything before
    // the first one.
    ctx.define("greeting hello there", 0).unwrap();
    assert!(ctx.is_defined("greeting"));
    assert!(!ctx.is_defined("hello"));

    // A definition with no space at all is a bare name.
    ctx.define("flag", 0).unwrap();
    assert!(ctx.is_defined("flag"));

    ctx.delete("greeting").unwrap();
    assert!(!ctx.is_defined("greeting"));
    assert!(ctx.is_defined("_dbpath"));

    // Deleting an unknown name leaves the context as it is.
    ctx.delete("unknown").unwrap();
    assert!(ctx.is_defined("_dbpath"));
    assert!(ctx.is_defined("flag"));
}

#[test]
fn delete_removes_the_most_recent_definition() {
    let mut ctx = MacroContext::new();
    ctx.define("_dbpath /one", 0).unwrap();
    ctx.define("_dbpath /two", 0).unwrap();
    ctx.pop("_dbpath").unwrap();
    // One definition down, one remains.
    assert!(ctx.is_defined("_dbpath"));
    ctx.pop("_dbpath").unwrap();
    assert!(!ctx.is_defined("_dbpath"));
}

#[test]
fn define_refuses_interior_nul() {
    let mut ctx = MacroContext::new();
    let e = ctx.define("_dbpath /bad\0path", 0).unwrap_err();
    assert_eq!(e.kind(), ErrorKind::Config);
    assert!(!ctx.is_defined("_dbpath"));
}

#[test]
fn set_db_path_defines_the_macro() {
    let mut ctx = MacroContext::new();
    set_db_path(&mut ctx, "/var/lib/rpm").unwrap();
    assert!(ctx.is_defined("_dbpath"));

    let e = set_db_path(&mut ctx, "/bad\0path").unwrap_err();
    assert_eq!(e.kind(), ErrorKind::Config);
}

#[test]
fn error_carries_kind_and_message() {
    let e = Error::new(ErrorKind::InvalidRootDir, Some("/nowhere".to_string()));
    assert_eq!(e.kind(), ErrorKind::InvalidRootDir);
    assert_eq!(e.message(), "invalid root directory: /nowhere");

    let e = Error::new(ErrorKind::Decode, None);
    assert_eq!(e.message(), "decode error");

    let e: Error = ErrorKind::RunFailure.into();
    assert_eq!(e.kind(), ErrorKind::RunFailure);
    assert_eq!(e.message(), "transaction run failure");
}

#[test]
fn error_kind_descriptions() {
    assert_eq!(ErrorKind::Config.describe(), "configuration error");
    assert_eq!(ErrorKind::AlreadyConfigured.describe(), "already configured");
    assert_eq!(ErrorKind::TransactionElement.describe(), "transaction element error");
}
