//! Tests for transactions: staging, flags, elements, problems, and the
//! run outcome.

use librpm::internal::archive::{RpmErrorKind, RpmReturnCode};
use librpm::internal::problem::{Problem, ProblemType};
use librpm::internal::te::{ElementType, ElementTypeFilter, TransactionElement};
use librpm::internal::ts::{
    FilterFlags, TransFlags, PROB_FILTER_DISKSPACE, PROB_FILTER_IGNOREARCH, TRANS_FLAG_JUSTDB,
    TRANS_FLAG_NOSCRIPTS, TRANS_FLAG_TEST,
};
use librpm::{ErrorKind, Package, Transaction};

fn package(name: &str, epoch: Option<i32>, version: &str, release: &str) -> Package {
    Package::new(
        name.to_string(),
        epoch,
        version.to_string(),
        release.to_string(),
        Some("x86_64".to_string()),
        "MIT".to_string(),
        "A package".to_string(),
        "A longer description.".to_string(),
        1000,
    )
}

#[test]
fn staging_appends_elements() {
    let mut txn = Transaction::new();
    assert_eq!(txn.element_length(), 0);

    let bash = package("bash", None, "4.2", "1");
    let vim = package("vim", Some(2), "8.0", "3");

    txn.add(&bash, 0).unwrap();
    txn.remove(&vim, 0).unwrap();
    txn.reinstall(&bash, 0).unwrap();
    assert_eq!(txn.element_length(), 3);

    let e = txn.get_element(0);
    assert_eq!(e.name(), "bash");
    assert_eq!(e.element_type(), ElementType::ADDED);
    assert_eq!(e.epoch(), "");
    assert_eq!(e.evr(), "4.2-1");
    assert_eq!(e.nevr(), "bash-4.2-1");
    assert_eq!(e.nevra(), "bash-4.2-1.x86_64");

    let e = txn.get_element(1);
    assert_eq!(e.element_type(), ElementType::REMOVED);
    assert_eq!(e.epoch(), "2");
    assert_eq!(e.evr(), "2:8.0-3");
    assert_eq!(e.nevra(), "vim-2:8.0-3.x86_64");

    let e = txn.get_element(2);
    assert_eq!(e.element_type(), ElementType::ADDED);
}

#[test]
fn staging_surfaces_the_native_failure() {
    let mut txn = Transaction::new();
    let bash = package("bash", None, "4.2", "1");
    let e = txn.add(&bash, 1).unwrap_err();
    assert_eq!(e.kind(), ErrorKind::TransactionElement);
    assert_eq!(txn.element_length(), 0);
}

#[test]
fn use_db_reports_a_rejected_root() {
    let mut txn = Transaction::new();
    txn.use_db("/mnt/chroot", 0).unwrap();
    let e = txn.use_db("/no/such/root", 1).unwrap_err();
    assert_eq!(e.kind(), ErrorKind::InvalidRootDir);
}

#[test]
fn run_ok_or_problem_set() {
    let mut txn = Transaction::new();
    let bash = package("bash", None, "4.2", "1");
    txn.add(&bash, 0).unwrap();

    assert!(txn.run(FilterFlags::none(), 0, Vec::new()).is_ok());

    let problem = Problem::new(
        ProblemType::RPMPROB_REQUIRES,
        "bash-4.2-1 has unsatisfied Requires: glibc".to_string(),
        "glibc".to_string(),
        "bash-4.2-1".to_string(),
        String::new(),
        0,
    );
    let ps = txn
        .run(FilterFlags::none(), 2, vec![problem])
        .unwrap_err();
    assert_eq!(ps.problems.len(), 1);
    assert_eq!(ps.problems[0].problem_type(), ProblemType::RPMPROB_REQUIRES);
    assert_eq!(
        ps.problems[0].string(),
        "bash-4.2-1 has unsatisfied Requires: glibc"
    );
    assert_eq!(ps.problems[0].nevr(), "bash-4.2-1");
}

#[test]
fn trans_flags_compose() {
    let flags = TransFlags::from_bits(TRANS_FLAG_TEST)
        .union(TransFlags::from_bits(TRANS_FLAG_NOSCRIPTS));
    assert!(flags.contains(TransFlags::from_bits(TRANS_FLAG_TEST)));
    assert!(flags.contains(TransFlags::from_bits(TRANS_FLAG_NOSCRIPTS)));
    assert!(!flags.contains(TransFlags::from_bits(TRANS_FLAG_JUSTDB)));
    assert_eq!(
        flags.intersect(TransFlags::from_bits(TRANS_FLAG_TEST)).bits,
        TRANS_FLAG_TEST
    );

    let mut txn = Transaction::new();
    let prev = txn.set_flags(flags);
    assert_eq!(prev.bits, 0);
    let prev = txn.set_flags(TransFlags::none());
    assert_eq!(prev, flags);
}

#[test]
fn filter_flags_compose() {
    let filter = FilterFlags::from_bits(PROB_FILTER_IGNOREARCH)
        .union(FilterFlags::from_bits(PROB_FILTER_DISKSPACE));
    assert!(filter.contains(FilterFlags::from_bits(PROB_FILTER_DISKSPACE)));
    assert!(!filter.contains(FilterFlags::from_bits(0x4)));
}

#[test]
fn element_type_filter_selects_classes() {
    let filter = ElementTypeFilter::only(ElementType::ADDED)
        .union(ElementTypeFilter::only(ElementType::RPMDB));
    assert!(filter.accepts(ElementType::ADDED));
    assert!(!filter.accepts(ElementType::REMOVED));
    assert!(filter.accepts(ElementType::RPMDB));
    assert!(ElementTypeFilter::any().accepts(ElementType::REMOVED));
    assert!(!ElementTypeFilter::none().accepts(ElementType::ADDED));
    assert_eq!(ElementType::ADDED.mask(), 1);
    assert_eq!(ElementType::REMOVED.mask(), 2);
    assert_eq!(ElementType::RPMDB.mask(), 4);
}

#[test]
fn elements_track_bookkeeping() {
    let mut e = TransactionElement::new(
        ElementType::ADDED,
        "bash",
        None,
        "4.2",
        "1",
        None,
        None,
    );
    assert_eq!(e.arch(), "");
    assert_eq!(e.os(), "");
    assert!(!e.is_source());
    assert_eq!(e.nevra(), "bash-4.2-1");

    e.set_color(3);
    assert_eq!(e.color(), 3);
    e.set_db_instance(17);
    assert_eq!(e.db_instance(), 17);
    e.set_parent(Some(0));
    assert_eq!(e.parent(), Some(0));
    e.set_dependson(Some(2));
    assert_eq!(e.dependson(), Some(2));
    e.set_header(Some(5));
    assert_eq!(e.header(), Some(5));

    assert!(e.problems().is_empty());
    e.record_problem(Problem::new(
        ProblemType::RPMPROB_DISKSPACE,
        "needs 1M on /".to_string(),
        String::new(),
        "bash-4.2-1".to_string(),
        String::new(),
        1048576,
    ));
    assert_eq!(e.problems().len(), 1);
    assert_eq!(e.problems()[0].disk_requirement(), 1048576);
    e.clean_problems();
    assert!(e.problems().is_empty());
}

#[test]
fn problems_compare_by_content() {
    let a = Problem::new(
        ProblemType::RPMPROB_CONFLICT,
        "x conflicts y".to_string(),
        "y".to_string(),
        "x-1-1".to_string(),
        "y-1-1".to_string(),
        0,
    );
    let b = Problem::new(
        ProblemType::RPMPROB_CONFLICT,
        "x conflicts y".to_string(),
        "y".to_string(),
        "x-1-1".to_string(),
        "y-1-1".to_string(),
        0,
    );
    let c = Problem::new(
        ProblemType::RPMPROB_OBSOLETES,
        "x obsoleted".to_string(),
        String::new(),
        "x-1-1".to_string(),
        String::new(),
        0,
    );
    assert!(Problem::equal(&a, &b));
    assert!(!Problem::equal(&a, &c));
    assert_eq!(c.alt_nevr(), "");
    assert_eq!(a.data_string(), "y");
}

#[test]
fn problem_type_codes_round_trip() {
    for code in 0..13u32 {
        let t = ProblemType::from_code(code).unwrap();
        assert_eq!(t.code(), code);
    }
    assert!(ProblemType::from_code(13).is_none());
    assert_eq!(ProblemType::RPMPROB_BADARCH.code(), 0);
    assert_eq!(ProblemType::RPMPROB_VERIFY.code(), 12);
}

#[test]
fn return_codes_round_trip() {
    for code in 0..5u32 {
        let t = RpmReturnCode::from_code(code).unwrap();
        assert_eq!(t.code(), code);
    }
    assert!(RpmReturnCode::from_code(5).is_none());
    assert_eq!(RpmReturnCode::Okay.code(), 0);
    assert_eq!(RpmReturnCode::NoKey.code(), 4);
    // The error kinds cover every non-success code.
    let _ = RpmErrorKind::NotFound;
    let _ = RpmErrorKind::Fail;
    let _ = RpmErrorKind::NotTrusted;
    let _ = RpmErrorKind::NoKey;
}

#[test]
fn transaction_set_iteration_honors_the_filter() {
    let mut state = librpm::internal::global_state::GlobalState::new();
    let lease = state.acquire_ts().unwrap();
    let bash = package("bash", None, "4.2", "1");
    let vim = package("vim", None, "8.0", "3");
    {
        let ts = state.ts_mut(&lease);
        ts.add_install_element(&bash, 0).unwrap();
        ts.add_erase_element(&vim, 0).unwrap();
        ts.add_install_element(&vim, 0).unwrap();
    }
    let ts = state.ts_ref(&lease);

    let mut added = ts.iter(ElementTypeFilter::only(ElementType::ADDED));
    let e = added.next(ts).unwrap();
    assert_eq!(e.name(), "bash");
    let e = added.next(ts).unwrap();
    assert_eq!(e.name(), "vim");
    assert!(added.next(ts).is_none());
    // The walk is not restartable: once past the end it stays there.
    assert!(added.next(ts).is_none());

    let mut removed = ts.iter(ElementTypeFilter::only(ElementType::REMOVED));
    let e = removed.next(ts).unwrap();
    assert_eq!(e.name(), "vim");
    assert_eq!(e.element_type(), ElementType::REMOVED);
    assert!(removed.next(ts).is_none());

    let mut none = ts.iter(ElementTypeFilter::none());
    assert!(none.next(ts).is_none());
    state.release_ts(lease);
}
