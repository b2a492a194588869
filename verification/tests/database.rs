//! Tests for database queries: full scans, exact-match lookups, the
//! iterator protocol, and the reference-count discipline around it.

use librpm::db::{find, installed_packages, open_db, Index};
use librpm::internal::global_state::GlobalState;
use librpm::internal::header::{Header, Record};
use librpm::internal::iterator::MatchIterator;
use librpm::internal::tag::Tag;
use librpm::internal::td::TagData;
use librpm::ErrorKind;

fn record(
    name: &str,
    epoch: Option<i32>,
    version: &str,
    release: &str,
    arch: Option<&str>,
    license: &str,
    summary: &str,
    description: &str,
    buildtime: i32,
) -> Record {
    let mut entries: Vec<(i32, TagData)> = vec![
        (1000, TagData::Str(name.to_string())),
        (1001, TagData::Str(version.to_string())),
        (1002, TagData::Str(release.to_string())),
        (1014, TagData::Str(license.to_string())),
        (1004, TagData::I18NStr(summary.to_string())),
        (1005, TagData::I18NStr(description.to_string())),
        (1006, TagData::Int32(vec![buildtime])),
    ];
    if let Some(e) = epoch {
        entries.push((1003, TagData::Int32(vec![e])));
    }
    if let Some(a) = arch {
        entries.push((1022, TagData::Str(a.to_string())));
    }
    Record { entries }
}

/// A small fixture database, in name order.
fn fixture() -> Vec<Record> {
    vec![
        record(
            "acl",
            None,
            "2.2.51",
            "15.el7",
            Some("x86_64"),
            "GPLv2+",
            "Access control list utilities",
            "This package contains the getfacl and setfacl utilities needed for\nmanipulating access control lists.",
            1402345483,
        ),
        record(
            "glibc",
            None,
            "2.17",
            "55.el7",
            Some("x86_64"),
            "LGPLv2+",
            "The GNU libc libraries",
            "The glibc package contains standard libraries.",
            1402345484,
        ),
        record(
            "glibc-common",
            Some(1),
            "2.17",
            "55.el7",
            Some("x86_64"),
            "LGPLv2+",
            "Common binaries and locale data for glibc",
            "The glibc-common package includes common binaries.",
            1402345485,
        ),
    ]
}

#[test]
fn open_db_accepts_well_formed_records() {
    let store = open_db(fixture()).unwrap();
    assert_eq!(store.len(), 3);
}

#[test]
fn open_db_refuses_a_record_without_a_name() {
    let mut records = fixture();
    records.push(Record {
        entries: vec![(1001, TagData::Str("1.0".to_string()))],
    });
    let e = open_db(records).unwrap_err();
    assert_eq!(e.kind(), ErrorKind::Decode);
}

#[test]
fn open_db_refuses_a_wrongly_typed_field() {
    // A name carried as an integer is a type mismatch, not a name.
    let mut records = fixture();
    records[0].entries[0] = (1000, TagData::Int32(vec![1]));
    let e = open_db(records).unwrap_err();
    assert_eq!(e.kind(), ErrorKind::Decode);
}

#[test]
fn installed_packages_yields_every_record() {
    let mut store = open_db(fixture()).unwrap();
    let mut state = GlobalState::new();
    let it = installed_packages(&mut state, &store).unwrap();
    let packages = it.collect_packages(&mut store, &mut state);
    assert_eq!(packages.len(), 3);

    let sample = &packages[0];
    assert_eq!(sample.name(), "acl");
    assert_eq!(sample.epoch(), None);
    assert_eq!(sample.version(), "2.2.51");
    assert_eq!(sample.release(), "15.el7");
    assert_eq!(sample.arch(), Some("x86_64"));
    assert_eq!(sample.license(), "GPLv2+");
    assert_eq!(sample.summary(), "Access control list utilities");
    assert_eq!(
        sample.description(),
        "This package contains the getfacl and setfacl utilities needed for\nmanipulating access control lists."
    );
    assert_eq!(sample.buildtime(), 1402345483);
    assert_eq!(packages[1].name(), "glibc");
    assert_eq!(packages[2].name(), "glibc-common");
}

#[test]
fn empty_key_is_a_full_scan() {
    let mut store = open_db(fixture()).unwrap();
    let mut state = GlobalState::new();

    let all = installed_packages(&mut state, &store)
        .unwrap()
        .collect_packages(&mut store, &mut state);
    let by_empty_key = Index::Name
        .find(&mut state, &store, "")
        .unwrap()
        .collect_packages(&mut store, &mut state);

    let names_all: Vec<&str> = all.iter().map(|p| p.name()).collect();
    let names_empty: Vec<&str> = by_empty_key.iter().map(|p| p.name()).collect();
    assert_eq!(names_all, names_empty);
}

#[test]
fn exact_match_is_exact() {
    let mut store = open_db(fixture()).unwrap();
    let mut state = GlobalState::new();

    let glibc = Index::Name
        .find(&mut state, &store, "glibc")
        .unwrap()
        .collect_packages(&mut store, &mut state);
    assert_eq!(glibc.len(), 1, "expected one result, got more!");
    assert_eq!(glibc[0].name(), "glibc");

    let common = find(Index::Name, &mut state, &store, "glibc-common")
        .unwrap()
        .collect_packages(&mut store, &mut state);
    assert_eq!(common.len(), 1, "expected one result, got more!");
    assert_eq!(common[0].name(), "glibc-common");
    assert_eq!(common[0].epoch(), Some(1));
    assert_eq!(common[0].evr(), "1:2.17-55.el7");
}

#[test]
fn missing_record_yields_an_empty_sequence() {
    let mut store = open_db(fixture()).unwrap();
    let mut state = GlobalState::new();
    let none = Index::Name
        .find(&mut state, &store, "nonexistent-pkg-xyz")
        .unwrap()
        .collect_packages(&mut store, &mut state);
    assert!(none.is_empty());
}

#[test]
fn find_by_other_indexes() {
    let mut store = open_db(fixture()).unwrap();
    let mut state = GlobalState::new();

    let lgpl = Index::License
        .find(&mut state, &store, "LGPLv2+")
        .unwrap()
        .collect_packages(&mut store, &mut state);
    assert_eq!(lgpl.len(), 2);

    let by_version = Index::Version
        .find(&mut state, &store, "2.17")
        .unwrap()
        .collect_packages(&mut store, &mut state);
    assert_eq!(by_version.len(), 2);

    let by_summary = Index::Summary
        .find(&mut state, &store, "The GNU libc libraries")
        .unwrap()
        .collect_packages(&mut store, &mut state);
    assert_eq!(by_summary.len(), 1);
    assert_eq!(by_summary[0].name(), "glibc");
}

#[test]
fn iterator_protocol_streams_one_item_at_a_time() {
    let mut store = open_db(fixture()).unwrap();
    let mut state = GlobalState::new();
    let lease = state.acquire_ts().unwrap();
    let mut it = MatchIterator::new(lease, &store, Tag::NAME, None);

    // Nothing current before the first advance.
    assert!(it.get().is_none());

    it.advance(&mut store);
    let first = it.get().expect("a first item");
    let first_id = first.id();
    assert_eq!(store.count_of(first_id), 2);

    it.advance(&mut store);
    it.advance(&mut store);
    assert!(it.get().is_some());

    // The fourth advance exhausts the three matches ...
    it.advance(&mut store);
    assert!(it.get().is_none());
    // ... and further advances stay exhausted.
    it.advance(&mut store);
    assert!(it.get().is_none());

    it.finish(&mut store, &mut state);
    for id in 0..store.len() {
        assert_eq!(store.count_of(id), 1);
    }
}

#[test]
fn header_refcounts_balance() {
    let mut store = open_db(fixture()).unwrap();
    assert_eq!(store.count_of(1), 1);

    // N views over the same record, dropped in any order, leave the
    // count where it started: no leak, no double free.
    let a = Header::acquire(&mut store, 1);
    let b = Header::acquire(&mut store, 1);
    let c = Header::acquire(&mut store, 1);
    assert_eq!(store.count_of(1), 4);
    assert_eq!(store.count_of(0), 1);
    b.release(&mut store);
    a.release(&mut store);
    c.release(&mut store);
    assert_eq!(store.count_of(1), 1);
}

#[test]
fn collecting_restores_every_refcount() {
    let mut store = open_db(fixture()).unwrap();
    let mut state = GlobalState::new();
    let packages = installed_packages(&mut state, &store)
        .unwrap()
        .collect_packages(&mut store, &mut state);
    assert_eq!(packages.len(), 3);
    for id in 0..store.len() {
        assert_eq!(store.count_of(id), 1);
    }
}

#[test]
fn header_get_and_to_package() {
    let mut store = open_db(fixture()).unwrap();
    let h = Header::acquire(&mut store, 0);
    match h.get(&store, Tag::NAME) {
        Some(TagData::Str(s)) => assert_eq!(s, "acl"),
        other => panic!("expected the name, got {:?}", other),
    }
    assert!(h.get(&store, Tag::EPOCH).is_none());
    assert!(h.get(&store, Tag::URL).is_none());
    let p = h.to_package(&store);
    assert_eq!(p.name(), "acl");
    assert_eq!(p.nevra(), "acl-2.2.51-15.el7.x86_64");
    h.release(&mut store);
}

#[test]
fn queries_serialize_on_the_lease() {
    let store = open_db(fixture()).unwrap();
    let mut state = GlobalState::new();

    // While one query holds the lease, no second one can start.
    let first = installed_packages(&mut state, &store).unwrap();
    assert!(installed_packages(&mut state, &store).is_none());
    assert!(Index::Name.find(&mut state, &store, "acl").is_none());

    // Closing the first hands the lease to the next taker.
    let mut store = store;
    first.finish(&mut store, &mut state);
    assert!(installed_packages(&mut state, &store).is_some());
}

#[test]
fn next_streams_packages() {
    let mut store = open_db(fixture()).unwrap();
    let mut state = GlobalState::new();
    let mut it = Index::License
        .find(&mut state, &store, "LGPLv2+")
        .unwrap();
    let p1 = it.next(&mut store).unwrap();
    assert_eq!(p1.name(), "glibc");
    let p2 = it.next(&mut store).unwrap();
    assert_eq!(p2.name(), "glibc-common");
    assert!(it.next(&mut store).is_none());
    assert!(it.next(&mut store).is_none());
    it.finish(&mut store, &mut state);
}
