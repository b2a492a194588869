//! Tests for the owned package snapshot and the small string newtypes.

use librpm::{License, Package, Version};

fn package(
    name: &str,
    epoch: Option<i32>,
    version: &str,
    release: &str,
    arch: Option<&str>,
) -> Package {
    Package::new(
        name.to_string(),
        epoch,
        version.to_string(),
        release.to_string(),
        arch.map(|a| a.to_string()),
        "GPLv2+".to_string(),
        "A summary".to_string(),
        "A description".to_string(),
        1402345483,
    )
}

#[test]
fn getters_return_the_fields() {
    let p = package("acl", None, "2.2.51", "15.el7", Some("x86_64"));
    assert_eq!(p.name(), "acl");
    assert_eq!(p.epoch(), None);
    assert_eq!(p.version(), "2.2.51");
    assert_eq!(p.release(), "15.el7");
    assert_eq!(p.arch(), Some("x86_64"));
    assert_eq!(p.license(), "GPLv2+");
    assert_eq!(p.summary(), "A summary");
    assert_eq!(p.description(), "A description");
    assert_eq!(p.buildtime(), 1402345483);
}

#[test]
fn evr_without_epoch() {
    let p = package("acl", None, "2.2.51", "15.el7", Some("x86_64"));
    assert_eq!(p.evr(), "2.2.51-15.el7");
}

#[test]
fn evr_with_epoch() {
    let p = package("glibc-common", Some(1), "2.17", "55.el7", Some("x86_64"));
    assert_eq!(p.evr(), "1:2.17-55.el7");
    let p = package("big", Some(1234567890), "1", "1", None);
    assert_eq!(p.evr(), "1234567890:1-1");
}

#[test]
fn nevra_with_and_without_arch() {
    let p = package("acl", None, "2.2.51", "15.el7", Some("x86_64"));
    assert_eq!(p.nevra(), "acl-2.2.51-15.el7.x86_64");
    let p = package("acl", Some(3), "2.2.51", "15.el7", None);
    assert_eq!(p.nevra(), "acl-3:2.2.51-15.el7");
}

#[test]
fn version_round_trips() {
    let v = Version::new("1.0.2");
    assert_eq!(v.as_str(), "1.0.2");
    let w = v.clone();
    assert_eq!(w.as_str(), "1.0.2");
}

#[test]
fn license_round_trips() {
    let l = License::new("GPLv2+ and LGPLv2+ with exceptions");
    assert_eq!(l.as_str(), "GPLv2+ and LGPLv2+ with exceptions");
}
