use sptmm_lib::version::{parse_version, Version, VersionOrder};

#[test]
fn version_is_read_out_of_a_display_name() {
    assert_eq!(parse_version("Release v1.2.3").unwrap().as_str(), "1.2.3");
    assert_eq!(parse_version("Version 1.2.3").unwrap().as_str(), "1.2.3");
    assert_eq!(parse_version("1.2.3").unwrap().as_str(), "1.2.3");
    assert_eq!(parse_version("v0.10.1-rc1").unwrap().as_str(), "0.10.1-rc1");
    assert!(parse_version("no digits here").is_none());
    assert!(parse_version("").is_none());
}

#[test]
fn version_reads_the_whole_text_or_nothing() {
    assert_eq!(Version::new("1.2.3").unwrap().as_str(), "1.2.3");
    assert_eq!(Version::new("3.8.3").unwrap().as_str(), "3.8.3");
    assert!(Version::new("").is_none());
    assert!(Version::leading("1.2.3 and more").is_some());
    assert_eq!(Version::leading("1.2.3 and more").unwrap().as_str(), "1.2.3");
}

#[test]
fn versions_are_ordered_by_the_crate() {
    let a = Version::new("1.2.3").unwrap();
    let b = Version::new("1.10.0").unwrap();
    assert_eq!(a.order(&b), VersionOrder::Less);
    assert_eq!(b.order(&a), VersionOrder::Greater);
    assert_eq!(a.order(&a), VersionOrder::Equal);
    assert_eq!(a.order(&a.clone()), VersionOrder::Equal);
    let pre = Version::new("1.2.3-rc1").unwrap();
    assert_eq!(pre.order(&a), VersionOrder::Less);
    assert!(a.same(&a.clone()));
    assert!(!a.same(&b));
}
