use std::cmp::Ordering;

use rust_bootstrap::triple::TargetTriple;

fn t(arch: Option<&str>, os: Option<&str>, env: Option<&str>) -> TargetTriple {
    TargetTriple::new(
        arch.map(|s| s.to_string()),
        os.map(|s| s.to_string()),
        env.map(|s| s.to_string()),
    )
}

#[test]
fn new_keeps_fields() {
    let x = t(Some("x86_64"), None, Some("gnu"));
    assert_eq!(x.arch.as_deref(), Some("x86_64"));
    assert_eq!(x.os, None);
    assert_eq!(x.env.as_deref(), Some("gnu"));
}

#[test]
fn render_full_identifier() {
    let x = t(Some("x86_64"), Some("unknown-linux"), Some("gnu"));
    assert_eq!(x.str(), "x86_64-unknown-linux-gnu");
    assert_eq!(x.to_target_triple(), "x86_64-unknown-linux-gnu");
}

#[test]
fn render_skips_absent_fields() {
    assert_eq!(t(Some("x86_64"), None, None).str(), "x86_64");
    assert_eq!(t(Some("x86_64"), None, Some("gnu")).str(), "x86_64-gnu");
    assert_eq!(t(None, Some("apple-darwin"), None).str(), "-apple-darwin");
    assert_eq!(t(None, None, None).str(), "");
    assert_eq!(t(None, None, None).to_target_triple(), "");
}

#[test]
fn parse_three_segments() {
    let x = TargetTriple::from_target_triple("aarch64-linux-musl");
    assert_eq!(x, t(Some("aarch64"), Some("linux"), Some("musl")));
}

#[test]
fn parse_four_segments_keeps_first_three() {
    let x = TargetTriple::from_target_triple("x86_64-unknown-linux-gnu");
    assert_eq!(x, t(Some("x86_64"), Some("unknown"), Some("linux")));
    assert_eq!(x.str(), "x86_64-unknown-linux");
    assert_ne!(x.str(), "x86_64-unknown-linux-gnu");
}

#[test]
fn parse_fewer_segments_leaves_fields_absent() {
    assert_eq!(TargetTriple::from_target_triple("x86_64"), t(Some("x86_64"), None, None));
    assert_eq!(TargetTriple::from_target_triple("arm-linux"), t(Some("arm"), Some("linux"), None));
    assert_eq!(TargetTriple::from_target_triple(""), t(Some(""), None, None));
    assert_eq!(TargetTriple::from_target_triple("a--b"), t(Some("a"), Some(""), Some("b")));
}

#[test]
fn round_trip_of_three_segments() {
    for s in ["aarch64-linux-musl", "x86_64-linux-gnu", "a-b-c", "--"] {
        assert_eq!(TargetTriple::from_target_triple(s).str(), s);
    }
}

#[test]
fn known_fields_are_valid() {
    assert!(t(Some("x86_64"), Some("unknown-linux"), Some("gnu")).is_valid());
    assert!(t(Some("riscv64gc"), Some("apple-darwin"), Some("android")).is_valid());
    assert!(t(Some("loongarch64"), Some("pc-windows"), Some("msvc")).is_valid());
}

#[test]
fn unknown_field_is_invalid() {
    assert!(!t(Some("sparc"), Some("unknown-linux"), Some("gnu")).is_valid());
    assert!(!t(Some("x86_64"), Some("haiku"), Some("gnu")).is_valid());
    assert!(!t(Some("x86_64"), Some("unknown-linux"), Some("uclibc")).is_valid());
    assert!(!t(Some("sparc"), None, None).is_valid());
}

#[test]
fn absent_fields_are_acceptable() {
    assert!(t(None, None, None).is_valid());
    assert!(t(Some("arm"), None, Some("musl")).is_valid());
    assert!(t(None, Some("unknown-freebsd"), None).is_valid());
}

#[test]
fn parsed_linux_gnu_is_not_valid() {
    assert!(!TargetTriple::from_target_triple("x86_64-unknown-linux-gnu").is_valid());
}

#[test]
fn equality_is_field_wise() {
    assert_eq!(t(Some("arm"), None, Some("gnu")), t(Some("arm"), None, Some("gnu")));
    assert_ne!(t(Some("arm"), None, Some("gnu")), t(Some("arm"), Some(""), Some("gnu")));
    assert_ne!(t(Some("arm"), None, None), t(Some("arm"), None, Some("gnu")));
}

#[test]
fn order_is_lexicographic_by_field() {
    let a = t(Some("aarch64"), Some("zzz"), Some("zzz"));
    let b = t(Some("x86_64"), Some("aaa"), Some("aaa"));
    assert_eq!(a.compare(&b), Ordering::Less);
    assert_eq!(b.compare(&a), Ordering::Greater);
    assert!(a < b);
    let c = t(Some("x86_64"), Some("aaa"), Some("bbb"));
    assert!(b < c);
    assert_eq!(c.compare(&c.clone()), Ordering::Equal);
}

#[test]
fn absent_sorts_before_present() {
    let none = t(None, Some("z"), Some("z"));
    let some = t(Some(""), None, None);
    assert_eq!(none.compare(&some), Ordering::Less);
    assert!(none < some);
    assert_eq!(some.compare(&none), Ordering::Greater);
    assert_eq!(t(Some("a"), None, None).compare(&t(Some("a"), Some("a"), None)), Ordering::Less);
}

#[test]
fn order_agrees_with_derived_cmp() {
    let mut v = vec![
        t(Some("x86_64"), Some("unknown-linux"), Some("gnu")),
        t(None, None, None),
        t(Some("arm"), Some("linux"), None),
        t(Some("arm"), None, Some("gnu")),
        t(Some("arm"), Some("linux"), Some("gnueabi")),
        t(Some("armv7"), None, None),
    ];
    for x in &v {
        for y in &v {
            assert_eq!(x.compare(y), x.cmp(y));
            assert_eq!(x.partial_cmp(y), Some(x.cmp(y)));
        }
    }
    v.sort();
    let rendered: Vec<String> = v.iter().map(|x| x.str()).collect();
    assert_eq!(
        rendered,
        vec!["", "arm-gnu", "arm-linux", "arm-linux-gnueabi", "armv7", "x86_64-unknown-linux-gnu"]
    );
}
