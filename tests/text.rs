use std::cmp::Ordering;

use rust_bootstrap::text::{same_text, text_cmp};

#[test]
fn same_text_compares_characters() {
    assert!(same_text("gnu", "gnu"));
    assert!(same_text("", ""));
    assert!(!same_text("gnu", "gnux32"));
    assert!(!same_text("arm", "amr"));
}

#[test]
fn text_cmp_matches_string_order() {
    let words = ["", "a", "ab", "b", "aarch64", "x86_64", "é", "z", "arm", "armv7"];
    for a in words {
        for b in words {
            assert_eq!(text_cmp(a, b), a.cmp(b));
        }
    }
    assert_eq!(text_cmp("arm", "armv7"), Ordering::Less);
}
