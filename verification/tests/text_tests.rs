use eternalmodmanager::text::{i64_string, le_ci, lower_chars};

#[test]
fn decimal_rendering_matches_std() {
    assert_eq!(i64_string(0), "0");
    assert_eq!(i64_string(42), "42");
    assert_eq!(i64_string(-7), "-7");
    assert_eq!(i64_string(i64::MAX), i64::MAX.to_string());
    assert_eq!(i64_string(i64::MIN), i64::MIN.to_string());
}

#[test]
fn case_insensitive_order_ignores_ascii_case() {
    assert!(le_ci("alpha.zip", "Beta.zip"));
    assert!(le_ci("Beta.zip", "Zeta.zip"));
    assert!(!le_ci("Zeta.zip", "beta.zip"));
    assert!(le_ci("same.zip", "SAME.zip"));
    assert!(le_ci("SAME.zip", "same.zip"));
}

#[test]
fn case_folding_is_ascii_only() {
    let folded: String = lower_chars("AbC/Path.PNG").into_iter().collect();
    assert_eq!(folded, "abc/path.png");
}
