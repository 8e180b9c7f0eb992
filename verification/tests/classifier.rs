use legacy_str_from_utf8::classify::should_lint_on_path;

fn segs(names: &[&str]) -> Vec<String> {
    names.iter().map(|n| n.to_string()).collect()
}

#[test]
fn classifier_accepts_the_four_leaf_names() {
    assert!(should_lint_on_path(&segs(&["core", "str", "from_utf8"])));
    assert!(should_lint_on_path(&segs(&["core", "str", "from_utf8_mut"])));
    assert!(should_lint_on_path(&segs(&["core", "str", "from_utf8_unchecked"])));
    assert!(should_lint_on_path(&segs(&["core", "str", "from_utf8_unchecked_mut"])));
}

#[test]
fn classifier_reads_only_first_and_last_segments() {
    assert!(should_lint_on_path(&segs(&["core", "from_utf8"])));
    assert!(should_lint_on_path(&segs(&["core", "anything", "at", "all", "from_utf8_mut"])));
}

#[test]
fn classifier_rejects_empty_path() {
    assert!(!should_lint_on_path(&segs(&[])));
}

#[test]
fn classifier_rejects_foreign_roots() {
    assert!(!should_lint_on_path(&segs(&["std", "str", "from_utf8"])));
    assert!(!should_lint_on_path(&segs(&["str", "from_utf8"])));
    assert!(!should_lint_on_path(&segs(&["corex", "str", "from_utf8"])));
}

#[test]
fn classifier_rejects_other_leaf_names() {
    assert!(!should_lint_on_path(&segs(&["core", "str", "from_utf16"])));
    assert!(!should_lint_on_path(&segs(&["core", "str", "from_utf8x"])));
    assert!(!should_lint_on_path(&segs(&["core", "str"])));
    assert!(!should_lint_on_path(&segs(&["core"])));
}

#[test]
fn classifier_single_segment_is_both_first_and_last() {
    // a one-segment path would need its only name to be both `core` and a
    // targeted leaf name, which no name is
    assert!(!should_lint_on_path(&segs(&["from_utf8"])));
}
