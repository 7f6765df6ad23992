use gpui_remixicon::assets::{
    lex_le, merge_listing, route_load, should_list_custom, sort_unique, starts_with, str_equal,
    LoadRoute,
};

const CUSTOM_DIR: &str = "icons/custom";
const CUSTOM_FILE: &str = "icons/custom/sparkle.svg";

fn strings(items: &[&str]) -> Vec<String> {
    items.iter().map(|s| s.to_string()).collect()
}

#[test]
fn starts_with_matches_prefixes_only() {
    assert!(starts_with("icons/custom/sparkle.svg", "icons/custom"));
    assert!(starts_with("icons", ""));
    assert!(starts_with("icons", "icons"));
    assert!(!starts_with("icons", "icons/custom"));
    assert!(!starts_with("icons/a.svg", "other"));
}

#[test]
fn str_equal_compares_contents() {
    assert!(str_equal("icons/a.svg", "icons/a.svg"));
    assert!(!str_equal("icons/a.svg", "icons/b.svg"));
    assert!(!str_equal("icons", "icons/a.svg"));
    assert!(str_equal("", ""));
}

#[test]
fn lex_le_orders_paths() {
    assert!(lex_le("a", "b"));
    assert!(!lex_le("b", "a"));
    assert!(lex_le("a", "a"));
    assert!(lex_le("a", "ab"));
    assert!(!lex_le("ab", "a"));
    assert!(lex_le("icons/a", "icons/b"));
}

#[test]
fn route_load_decides_empty_custom_and_inherited() {
    assert_eq!(route_load("", CUSTOM_FILE), LoadRoute::Missing);
    assert_eq!(route_load(CUSTOM_FILE, CUSTOM_FILE), LoadRoute::Custom);
    assert_eq!(route_load("icons/other.svg", CUSTOM_FILE), LoadRoute::Inherited);
}

#[test]
fn custom_entry_listed_for_overlapping_queries_only() {
    assert!(should_list_custom(CUSTOM_DIR, ""));
    assert!(should_list_custom(CUSTOM_DIR, "icons"));
    assert!(should_list_custom(CUSTOM_DIR, "icons/custom"));
    assert!(should_list_custom(CUSTOM_DIR, "icons/custom/sparkle.svg"));
    assert!(!should_list_custom(CUSTOM_DIR, "other"));
    assert!(!should_list_custom(CUSTOM_DIR, "icons/arrows"));
}

#[test]
fn sort_unique_sorts_and_drops_duplicates() {
    let sorted = sort_unique(strings(&["b", "a", "c", "a", "b"]));
    assert_eq!(sorted, strings(&["a", "b", "c"]));
    let empty = sort_unique(Vec::new());
    assert!(empty.is_empty());
}

#[test]
fn merge_listing_inserts_custom_entry_sorted() {
    let merged = merge_listing(
        strings(&["icons/z.svg", "icons/a.svg"]),
        "icons",
        CUSTOM_DIR,
        CUSTOM_FILE,
    );
    assert_eq!(
        merged,
        strings(&["icons/a.svg", "icons/custom/sparkle.svg", "icons/z.svg"])
    );
}

#[test]
fn merge_listing_leaves_unrelated_queries_alone() {
    let merged = merge_listing(
        strings(&["other/b.svg", "other/a.svg", "other/a.svg"]),
        "other",
        CUSTOM_DIR,
        CUSTOM_FILE,
    );
    assert_eq!(merged, strings(&["other/a.svg", "other/b.svg"]));
}

#[test]
fn merge_listing_does_not_duplicate_custom_entry() {
    let merged = merge_listing(
        strings(&[CUSTOM_FILE, "icons/a.svg"]),
        "icons/custom",
        CUSTOM_DIR,
        CUSTOM_FILE,
    );
    assert_eq!(
        merged,
        strings(&["icons/a.svg", "icons/custom/sparkle.svg"])
    );
}
