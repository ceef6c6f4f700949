use rust_crawler::discovery::{is_unique_violation, split_selectors};
use rust_crawler::link::normalize_link;

#[test]
fn root_relative_link_is_joined_to_origin() {
    assert_eq!(normalize_link("https://x.test", "/a"), "https://x.test/a");
    assert_eq!(normalize_link("https://x.test", "/b"), "https://x.test/b");
}

#[test]
fn trailing_slash_link_matches_existing_url() {
    assert_eq!(normalize_link("https://x.test", "/a/"), "https://x.test/a");
    assert_eq!(normalize_link("https://x.test/", "/a"), "https://x.test/a");
}

#[test]
fn empty_link_stays_empty() {
    assert_eq!(normalize_link("https://x.test", ""), "");
}

#[test]
fn quotes_and_whitespace_are_cleaned() {
    assert_eq!(normalize_link(" https://x.test/ ", "  \"/p/1/\"  "), "https://x.test/p/1");
}

#[test]
fn absolute_and_query_links_are_kept() {
    assert_eq!(normalize_link("https://x.test", "https://y.test/z/"), "https://y.test/z");
    assert_eq!(normalize_link("https://x.test", "?x=1"), "?x=1");
}

#[test]
fn normalizing_twice_changes_nothing() {
    for link in ["/a", "/a/", "https://y.test/q", "\"/b\"", "  /c//  ", "rel/path", "/"] {
        let once = normalize_link("https://x.test", link);
        assert_eq!(normalize_link("https://x.test", &once), once);
    }
}

#[test]
fn selectors_are_split_trimmed_and_filtered() {
    assert_eq!(split_selectors(".ad, .banner,, #foot ,"), vec![".ad", ".banner", "#foot"]);
    assert!(split_selectors("").is_empty());
    assert!(split_selectors(" , ,").is_empty());
    assert_eq!(split_selectors("div.x"), vec!["div.x"]);
}

#[test]
fn duplicate_insert_errors_are_recognised() {
    assert!(is_unique_violation(
        "error returned from database: (code: 2067) UNIQUE constraint failed: posts.site_id, posts.url"
    ));
    assert!(!is_unique_violation("FOREIGN KEY constraint failed"));
    assert!(!is_unique_violation(""));
}
