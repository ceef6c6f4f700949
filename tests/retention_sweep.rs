use rust_crawler::retention::{retain_latest, retention_boundary};

fn ids_desc(n: i64) -> Vec<i64> {
    (1..=n).rev().collect()
}

#[test]
fn sweep_keeps_the_newest_thousand() {
    let ids = ids_desc(1500);
    assert_eq!(retention_boundary(&ids, 1000), Some(501));
    let kept = retain_latest(&ids, 1000);
    assert_eq!(kept.len(), 1000);
    assert_eq!(ids.len() - kept.len(), 500);
    assert_eq!(kept.first(), Some(&1500));
    assert_eq!(kept.last(), Some(&501));
}

#[test]
fn second_sweep_deletes_nothing() {
    let ids = ids_desc(1500);
    let once = retain_latest(&ids, 1000);
    let twice = retain_latest(&once, 1000);
    assert_eq!(once, twice);
}

#[test]
fn keep_zero_deletes_nothing() {
    let ids = ids_desc(10);
    assert_eq!(retention_boundary(&ids, 0), None);
    assert_eq!(retain_latest(&ids, 0), ids);
}

#[test]
fn fewer_posts_than_kept_deletes_nothing() {
    let ids = ids_desc(3);
    assert_eq!(retention_boundary(&ids, 4), None);
    assert_eq!(retain_latest(&ids, 4), ids);
    assert_eq!(retention_boundary(&ids, 3), Some(1));
}

#[test]
fn gaps_in_ids_are_handled() {
    let ids = vec![90, 40, 33, 7, 2];
    assert_eq!(retention_boundary(&ids, 2), Some(40));
    assert_eq!(retain_latest(&ids, 2), vec![90, 40]);
}
