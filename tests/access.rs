use rust_crawler::sites::{SiteForm, SiteRepository};

fn form(user_id: Option<i64>, api_key_id: Option<i64>) -> SiteForm {
    SiteForm {
        name: "x".to_string(),
        url: "https://x.test".to_string(),
        url_list: "https://x.test/list".to_string(),
        path_link: Some("a.item".to_string()),
        path_title: None,
        path_content: None,
        path_image: None,
        path_video: None,
        path_remove: None,
        screenshot: None,
        status: Some(true),
        user_id,
        api_key_id,
    }
}

#[test]
fn non_admin_always_owns_new_sites() {
    assert_eq!(SiteRepository::resolve_owner(&form(Some(9), Some(8)), 2, false, 3), (2, 3));
}

#[test]
fn admin_may_name_an_owner() {
    assert_eq!(SiteRepository::resolve_owner(&form(Some(9), None), 2, true, 3), (9, 3));
    assert_eq!(SiteRepository::resolve_owner(&form(None, None), 2, true, 3), (2, 3));
}

#[test]
fn only_owner_or_admin_may_access() {
    assert!(SiteRepository::can_access(5, 5, false));
    assert!(!SiteRepository::can_access(5, 6, false));
    assert!(SiteRepository::can_access(5, 6, true));
}
