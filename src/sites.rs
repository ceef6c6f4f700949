//! Sites: the crawl sources and the forms that create or change them.
use vstd::prelude::*;

verus! {

/// A crawl source as stored.
#[derive(Clone, Debug)]
pub struct Site {
    pub id: i64,
    pub name: String,
    /// Origin that relative links are joined to.
    pub url: String,
    /// Page whose links name candidate posts.
    pub url_list: String,
    pub path_link: Option<String>,
    pub path_title: Option<String>,
    pub path_content: Option<String>,
    pub path_image: Option<String>,
    pub path_video: Option<String>,
    /// Comma-separated selectors of nodes removed before extraction.
    pub path_remove: Option<String>,
    pub screenshot: bool,
    /// A site with `status == false` is neither discovered nor fetched.
    pub status: bool,
    pub user_id: i64,
    pub api_key_id: i64,
}

/// The fields of a site as submitted; the owner may be left for the server to fill in.
#[derive(Clone, Debug)]
pub struct SiteForm {
    pub name: String,
    pub url: String,
    pub url_list: String,
    pub path_link: Option<String>,
    pub path_title: Option<String>,
    pub path_content: Option<String>,
    pub path_image: Option<String>,
    pub path_video: Option<String>,
    pub path_remove: Option<String>,
    pub screenshot: Option<bool>,
    pub status: Option<bool>,
    pub user_id: Option<i64>,
    pub api_key_id: Option<i64>,
}

/// Rules on sites that hold whatever the store.
pub struct SiteRepository;

impl SiteRepository {
    /// Whether discovery and fetch consider `site`.
    pub fn is_enabled(site: &Site) -> (r: bool)
        ensures
            r == site.status,
    {
        site.status
    }

    /// The owner a new site gets: a non-admin always owns what they create with the key
    /// they use; an admin may name another owner and defaults to the same.
    pub fn resolve_owner(form: &SiteForm, user_id: i64, is_admin: bool, api_key_id: i64) -> (r: (
        i64,
        i64,
    ))
        ensures
            !is_admin ==> r == (user_id, api_key_id),
            is_admin ==> r.0 == (match form.user_id {
                Some(u) => u,
                None => user_id,
            }),
            is_admin ==> r.1 == (match form.api_key_id {
                Some(k) => k,
                None => api_key_id,
            }),
    {
        if !is_admin {
            (user_id, api_key_id)
        } else {
            let u = match form.user_id {
                Some(u) => u,
                None => user_id,
            };
            let k = match form.api_key_id {
                Some(k) => k,
                None => api_key_id,
            };
            (u, k)
        }
    }

    /// Whether a user may see or change a site: admins always, others only their own.
    pub fn can_access(site_user_id: i64, user_id: i64, is_admin: bool) -> (r: bool)
        ensures
            r == (is_admin || site_user_id == user_id),
    {
        is_admin || site_user_id == user_id
    }
}

} // verus!
