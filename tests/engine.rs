use rust_crawler::discovery::{DiscoveryAction, DiscoveryEvent, DiscoveryStage, SiteDiscovery};
use rust_crawler::fetch::{
    collect_content, pending_jobs, FailureReason, FetchAction, FetchEvent, FetchStage,
    PostContentJob, PostFetch, WorkerPool,
};
use rust_crawler::posts::{Model, PostStatus};
use rust_crawler::sites::Site;
use rust_crawler::tracker::SiteErrorTracker;

fn site(id: i64) -> Site {
    Site {
        id,
        name: "x".to_string(),
        url: "https://x.test".to_string(),
        url_list: "https://x.test/list".to_string(),
        path_link: Some("a.item".to_string()),
        path_title: Some("h1".to_string()),
        path_content: Some("div.body".to_string()),
        path_image: Some("img.hero".to_string()),
        path_video: Some("video".to_string()),
        path_remove: None,
        screenshot: false,
        status: true,
        user_id: 3,
        api_key_id: 4,
    }
}

fn post(id: i64, url: &str) -> Model {
    Model {
        id,
        title: None,
        body: None,
        image: None,
        video: None,
        url: Some(url.to_string()),
        retry: 0,
        status: PostStatus::PENDING,
        site_id: 1,
        user_id: 3,
        api_key_id: 4,
    }
}

fn inserted_urls(action: &DiscoveryAction) -> Vec<String> {
    match action {
        DiscoveryAction::Insert(posts) => posts.iter().map(|p| p.url.clone().unwrap()).collect(),
        _ => panic!("expected an insert"),
    }
}

#[test]
fn happy_discovery_inserts_normalized_links() {
    let mut tracker = SiteErrorTracker::new();
    tracker.register(1);
    let (mut d, first) = SiteDiscovery::start(site(1)).unwrap();
    assert!(matches!(first, DiscoveryAction::Open(ref u) if u == "https://x.test/list"));
    let w = d.step(&mut tracker, DiscoveryEvent::Opened);
    assert!(matches!(w.action, DiscoveryAction::WaitFor(ref s) if s == "a.item"));
    let q = d.step(&mut tracker, DiscoveryEvent::Found);
    assert!(matches!(q.action, DiscoveryAction::QueryLinks(ref s) if s == "a.item"));
    assert_eq!(tracker.count(1), 0);
    let ins = d.step(
        &mut tracker,
        DiscoveryEvent::Links(vec!["/a".to_string(), "/b".to_string()]),
    );
    assert!(!ins.disable);
    assert_eq!(inserted_urls(&ins.action), vec!["https://x.test/a", "https://x.test/b"]);
    if let DiscoveryAction::Insert(posts) = &ins.action {
        assert!(posts.iter().all(|p| p.site_id == 1 && p.user_id == 3 && p.api_key_id == 4));
    }
    assert_eq!(d.stage, DiscoveryStage::Finished);
}

#[test]
fn duplicate_link_normalizes_to_the_existing_url() {
    let mut tracker = SiteErrorTracker::new();
    let (mut d, _) = SiteDiscovery::start(site(1)).unwrap();
    d.step(&mut tracker, DiscoveryEvent::Opened);
    d.step(&mut tracker, DiscoveryEvent::Found);
    let ins = d.step(
        &mut tracker,
        DiscoveryEvent::Links(vec!["/a".to_string(), "/b".to_string(), "/a/".to_string()]),
    );
    let urls = inserted_urls(&ins.action);
    assert_eq!(urls[2], urls[0]);
}

#[test]
fn site_without_link_selector_is_skipped() {
    let mut s = site(1);
    s.path_link = Some(String::new());
    assert!(SiteDiscovery::start(s).is_none());
    let mut s = site(1);
    s.path_link = None;
    assert!(SiteDiscovery::start(s).is_none());
}

#[test]
fn repeated_open_failures_disable_the_site() {
    let mut tracker = SiteErrorTracker::new();
    for tick in 1..=5u32 {
        let (mut d, _) = SiteDiscovery::start(site(2)).unwrap();
        let r = d.step(&mut tracker, DiscoveryEvent::OpenFailed);
        assert!(matches!(r.action, DiscoveryAction::Done));
        if tick < 5 {
            assert!(!r.disable);
            assert_eq!(tracker.count(2), tick);
        } else {
            assert!(r.disable);
        }
    }
}

#[test]
fn removal_runs_before_links_are_read() {
    let mut s = site(1);
    s.path_remove = Some(".ad, .nav".to_string());
    let mut tracker = SiteErrorTracker::new();
    let (mut d, _) = SiteDiscovery::start(s).unwrap();
    d.step(&mut tracker, DiscoveryEvent::Opened);
    let r = d.step(&mut tracker, DiscoveryEvent::Found);
    assert!(matches!(r.action, DiscoveryAction::Remove(ref v) if v == &vec![".ad", ".nav"]));
    let r = d.step(&mut tracker, DiscoveryEvent::RemoveTimedOut);
    assert!(matches!(r.action, DiscoveryAction::QueryLinks(_)));
    assert_eq!(tracker.count(1), 1);
    let r = d.step(&mut tracker, DiscoveryEvent::LinksFailed);
    assert!(matches!(r.action, DiscoveryAction::Done));
}

#[test]
fn pool_never_runs_more_than_its_limit() {
    let mut pool = WorkerPool::new(3, 10);
    let mut started = pool.seed();
    assert_eq!(started, 3);
    let mut max_running = pool.running;
    let mut order = vec![0, 1, 2];
    while !pool.is_drained() {
        if let Some(i) = pool.finish() {
            order.push(i);
            started += 1;
        }
        max_running = max_running.max(pool.running);
    }
    assert_eq!(started, 10);
    assert_eq!(max_running, 3);
    assert_eq!(order, (0..10).collect::<Vec<usize>>());
}

#[test]
fn pool_with_no_jobs_starts_nothing() {
    let mut pool = WorkerPool::new(10, 0);
    assert_eq!(pool.seed(), 0);
    assert!(pool.is_drained());
}

#[test]
fn page_with_nothing_extracted_fails_the_post() {
    assert!(collect_content("https://x.test", String::new(), "", "", String::new()).is_none());
    let f = collect_content("https://x.test", String::new(), "/i.png", "", String::new()).unwrap();
    assert_eq!(f.image.as_deref(), Some("https://x.test/i.png"));
    assert_eq!(f.video.as_deref(), Some(""));
    assert_eq!(f.status, PostStatus::COMPLETED);
}

#[test]
fn post_fetch_completes_with_extracted_fields() {
    let mut tracker = SiteErrorTracker::new();
    let job = PostContentJob { post: post(5, "https://x.test/a"), site: site(1) };
    let (mut f, open) = PostFetch::start(job);
    assert!(matches!(open, FetchAction::Open(ref u) if u == "https://x.test/a"));
    let r = f.step(&mut tracker, FetchEvent::Opened);
    assert!(matches!(r.action, FetchAction::Extract { ref title, .. } if title == "h1"));
    let r = f.step(
        &mut tracker,
        FetchEvent::Extracted {
            title: "Hello".to_string(),
            raw_image: "/img/1.jpg".to_string(),
            raw_video: String::new(),
            body: "<div class=\"body\">x</div>".to_string(),
        },
    );
    match r.action {
        FetchAction::Save(form) => {
            assert_eq!(form.title.as_deref(), Some("Hello"));
            assert_eq!(form.image.as_deref(), Some("https://x.test/img/1.jpg"));
        }
        _ => panic!("expected a save"),
    }
    assert_eq!(f.stage, FetchStage::Saving);
    let r = f.step(&mut tracker, FetchEvent::SaveFailed);
    assert!(matches!(r.action, FetchAction::MarkFailed(FailureReason::DatabaseUpdateFailed)));
}

#[test]
fn empty_page_counts_against_the_site() {
    let mut tracker = SiteErrorTracker::new();
    let job = PostContentJob { post: post(5, "https://x.test/a"), site: site(1) };
    let (mut f, _) = PostFetch::start(job);
    f.step(&mut tracker, FetchEvent::Opened);
    let r = f.step(
        &mut tracker,
        FetchEvent::Extracted {
            title: String::new(),
            raw_image: String::new(),
            raw_video: String::new(),
            body: String::new(),
        },
    );
    assert!(matches!(r.action, FetchAction::MarkFailed(FailureReason::NoContent)));
    assert!(!r.disable_site);
    assert_eq!(tracker.count(1), 1);
}

#[test]
fn browser_timeout_fails_the_post() {
    let mut tracker = SiteErrorTracker::new();
    let job = PostContentJob { post: post(5, "https://x.test/a"), site: site(1) };
    let (mut f, _) = PostFetch::start(job);
    let r = f.step(&mut tracker, FetchEvent::OpenTimedOut);
    assert!(matches!(r.action, FetchAction::MarkFailed(FailureReason::BrowserInitTimedOut)));
}

#[test]
fn browser_failure_fails_the_post() {
    let mut tracker = SiteErrorTracker::new();
    let job = PostContentJob { post: post(5, "https://x.test/a"), site: site(1) };
    let (mut f, _) = PostFetch::start(job);
    let r = f.step(&mut tracker, FetchEvent::OpenFailed);
    assert!(matches!(r.action, FetchAction::MarkFailed(FailureReason::BrowserInitFailed)));
    assert_eq!(FailureReason::BrowserInitFailed.text(), "browser initialization failed");
    assert_eq!(tracker.count(1), 0);
}

#[test]
fn posts_of_disabled_sites_are_not_fetched() {
    let mut disabled = site(2);
    disabled.status = false;
    let rows = vec![
        (post(8, "https://x.test/h"), Some(disabled)),
        (post(7, "https://x.test/g"), Some(site(1))),
    ];
    let jobs = pending_jobs(rows);
    assert_eq!(jobs.len(), 1);
    assert_eq!(jobs[0].post.id, 7);
    assert!(jobs[0].site.status);
}

#[test]
fn stale_rows_are_dropped_from_pending_jobs() {
    let mut cancelled = post(0, "https://x.test/z");
    cancelled.status = PostStatus::CANCELLED;
    cancelled.retry = 3;
    let rows = vec![
        (post(3, "https://x.test/c"), Some(site(1))),
        (post(2, "https://x.test/b"), None),
        (post(1, "https://x.test/a"), Some(site(1))),
        (cancelled, Some(site(1))),
    ];
    let jobs = pending_jobs(rows);
    assert_eq!(jobs.iter().map(|j| j.post.id).collect::<Vec<i64>>(), vec![3, 1]);
}
