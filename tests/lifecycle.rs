use rust_crawler::fetch::{failure_of, FailureReason, JobResult};
use rust_crawler::posts::{Model, PostForm, PostRepository, PostStatus};

fn post(retry: i8, status: PostStatus) -> Model {
    Model {
        id: 9,
        title: None,
        body: None,
        image: None,
        video: None,
        url: Some("https://x.test/a".to_string()),
        retry,
        status,
        site_id: 1,
        user_id: 1,
        api_key_id: 1,
    }
}

#[test]
fn retry_budget_is_exhausted_after_three_failures() {
    let p = post(0, PostStatus::PENDING);
    let p = PostRepository::mark_failed(p, 3);
    assert_eq!((p.retry, p.status), (1, PostStatus::FAILED));
    assert!(PostRepository::is_pending(p.status));
    let p = PostRepository::mark_failed(p, 3);
    assert_eq!((p.retry, p.status), (2, PostStatus::FAILED));
    let p = PostRepository::mark_failed(p, 3);
    assert_eq!((p.retry, p.status), (3, PostStatus::CANCELLED));
    assert!(!PostRepository::is_pending(p.status));
}

#[test]
fn terminal_posts_do_not_move() {
    let p = PostRepository::mark_failed(post(3, PostStatus::CANCELLED), 3);
    assert_eq!((p.retry, p.status), (3, PostStatus::CANCELLED));
    let p = PostRepository::mark_failed(post(1, PostStatus::COMPLETED), 3);
    assert_eq!((p.retry, p.status), (1, PostStatus::COMPLETED));
}

#[test]
fn completion_stores_content_and_counts_the_attempt() {
    let form = PostForm {
        title: Some("T".to_string()),
        body: Some("<div>b</div>".to_string()),
        image: Some("https://x.test/i.png".to_string()),
        video: Some(String::new()),
        status: PostStatus::COMPLETED,
    };
    let p = PostRepository::mark_completed(post(1, PostStatus::FAILED), form);
    assert_eq!(p.status, PostStatus::COMPLETED);
    assert_eq!(p.retry, 2);
    assert_eq!(p.title.as_deref(), Some("T"));
    assert_eq!(p.body.as_deref(), Some("<div>b</div>"));
}

#[test]
fn failure_status_follows_the_budget() {
    assert_eq!(PostRepository::next_retry(0), 1);
    assert_eq!(PostRepository::resolve_failure_status(2, 3), PostStatus::FAILED);
    assert_eq!(PostRepository::resolve_failure_status(3, 3), PostStatus::CANCELLED);
    assert_eq!(PostRepository::resolve_failure_status(4, 3), PostStatus::CANCELLED);
    assert_eq!(PostRepository::resolve_failure_status(1, 200), PostStatus::FAILED);
}

#[test]
fn worker_outcomes_map_to_failures() {
    assert_eq!(failure_of(JobResult::Completed), None);
    assert_eq!(failure_of(JobResult::TimedOut(4)), Some((4, FailureReason::TimedOut)));
    assert_eq!(failure_of(JobResult::Panicked(5)), Some((5, FailureReason::Panicked)));
    assert_eq!(FailureReason::TimedOut.text(), "processing timed out");
    assert_eq!(FailureReason::Panicked.text(), "task panicked");
}

#[test]
fn panicking_post_is_cancelled_after_max_retry_ticks() {
    let mut p = post(0, PostStatus::PENDING);
    let mut ticks = 0;
    while PostRepository::is_pending(p.status) {
        let (id, _) = failure_of(JobResult::Panicked(p.id)).unwrap();
        assert_eq!(id, p.id);
        p = PostRepository::mark_failed(p, 4);
        ticks += 1;
    }
    assert_eq!(ticks, 4);
    assert_eq!(p.status, PostStatus::CANCELLED);
}
