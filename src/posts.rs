//! Posts, their status machine and the repository rules that move them along it.
use vstd::prelude::*;

verus! {

/// Where a post stands in its life.
#[derive(Clone, Copy, Debug, PartialEq, Eq, Structural)]
pub enum PostStatus {
    PENDING,
    COMPLETED,
    FAILED,
    CANCELLED,
}

/// Whether no further transition leaves `s`.
pub open spec fn is_terminal(s: PostStatus) -> bool {
    s == PostStatus::COMPLETED || s == PostStatus::CANCELLED
}

/// Whether a post in status `s` is picked up by the fetch pool.
pub open spec fn is_fetchable(s: PostStatus) -> bool {
    s == PostStatus::PENDING || s == PostStatus::FAILED
}

/// A post as stored.
#[derive(Clone, Debug)]
pub struct Model {
    pub id: i64,
    pub title: Option<String>,
    pub body: Option<String>,
    pub image: Option<String>,
    pub video: Option<String>,
    pub url: Option<String>,
    pub retry: i8,
    pub status: PostStatus,
    pub site_id: i64,
    pub user_id: i64,
    pub api_key_id: i64,
}

impl Model {
    /// A stored post never has a negative retry count.
    pub open spec fn wf(&self) -> bool {
        self.retry >= 0
    }
}

/// Extracted content that completes a post.
#[derive(Clone, Debug)]
pub struct PostForm {
    pub title: Option<String>,
    pub body: Option<String>,
    pub image: Option<String>,
    pub video: Option<String>,
    pub status: PostStatus,
}

/// A newly discovered post, before it is stored.
#[derive(Clone, Debug)]
pub struct PostFormCreate {
    pub url: Option<String>,
    pub site_id: i64,
    pub user_id: i64,
    pub api_key_id: i64,
}

/// The status a failed attempt leaves: cancelled once the retry budget is spent.
pub open spec fn failure_status(retry: int, max_retry: int) -> PostStatus {
    if retry >= max_retry {
        PostStatus::CANCELLED
    } else {
        PostStatus::FAILED
    }
}

/// The post after one failed fetch attempt; a post in a terminal status does not move.
pub open spec fn after_failure(p: Model, max_retry: int) -> Model {
    if is_terminal(p.status) {
        p
    } else {
        Model { retry: (p.retry + 1) as i8, status: failure_status(p.retry + 1, max_retry), ..p }
    }
}

/// The post after a successful fetch stored `data`; a post in a terminal status does not move.
pub open spec fn after_completion(p: Model, data: PostForm) -> Model {
    if is_terminal(p.status) {
        p
    } else {
        Model {
            title: data.title,
            body: data.body,
            image: data.image,
            video: data.video,
            status: data.status,
            retry: (p.retry + 1) as i8,
            ..p
        }
    }
}

/// The post after `n` failed fetch attempts in a row.
pub open spec fn after_failures(p: Model, max_retry: int, n: nat) -> Model
    decreases n,
{
    if n == 0 {
        p
    } else {
        after_failure(after_failures(p, max_retry, (n - 1) as nat), max_retry)
    }
}

/// The rules that move a post through its statuses.
pub struct PostRepository;

impl PostRepository {
    /// The retry count after one more attempt.
    pub fn next_retry(current_retry: i8) -> (r: i8)
        requires
            current_retry < i8::MAX,
        ensures
            r == current_retry + 1,
    {
        current_retry + 1
    }

    /// The status of a post whose attempt failed with `retry` attempts made.
    pub fn resolve_failure_status(retry: i8, max_retry: u8) -> (r: PostStatus)
        ensures
            r == failure_status(retry as int, max_retry as int),
    {
        if retry as i16 >= max_retry as i16 {
            PostStatus::CANCELLED
        } else {
            PostStatus::FAILED
        }
    }

    /// The post after a failed attempt: one more retry, and cancelled once `max_retry`
    /// attempts are spent. A completed or cancelled post stays as it is.
    pub fn mark_failed(post: Model, max_retry: u8) -> (r: Model)
        requires
            post.wf(),
            !is_terminal(post.status) ==> post.retry < i8::MAX,
        ensures
            r == after_failure(post, max_retry as int),
            r.wf(),
            r.retry >= post.retry,
            is_terminal(post.status) ==> r == post,
            !is_terminal(post.status) ==> r.retry == post.retry + 1,
            r.status == PostStatus::CANCELLED && post.status != PostStatus::CANCELLED ==> r.retry
                >= max_retry,
    {
        if post.status == PostStatus::COMPLETED || post.status == PostStatus::CANCELLED {
            return post;
        }
        let retry = Self::next_retry(post.retry);
        let status = Self::resolve_failure_status(retry, max_retry);
        Model { retry, status, ..post }
    }

    /// The post after a successful attempt: its content set, one more retry, and the status
    /// that `data` carries. A completed or cancelled post stays as it is.
    pub fn mark_completed(post: Model, data: PostForm) -> (r: Model)
        requires
            post.wf(),
            !is_terminal(post.status) ==> post.retry < i8::MAX,
            data.status == PostStatus::COMPLETED,
        ensures
            r == after_completion(post, data),
            r.wf(),
            r.retry >= post.retry,
            r.id == post.id && r.url == post.url && r.site_id == post.site_id,
            is_terminal(post.status) ==> r == post,
            !is_terminal(post.status) ==> ({
                &&& r.retry == post.retry + 1
                &&& r.status == PostStatus::COMPLETED
                &&& r.title == data.title
                &&& r.body == data.body
                &&& r.image == data.image
                &&& r.video == data.video
            }),
    {
        if post.status == PostStatus::COMPLETED || post.status == PostStatus::CANCELLED {
            return post;
        }
        let retry = Self::next_retry(post.retry);
        Model {
            title: data.title,
            body: data.body,
            image: data.image,
            video: data.video,
            status: data.status,
            retry,
            ..post
        }
    }

    /// Whether the fetch pool picks up a post in status `status`.
    pub fn is_pending(status: PostStatus) -> (r: bool)
        ensures
            r == is_fetchable(status),
    {
        status == PostStatus::PENDING || status == PostStatus::FAILED
    }
}

/// Whatever happens to a post, its retry count never drops and never goes negative, and it
/// becomes cancelled only through a failed attempt that brought the count to `max_retry`.
pub proof fn lemma_post_transitions(p: Model, max_retry: int, data: PostForm)
    requires
        p.wf(),
        !is_terminal(p.status) ==> p.retry < i8::MAX,
        data.status == PostStatus::COMPLETED,
    ensures
        after_failure(p, max_retry).retry >= p.retry >= 0,
        after_completion(p, data).retry >= p.retry >= 0,
        after_failure(p, max_retry).status == PostStatus::CANCELLED && p.status
            != PostStatus::CANCELLED ==> after_failure(p, max_retry).retry >= max_retry,
        after_completion(p, data).status == PostStatus::CANCELLED ==> p.status
            == PostStatus::CANCELLED,
        is_terminal(p.status) ==> after_failure(p, max_retry) == p && after_completion(p, data)
            == p,
{
}

/// A fresh post that fails on every attempt is failed, and still picked up, after each of
/// its first `max_retry - 1` attempts, and cancelled, and no longer picked up, after exactly
/// `max_retry` attempts.
pub proof fn lemma_exhausts_retry_budget(p: Model, max_retry: nat, n: nat)
    requires
        p.status == PostStatus::PENDING,
        p.retry == 0,
        1 <= max_retry <= i8::MAX,
        1 <= n <= max_retry,
    ensures
        after_failures(p, max_retry as int, n).retry == n,
        n < max_retry ==> after_failures(p, max_retry as int, n).status == PostStatus::FAILED,
        n < max_retry ==> is_fetchable(after_failures(p, max_retry as int, n).status),
        n == max_retry ==> after_failures(p, max_retry as int, n).status == PostStatus::CANCELLED,
        n == max_retry ==> !is_fetchable(after_failures(p, max_retry as int, n).status),
    decreases n,
{
    if n > 1 {
        lemma_exhausts_retry_budget(p, max_retry, (n - 1) as nat);
    } else {
        assert(after_failures(p, max_retry as int, 0) == p);
    }
}

/// Once cancelled, further failures leave the post as it is.
pub proof fn lemma_cancelled_stays(p: Model, max_retry: int, n: nat)
    requires
        p.status == PostStatus::CANCELLED,
    ensures
        after_failures(p, max_retry, n) == p,
    decreases n,
{
    if n > 0 {
        lemma_cancelled_stays(p, max_retry, (n - 1) as nat);
    }
}

} // verus!
