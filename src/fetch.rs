//! Decisions of the fetch pool: how many workers run, which job starts next, and what
//! each worker's outcome does to its post.
use vstd::prelude::*;
use crate::link::{normalize_link, normalized};
use crate::posts::{is_fetchable, Model, PostForm, PostRepository, PostStatus};
use crate::sites::{Site, SiteRepository};
use crate::discovery::{removal_selectors, selector_list, views};
use crate::tracker::{count_of, over_threshold, SiteErrorTracker};

verus! {

/// Workers that run at once when nothing else is configured.
pub const DEFAULT_MAX_CONCURRENT_JOBS: usize = 20;
/// Seconds one post may take when nothing else is configured.
pub const DEFAULT_POST_PROCESS_TIMEOUT_SECS: u64 = 45;
/// Seconds a browser may take to start when nothing else is configured.
pub const DEFAULT_BROWSER_START_TIMEOUT_SECS: u64 = 30;

/// Limits that one run of the fetch pool works under.
#[derive(Clone, Copy, Debug, PartialEq, Eq, Structural)]
pub struct PostProcessingConfig {
    pub concurrency_limit: usize,
    pub post_timeout_secs: u64,
    pub browser_start_timeout_secs: u64,
}

impl PostProcessingConfig {
    /// The limits taken from the loaded configuration.
    pub fn from_config(config: &crate::config::Config) -> (r: PostProcessingConfig)
        ensures
            r.concurrency_limit == config.post_concurrency,
            r.post_timeout_secs == config.post_timeout_seconds,
            r.browser_start_timeout_secs == config.browser_start_timeout_seconds,
    {
        PostProcessingConfig {
            concurrency_limit: config.post_concurrency,
            post_timeout_secs: config.post_timeout_seconds,
            browser_start_timeout_secs: config.browser_start_timeout_seconds,
        }
    }

    /// The limits used when no configuration is loaded.
    pub fn fallback() -> (r: PostProcessingConfig)
        ensures
            r.concurrency_limit == DEFAULT_MAX_CONCURRENT_JOBS,
            r.post_timeout_secs == DEFAULT_POST_PROCESS_TIMEOUT_SECS,
            r.browser_start_timeout_secs == DEFAULT_BROWSER_START_TIMEOUT_SECS,
    {
        PostProcessingConfig {
            concurrency_limit: DEFAULT_MAX_CONCURRENT_JOBS,
            post_timeout_secs: DEFAULT_POST_PROCESS_TIMEOUT_SECS,
            browser_start_timeout_secs: DEFAULT_BROWSER_START_TIMEOUT_SECS,
        }
    }
}

/// Bookkeeping of a bounded pool draining a queue of `total` jobs in order.
#[derive(Clone, Copy, Debug, PartialEq, Eq, Structural)]
pub struct WorkerPool {
    /// Most workers that may run at once.
    pub limit: usize,
    /// Jobs in the queue.
    pub total: usize,
    /// Index of the next job to start; the jobs before it were started.
    pub next: usize,
    /// Workers running now.
    pub running: usize,
}

impl WorkerPool {
    /// At most `limit` workers run, and no job starts twice.
    pub open spec fn wf(&self) -> bool {
        &&& self.running <= self.limit
        &&& self.running <= self.next <= self.total
    }

    /// A pool with nothing started yet.
    pub fn new(limit: usize, total: usize) -> (r: WorkerPool)
        ensures
            r.wf(),
            r == (WorkerPool { limit, total, next: 0, running: 0 }),
    {
        WorkerPool { limit, total, next: 0, running: 0 }
    }

    /// Starts the first workers: as many as the limit allows and the queue holds. Returns
    /// how many to start; they are the jobs `0..r`.
    pub fn seed(&mut self) -> (r: usize)
        requires
            old(self).wf(),
            old(self).next == 0,
            old(self).running == 0,
        ensures
            final(self).wf(),
            r == if old(self).limit < old(self).total {
                old(self).limit
            } else {
                old(self).total
            },
            *final(self) == (WorkerPool { next: r, running: r, ..*old(self) }),
    {
        let n = if self.limit < self.total {
            self.limit
        } else {
            self.total
        };
        self.next = n;
        self.running = n;
        n
    }

    /// One worker has finished. Returns the index of the job to start in its place, if the
    /// queue holds one.
    pub fn finish(&mut self) -> (r: Option<usize>)
        requires
            old(self).wf(),
            old(self).running > 0,
        ensures
            final(self).wf(),
            final(self).limit == old(self).limit,
            final(self).total == old(self).total,
            old(self).next < old(self).total ==> r == Some(old(self).next) && final(self).next
                == old(self).next + 1 && final(self).running == old(self).running,
            old(self).next >= old(self).total ==> r is None && final(self).next == old(self).next
                && final(self).running == old(self).running - 1,
    {
        self.running = self.running - 1;
        if self.next < self.total {
            let i = self.next;
            self.next = self.next + 1;
            self.running = self.running + 1;
            Some(i)
        } else {
            None
        }
    }

    /// Whether the pool has nothing left to wait for.
    pub fn is_drained(&self) -> (r: bool)
        ensures
            r == (self.running == 0),
    {
        self.running == 0
    }
}

/// At no point do more workers run than the limit allows, and a pool with no jobs starts
/// no worker.
pub proof fn lemma_pool_bounded(p: WorkerPool, seeded: WorkerPool, r: usize)
    requires
        p.wf(),
        p.next == 0,
        p.running == 0,
        r == if p.limit < p.total {
            p.limit
        } else {
            p.total
        },
        seeded == (WorkerPool { next: r, running: r, ..p }),
    ensures
        seeded.wf(),
        seeded.running <= p.limit,
        p.total == 0 ==> r == 0 && seeded.running == 0,
{
}

/// How a worker ended.
#[derive(Clone, Copy, Debug, PartialEq, Eq, Structural)]
pub enum JobResult {
    Completed,
    TimedOut(i64),
    Panicked(i64),
}

/// Why a fetch attempt failed.
#[derive(Clone, Copy, Debug, PartialEq, Eq, Structural)]
pub enum FailureReason {
    BrowserInitFailed,
    BrowserInitTimedOut,
    NoContent,
    DatabaseUpdateFailed,
    TimedOut,
    Panicked,
}

impl FailureReason {
    /// A short English phrase for the log.
    pub fn text(&self) -> (r: &'static str)
        ensures
            r == match *self {
                FailureReason::BrowserInitFailed => "browser initialization failed",
                FailureReason::BrowserInitTimedOut => "browser initialization timed out",
                FailureReason::NoContent => "no content extracted",
                FailureReason::DatabaseUpdateFailed => "database update failed",
                FailureReason::TimedOut => "processing timed out",
                FailureReason::Panicked => "task panicked",
            },
    {
        match self {
            FailureReason::BrowserInitFailed => "browser initialization failed",
            FailureReason::BrowserInitTimedOut => "browser initialization timed out",
            FailureReason::NoContent => "no content extracted",
            FailureReason::DatabaseUpdateFailed => "database update failed",
            FailureReason::TimedOut => "processing timed out",
            FailureReason::Panicked => "task panicked",
        }
    }
}

/// The post to mark failed after a worker ended, and why; none for a completed worker.
pub fn failure_of(result: JobResult) -> (r: Option<(i64, FailureReason)>)
    ensures
        result == JobResult::Completed ==> r is None,
        forall|id: i64| result == JobResult::TimedOut(id) ==> r == Some((id, FailureReason::TimedOut)),
        forall|id: i64| result == JobResult::Panicked(id) ==> r == Some((id, FailureReason::Panicked)),
{
    match result {
        JobResult::Completed => None,
        JobResult::TimedOut(id) => Some((id, FailureReason::TimedOut)),
        JobResult::Panicked(id) => Some((id, FailureReason::Panicked)),
    }
}

/// The content extracted from a post page: the completing update, or none where all four
/// fields are empty once image and video links are normalized against `site_url`.
pub fn collect_content(
    site_url: &str,
    title: String,
    raw_image: &str,
    raw_video: &str,
    body: String,
) -> (r: Option<PostForm>)
    ensures
        ({
            let image = normalized(site_url@, raw_image@);
            let video = normalized(site_url@, raw_video@);
            let empty = title@.len() == 0 && image.len() == 0 && video.len() == 0 && body@.len()
                == 0;
            &&& empty ==> r is None
            &&& !empty ==> r is Some && r->0.status == PostStatus::COMPLETED && r->0.title
                == Some(title) && r->0.body == Some(body) && r->0.image is Some
                && r->0.image->0@ == image && r->0.video is Some && r->0.video->0@ == video
        }),
{
    let image = normalize_link(site_url, raw_image);
    let video = normalize_link(site_url, raw_video);
    if title.as_str().is_empty() && image.as_str().is_empty() && video.as_str().is_empty()
        && body.as_str().is_empty() {
        None
    } else {
        Some(
            PostForm {
                title: Some(title),
                body: Some(body),
                image: Some(image),
                video: Some(video),
                status: PostStatus::COMPLETED,
            },
        )
    }
}

/// A post to fetch, with the site it belongs to.
#[derive(Clone, Debug)]
pub struct PostContentJob {
    pub post: Model,
    pub site: Site,
}

/// The jobs for the rows of a pending-post query, in order; a post whose site is gone or
/// disabled, or that is neither pending nor failed, is dropped.
pub open spec fn joined(rows: Seq<(Model, Option<Site>)>) -> Seq<PostContentJob>
    decreases rows.len(),
{
    if rows.len() == 0 {
        Seq::empty()
    } else {
        let rest = joined(rows.drop_first());
        match rows[0].1 {
            Some(site) => if site.status && is_fetchable(rows[0].0.status) {
                seq![PostContentJob { post: rows[0].0, site }] + rest
            } else {
                rest
            },
            None => rest,
        }
    }
}

proof fn lemma_joined_fetchable(rows: Seq<(Model, Option<Site>)>)
    ensures
        forall|i: int|
            0 <= i < joined(rows).len() ==> is_fetchable((#[trigger] joined(rows)[i]).post.status)
                && joined(rows)[i].site.status,
    decreases rows.len(),
{
    if rows.len() > 0 {
        lemma_joined_fetchable(rows.drop_first());
        let rest = joined(rows.drop_first());
        if rows[0].1 is Some && rows[0].1->0.status && is_fetchable(rows[0].0.status) {
            assert forall|i: int| 0 <= i < joined(rows).len() implies is_fetchable(
                (#[trigger] joined(rows)[i]).post.status,
            ) && joined(rows)[i].site.status by {
                if i > 0 {
                    assert(joined(rows)[i] == rest[i - 1]);
                }
            }
        }
    }
}

/// The jobs for the rows of a pending-post query, dropping posts whose site is gone or
/// disabled, and posts that are completed or cancelled.
pub fn pending_jobs(rows: Vec<(Model, Option<Site>)>) -> (r: Vec<PostContentJob>)
    ensures
        r@ == joined(rows@),
        forall|i: int| 0 <= i < r@.len() ==> is_fetchable((#[trigger] r@[i]).post.status),
        forall|i: int| 0 <= i < r@.len() ==> (#[trigger] r@[i]).site.status,
{
    let ghost old_rows = rows@;
    let mut rows = rows;
    let mut r: Vec<PostContentJob> = Vec::new();
    while rows.len() > 0
        invariant
            joined(old_rows) == r@ + joined(rows@),
        decreases rows.len(),
    {
        let ghost before = rows@;
        let (post, site) = rows.remove(0);
        assert(rows@ =~= before.drop_first());
        match site {
            Some(site) => {
                if SiteRepository::is_enabled(&site) && PostRepository::is_pending(post.status) {
                    let ghost prev = r@;
                    r.push(PostContentJob { post, site });
                    assert(r@ + joined(rows@) =~= prev + joined(before));
                }
            },
            None => {},
        }
    }
    assert(r@ + joined(rows@) =~= r@);
    proof {
        lemma_joined_fetchable(old_rows);
    }
    r
}

/// The text of an optional setting, empty where it is absent.
pub open spec fn or_empty(v: Option<String>) -> Seq<char> {
    match v {
        Some(s) => s@,
        None => Seq::empty(),
    }
}

fn text_or_empty(v: &Option<String>) -> (r: String)
    ensures
        r@ == or_empty(*v),
{
    match v {
        Some(s) => s.as_str().to_owned(),
        None => String::new(),
    }
}

/// Where the fetch of one post stands.
#[derive(Clone, Copy, Debug, PartialEq, Eq, Structural)]
pub enum FetchStage {
    Opening,
    Removing,
    Extracting,
    Saving,
    Finished,
}

/// What the browser or the store reported for the last action.
#[derive(Clone, Debug)]
pub enum FetchEvent {
    Opened,
    OpenFailed,
    OpenTimedOut,
    /// The removal ran; its failure is only logged.
    RemoveDone,
    /// The four fields as read, each empty where reading failed.
    Extracted { title: String, raw_image: String, raw_video: String, body: String },
    Saved,
    SaveFailed,
}

/// What to do next for the post.
#[derive(Clone, Debug)]
pub enum FetchAction {
    /// Open a browser on this url.
    Open(String),
    /// Remove the nodes these selectors match.
    Remove(Vec<String>),
    /// Read the title text, image `src`, video `src` and content HTML by these selectors.
    Extract { title: String, image: String, video: String, content: String },
    /// Store this content and mark the post completed.
    Save(PostForm),
    /// Record a failed attempt.
    MarkFailed(FailureReason),
    Done,
}

/// The next action, and whether the post's site must be disabled.
#[derive(Clone, Debug)]
pub struct FetchDirective {
    pub disable_site: bool,
    pub action: FetchAction,
}

/// The fetch of one post, one step at a time.
#[derive(Clone, Debug)]
pub struct PostFetch {
    pub job: PostContentJob,
    pub removal: Vec<String>,
    pub stage: FetchStage,
}

impl PostFetch {
    /// The removal list agrees with the site.
    pub open spec fn wf(&self) -> bool {
        &&& self.job.site.path_remove is Some ==> views(self.removal@) == selector_list(
            self.job.site.path_remove->0@,
        )
        &&& self.job.site.path_remove is None ==> self.removal@.len() == 0
    }

    /// Starts the fetch of a post: open its url (empty where it has none).
    pub fn start(job: PostContentJob) -> (r: (PostFetch, FetchAction))
        ensures
            r.0.wf(),
            r.0.job == job,
            r.0.stage == FetchStage::Opening,
            r.1 matches FetchAction::Open(u) && u@ == or_empty(job.post.url),
    {
        let removal = removal_selectors(&job.site);
        let url = text_or_empty(&job.post.url);
        (PostFetch { job, removal, stage: FetchStage::Opening }, FetchAction::Open(url))
    }

    fn extract_action(&self) -> (r: FetchAction)
        ensures
            r matches FetchAction::Extract { title, image, video, content } && title@ == or_empty(
                self.job.site.path_title,
            ) && image@ == or_empty(self.job.site.path_image) && video@ == or_empty(
                self.job.site.path_video,
            ) && content@ == or_empty(self.job.site.path_content),
    {
        FetchAction::Extract {
            title: text_or_empty(&self.job.site.path_title),
            image: text_or_empty(&self.job.site.path_image),
            video: text_or_empty(&self.job.site.path_video),
            content: text_or_empty(&self.job.site.path_content),
        }
    }

    /// The next step after `event`. A page with nothing to extract fails the post and counts
    /// as an error of its site.
    pub fn step(&mut self, tracker: &mut SiteErrorTracker, event: FetchEvent) -> (r: FetchDirective)
        requires
            old(self).wf(),
            count_of(old(tracker)@, old(self).job.site.id) < u32::MAX,
        ensures
            final(self).wf(),
            final(self).job == old(self).job,
            final(self).removal@ == old(self).removal@,
            ({
                let site = old(self).job.site;
                let n = (count_of(old(tracker)@, site.id) + 1) as u32;
                match (old(self).stage, event) {
                    (FetchStage::Opening, FetchEvent::Opened) => {
                        &&& final(tracker)@ == old(tracker)@
                        &&& !r.disable_site
                        &&& old(self).removal@.len() > 0 ==> (final(self).stage == FetchStage::Removing
                            && (r.action matches FetchAction::Remove(v) && v@ == old(self).removal@))
                        &&& old(self).removal@.len() == 0 ==> (final(self).stage
                            == FetchStage::Extracting && r.action is Extract)
                    },
                    (FetchStage::Opening, FetchEvent::OpenFailed) => {
                        &&& final(self).stage == FetchStage::Finished
                        &&& final(tracker)@ == old(tracker)@
                        &&& !r.disable_site
                        &&& r.action == FetchAction::MarkFailed(FailureReason::BrowserInitFailed)
                    },
                    (FetchStage::Opening, FetchEvent::OpenTimedOut) => {
                        &&& final(self).stage == FetchStage::Finished
                        &&& final(tracker)@ == old(tracker)@
                        &&& !r.disable_site
                        &&& r.action == FetchAction::MarkFailed(FailureReason::BrowserInitTimedOut)
                    },
                    (FetchStage::Removing, FetchEvent::RemoveDone) => {
                        &&& final(self).stage == FetchStage::Extracting
                        &&& final(tracker)@ == old(tracker)@
                        &&& !r.disable_site
                        &&& r.action matches FetchAction::Extract { title, image, video, content }
                            && title@ == or_empty(site.path_title) && image@ == or_empty(
                            site.path_image,
                        ) && video@ == or_empty(site.path_video) && content@ == or_empty(
                            site.path_content,
                        )
                    },
                    (FetchStage::Extracting, FetchEvent::Extracted { title, raw_image, raw_video, body }) => {
                        let image = normalized(site.url@, raw_image@);
                        let video = normalized(site.url@, raw_video@);
                        let empty = title@.len() == 0 && image.len() == 0 && video.len() == 0
                            && body@.len() == 0;
                        &&& empty ==> {
                            &&& final(self).stage == FetchStage::Finished
                            &&& r.action == FetchAction::MarkFailed(FailureReason::NoContent)
                            &&& r.disable_site == over_threshold(n)
                            &&& r.disable_site ==> final(tracker)@ == old(tracker)@.remove(site.id)
                            &&& !r.disable_site ==> final(tracker)@ == old(tracker)@.insert(site.id, n)
                        }
                        &&& !empty ==> {
                            &&& final(self).stage == FetchStage::Saving
                            &&& final(tracker)@ == old(tracker)@
                            &&& !r.disable_site
                            &&& r.action matches FetchAction::Save(f) && f.status
                                == PostStatus::COMPLETED && f.title == Some(title) && f.body == Some(
                                body,
                            ) && f.image is Some && f.image->0@ == image && f.video is Some
                                && f.video->0@ == video
                        }
                    },
                    (FetchStage::Saving, FetchEvent::SaveFailed) => {
                        &&& final(self).stage == FetchStage::Finished
                        &&& final(tracker)@ == old(tracker)@
                        &&& !r.disable_site
                        &&& r.action == FetchAction::MarkFailed(FailureReason::DatabaseUpdateFailed)
                    },
                    _ => {
                        &&& final(self).stage == FetchStage::Finished
                        &&& final(tracker)@ == old(tracker)@
                        &&& !r.disable_site
                        &&& r.action is Done
                    },
                }
            }),
    {
        match (self.stage, event) {
            (FetchStage::Opening, FetchEvent::Opened) => {
                if self.removal.len() > 0 {
                    self.stage = FetchStage::Removing;
                    FetchDirective { disable_site: false, action: FetchAction::Remove(self.removal.clone()) }
                } else {
                    self.stage = FetchStage::Extracting;
                    FetchDirective { disable_site: false, action: self.extract_action() }
                }
            },
            (FetchStage::Opening, FetchEvent::OpenFailed) => {
                self.stage = FetchStage::Finished;
                FetchDirective {
                    disable_site: false,
                    action: FetchAction::MarkFailed(FailureReason::BrowserInitFailed),
                }
            },
            (FetchStage::Opening, FetchEvent::OpenTimedOut) => {
                self.stage = FetchStage::Finished;
                FetchDirective {
                    disable_site: false,
                    action: FetchAction::MarkFailed(FailureReason::BrowserInitTimedOut),
                }
            },
            (FetchStage::Removing, FetchEvent::RemoveDone) => {
                self.stage = FetchStage::Extracting;
                FetchDirective { disable_site: false, action: self.extract_action() }
            },
            (FetchStage::Extracting, FetchEvent::Extracted { title, raw_image, raw_video, body }) => {
                match collect_content(
                    self.job.site.url.as_str(),
                    title,
                    raw_image.as_str(),
                    raw_video.as_str(),
                    body,
                ) {
                    Some(form) => {
                        self.stage = FetchStage::Saving;
                        FetchDirective { disable_site: false, action: FetchAction::Save(form) }
                    },
                    None => {
                        let tally = tracker.record_error(self.job.site.id);
                        self.stage = FetchStage::Finished;
                        FetchDirective {
                            disable_site: tally.disable,
                            action: FetchAction::MarkFailed(FailureReason::NoContent),
                        }
                    },
                }
            },
            (FetchStage::Saving, FetchEvent::SaveFailed) => {
                self.stage = FetchStage::Finished;
                FetchDirective {
                    disable_site: false,
                    action: FetchAction::MarkFailed(FailureReason::DatabaseUpdateFailed),
                }
            },
            _ => {
                self.stage = FetchStage::Finished;
                FetchDirective { disable_site: false, action: FetchAction::Done }
            },
        }
    }
}

} // verus!
