//! The periodic jobs and their intervals.
use vstd::prelude::*;

verus! {

/// Seconds between two retention sweeps.
pub const CLEANUP_INTERVAL_SECS: u64 = 86400;

/// A named set of tasks that all start at every tick of one interval.
#[derive(Debug)]
pub struct CronDefinition<T> {
    pub name: &'static str,
    pub interval_secs: u64,
    pub tasks: Vec<T>,
}

/// The definitions one scheduler runs.
#[derive(Debug)]
pub struct CronManager<T> {
    pub definitions: Vec<CronDefinition<T>>,
}

impl<T> CronManager<T> {
    /// A scheduler for `definitions`.
    pub fn new(definitions: Vec<CronDefinition<T>>) -> (r: CronManager<T>)
        ensures
            r.definitions == definitions,
    {
        CronManager { definitions }
    }
}

/// The crawl schedule: fetching and discovery, side by side, every few minutes.
pub struct SiteCron;

impl SiteCron {
    /// One definition, `fetch_new_posts`, that starts `fetch_posts` and `discover_posts`
    /// every `post_check_interval_minutes` minutes.
    pub fn run<T>(post_check_interval_minutes: u32, fetch_posts: T, discover_posts: T) -> (r:
        CronManager<T>)
        ensures
            r.definitions.len() == 1,
            r.definitions[0].name == "fetch_new_posts",
            r.definitions[0].interval_secs == post_check_interval_minutes * 60,
            r.definitions[0].tasks@ == seq![fetch_posts, discover_posts],
    {
        let secs = post_check_interval_minutes as u64 * 60;
        let job = CronDefinition {
            name: "fetch_new_posts",
            interval_secs: secs,
            tasks: vec![fetch_posts, discover_posts],
        };
        CronManager::new(vec![job])
    }
}

/// The retention schedule: one sweep a day.
pub struct PostCleanupCron;

impl PostCleanupCron {
    /// One definition, `cleanup_old_posts`, that starts `cleanup` once a day.
    pub fn run<T>(cleanup: T) -> (r: CronManager<T>)
        ensures
            r.definitions.len() == 1,
            r.definitions[0].name == "cleanup_old_posts",
            r.definitions[0].interval_secs == CLEANUP_INTERVAL_SECS,
            r.definitions[0].tasks@ == seq![cleanup],
    {
        let job = CronDefinition {
            name: "cleanup_old_posts",
            interval_secs: CLEANUP_INTERVAL_SECS,
            tasks: vec![cleanup],
        };
        CronManager::new(vec![job])
    }
}

} // verus!
