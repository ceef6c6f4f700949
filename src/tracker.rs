//! Error counts of sites, and when a failing site is switched off.
use vstd::prelude::*;
use std::collections::HashMap;

verus! {

broadcast use vstd::std_specs::hash::group_hash_axioms;

/// Number of consecutive errors at which a site is disabled.
pub const ERROR_THRESHOLD: u32 = 5;

/// The error count recorded for `site_id`; a site without an entry has none.
pub open spec fn count_of(m: Map<i64, u32>, site_id: i64) -> u32 {
    if m.contains_key(site_id) {
        m[site_id]
    } else {
        0
    }
}

/// Whether a site whose error count is `count` must be disabled.
pub open spec fn over_threshold(count: u32) -> bool {
    count >= ERROR_THRESHOLD
}

/// Map from site id to the number of errors registered since its last reset.
pub struct SiteErrorTracker {
    counts: HashMap<i64, u32>,
}

/// The verdict after one more error of a site.
#[derive(Clone, Copy, Debug, PartialEq, Eq, Structural)]
pub struct ErrorTally {
    /// The site's error count after this error.
    pub count: u32,
    /// Whether the site must now be disabled.
    pub disable: bool,
}

impl View for SiteErrorTracker {
    type V = Map<i64, u32>;

    closed spec fn view(&self) -> Map<i64, u32> {
        self.counts@
    }
}

/// Whether a site whose error count is `count` must be disabled.
pub fn should_disable(count: u32) -> (r: bool)
    ensures
        r == over_threshold(count),
{
    count >= ERROR_THRESHOLD
}

impl SiteErrorTracker {
    /// A tracker with no errors recorded.
    pub fn new() -> (r: SiteErrorTracker)
        ensures
            r@ == Map::<i64, u32>::empty(),
    {
        SiteErrorTracker { counts: HashMap::new() }
    }

    /// The number of errors registered for `site_id` since its last reset.
    pub fn count(&self, site_id: i64) -> (r: u32)
        ensures
            r == count_of(self@, site_id),
    {
        match self.counts.get(&site_id) {
            Some(c) => *c,
            None => 0,
        }
    }

    /// Registers one error for `site_id` and returns its new count.
    pub fn register(&mut self, site_id: i64) -> (r: u32)
        requires
            count_of(old(self)@, site_id) < u32::MAX,
        ensures
            r == count_of(old(self)@, site_id) + 1,
            final(self)@ == old(self)@.insert(site_id, r),
    {
        let c = self.count(site_id) + 1;
        self.counts.insert(site_id, c);
        c
    }

    /// Forgets every error of `site_id`.
    pub fn reset(&mut self, site_id: i64)
        ensures
            final(self)@ == old(self)@.remove(site_id),
            count_of(final(self)@, site_id) == 0,
    {
        self.counts.remove(&site_id);
    }

    /// Registers one error for `site_id` and decides whether the site must be disabled.
    /// The count of a site that is to be disabled is dropped, as the site leaves the crawl.
    pub fn record_error(&mut self, site_id: i64) -> (r: ErrorTally)
        requires
            count_of(old(self)@, site_id) < u32::MAX,
        ensures
            r.count == count_of(old(self)@, site_id) + 1,
            r.disable == over_threshold(r.count),
            r.disable ==> final(self)@ == old(self)@.remove(site_id),
            !r.disable ==> final(self)@ == old(self)@.insert(site_id, r.count),
    {
        let count = self.register(site_id);
        let disable = should_disable(count);
        if disable {
            self.reset(site_id);
            assert(final(self)@ =~= old(self)@.remove(site_id));
        }
        ErrorTally { count, disable }
    }
}

/// After a reset a site's count is below the threshold, and a site is disabled only by an
/// error that raised its count to the threshold or above.
pub proof fn lemma_disable_gate(before: Map<i64, u32>, site_id: i64, tally: ErrorTally)
    requires
        tally.count == count_of(before, site_id) + 1,
        tally.disable == over_threshold(tally.count),
    ensures
        !over_threshold(count_of(before.remove(site_id), site_id)),
        tally.disable ==> count_of(before, site_id) + 1 >= ERROR_THRESHOLD,
        !tally.disable ==> count_of(before, site_id) + 1 < ERROR_THRESHOLD,
{
}

} // verus!
