//! Decisions of the discovery job: which selector finds post links, which nodes are removed
//! first, which rows are inserted, and which insert failures are duplicates.
use vstd::prelude::*;
use crate::link::{normalize_link, normalized};
use crate::posts::PostFormCreate;
use crate::sites::Site;
use crate::text::{chars_of, string_of, trim, trim_chars};
use crate::tracker::{count_of, over_threshold, SiteErrorTracker};

verus! {

/// Text by which the store reports a second post with the same site and url.
pub const UNIQUE_MARKER: &'static str = "UNIQUE constraint failed";

/// The views of a sequence of strings.
pub open spec fn views(v: Seq<String>) -> Seq<Seq<char>> {
    v.map_values(|x: String| x@)
}

/// The comma-separated fields of `s`, empty ones included.
pub open spec fn fields(s: Seq<char>) -> Seq<Seq<char>>
    decreases s.len(),
{
    if s.len() == 0 {
        seq![Seq::empty()]
    } else if s.last() == ',' {
        fields(s.drop_last()).push(Seq::empty())
    } else {
        let f = fields(s.drop_last());
        f.update(f.len() - 1, f.last().push(s.last()))
    }
}

/// The trimmed fields, empty ones dropped.
pub open spec fn nonempty_trimmed(fs: Seq<Seq<char>>) -> Seq<Seq<char>>
    decreases fs.len(),
{
    if fs.len() == 0 {
        Seq::empty()
    } else {
        let r = nonempty_trimmed(fs.drop_last());
        if trim(fs.last()).len() > 0 {
            r.push(trim(fs.last()))
        } else {
            r
        }
    }
}

/// The selectors a comma-separated list names.
pub open spec fn selector_list(s: Seq<char>) -> Seq<Seq<char>> {
    nonempty_trimmed(fields(s))
}

/// Whether `p` occurs in `s` at offset `i`.
pub open spec fn occurs_at(s: Seq<char>, p: Seq<char>, i: int) -> bool {
    0 <= i && i + p.len() <= s.len() && s.subrange(i, i + p.len()) == p
}

/// Whether `p` occurs in `s`.
pub open spec fn occurs_in(s: Seq<char>, p: Seq<char>) -> bool {
    exists|i: int| occurs_at(s, p, i)
}

/// The (site, url) keys of the posts that the links `raws` of a page name.
pub open spec fn discovered_keys(site_id: i64, base: Seq<char>, raws: Seq<Seq<char>>) -> Set<
    (i64, Seq<char>),
> {
    Set::new(
        |k: (i64, Seq<char>)| exists|i: int| 0 <= i < raws.len() && k == (site_id, normalized(base, raws[i])),
    )
}

/// The keys among `keys` that a store holding `existing` accepts, (site, url) being unique.
pub open spec fn fresh_keys(existing: Set<(i64, Seq<char>)>, keys: Set<(i64, Seq<char>)>) -> Set<
    (i64, Seq<char>),
> {
    keys.difference(existing)
}

/// The (site, url) keys of the posts a batch inserts.
pub open spec fn insert_keys(posts: Seq<PostFormCreate>) -> Set<(i64, Seq<char>)> {
    Set::new(
        |k: (i64, Seq<char>)|
            exists|i: int|
                0 <= i < posts.len() && posts[i].url is Some && k == (
                    posts[i].site_id,
                    posts[i].url->0@,
                ),
    )
}

/// Whether `posts` are the rows to insert for the links `raws` found on the list page of
/// `site`: one per link, in order, each link normalized against the site's origin and owned
/// as the site is.
pub open spec fn rows_for(site: Site, raws: Seq<String>, posts: Seq<PostFormCreate>) -> bool {
    &&& posts.len() == raws.len()
    &&& forall|i: int|
        0 <= i < posts.len() ==> {
            &&& (#[trigger] posts[i]).url is Some
            &&& posts[i].url->0@ == normalized(site.url@, raws[i]@)
            &&& posts[i].site_id == site.id
            &&& posts[i].user_id == site.user_id
            &&& posts[i].api_key_id == site.api_key_id
        }
}

/// The selector whose matches carry post links, if the site has a non-empty one.
pub fn link_selector(site: &Site) -> (r: Option<String>)
    ensures
        match site.path_link {
            Some(p) => if p@.len() > 0 {
                r == Some(p)
            } else {
                r is None
            },
            None => r is None,
        },
{
    match &site.path_link {
        Some(p) => if p.as_str().is_empty() {
            None
        } else {
            Some(p.clone())
        },
        None => None,
    }
}

/// The selectors of a comma-separated list, trimmed, with empty entries dropped.
pub fn split_selectors(list: &str) -> (r: Vec<String>)
    ensures
        views(r@) == selector_list(list@),
{
    let s = chars_of(list);
    let mut out: Vec<String> = Vec::new();
    let mut cur: Vec<char> = Vec::new();
    let ghost mut done: Seq<Seq<char>> = Seq::empty();
    let mut i: usize = 0;
    while i < s.len()
        invariant
            i <= s.len(),
            s@ == list@,
            fields(s@.subrange(0, i as int)) == done.push(cur@),
            views(out@) == nonempty_trimmed(done),
        decreases s.len() - i,
    {
        let ghost prev = s@.subrange(0, i as int);
        assert(s@.subrange(0, i + 1).drop_last() =~= prev);
        if s[i] == ',' {
            let t = trim_chars(&cur);
            if t.len() > 0 {
                let ghost before = out@;
                out.push(string_of(&t));
                assert(views(out@) =~= views(before).push(t@));
            }
            proof {
                assert(nonempty_trimmed(done.push(cur@)).len() >= 0);
                assert(done.push(cur@).drop_last() =~= done);
                done = done.push(cur@);
            }
            cur = Vec::new();
            assert(fields(s@.subrange(0, i + 1)) =~= done.push(cur@));
        } else {
            let ghost f = done.push(cur@);
            cur.push(s[i]);
            assert(f.update(f.len() - 1, f.last().push(s[i as int])) =~= done.push(cur@));
        }
        i = i + 1;
    }
    let t = trim_chars(&cur);
    if t.len() > 0 {
        let ghost before = out@;
        out.push(string_of(&t));
        assert(views(out@) =~= views(before).push(t@));
    }
    assert(done.push(cur@).drop_last() =~= done);
    assert(s@.subrange(0, s.len() as int) =~= s@);
    out
}

/// The selectors of nodes to remove from the site's pages before extraction.
pub fn removal_selectors(site: &Site) -> (r: Vec<String>)
    ensures
        match site.path_remove {
            Some(p) => views(r@) == selector_list(p@),
            None => r@.len() == 0,
        },
{
    match &site.path_remove {
        Some(p) => split_selectors(p.as_str()),
        None => Vec::new(),
    }
}

/// The posts to insert for the links `raw_links` found on the site's list page: each link
/// normalized against the site's origin, owned as the site is.
pub fn new_posts(site: &Site, raw_links: &Vec<String>) -> (r: Vec<PostFormCreate>)
    ensures
        rows_for(*site, raw_links@, r@),
{
    let mut r: Vec<PostFormCreate> = Vec::new();
    let mut i: usize = 0;
    while i < raw_links.len()
        invariant
            i <= raw_links.len(),
            r.len() == i,
            forall|k: int|
                0 <= k < i ==> {
                    &&& (#[trigger] r[k]).url is Some
                    &&& r[k].url->0@ == normalized(site.url@, raw_links[k]@)
                    &&& r[k].site_id == site.id
                    &&& r[k].user_id == site.user_id
                    &&& r[k].api_key_id == site.api_key_id
                },
        decreases raw_links.len() - i,
    {
        let url = normalize_link(site.url.as_str(), raw_links[i].as_str());
        r.push(
            PostFormCreate {
                url: Some(url),
                site_id: site.id,
                user_id: site.user_id,
                api_key_id: site.api_key_id,
            },
        );
        i = i + 1;
    }
    r
}

/// Whether an insert failure reports a duplicate (site, url), which discovery ignores.
pub fn is_unique_violation(message: &str) -> (r: bool)
    ensures
        r == occurs_in(message@, UNIQUE_MARKER@),
{
    let s = chars_of(message);
    let p = chars_of(UNIQUE_MARKER);
    if p.len() > s.len() {
        assert forall|k: int| !occurs_at(message@, UNIQUE_MARKER@, k) by {}
        return false;
    }
    let mut i: usize = 0;
    while i <= s.len() - p.len()
        invariant
            s@ == message@,
            p@ == UNIQUE_MARKER@,
            p.len() <= s.len(),
            i <= s.len() - p.len() + 1,
            forall|k: int| 0 <= k < i ==> !occurs_at(message@, UNIQUE_MARKER@, k),
        decreases s.len() - i,
    {
        let mut j: usize = 0;
        while j < p.len() && s[i + j] == p[j]
            invariant
                s@ == message@,
                p@ == UNIQUE_MARKER@,
                i + p.len() <= s.len(),
                j <= p.len(),
                forall|l: int| 0 <= l < j ==> s@[i + l] == p@[l],
            decreases p.len() - j,
        {
            j = j + 1;
        }
        if j == p.len() {
            assert(s@.subrange(i as int, i + p.len()) =~= p@);
            assert(occurs_at(message@, UNIQUE_MARKER@, i as int));
            return true;
        }
        assert(s@.subrange(i as int, i + p.len())[j as int] != p@[j as int]);
        i = i + 1;
    }
    assert forall|k: int| !occurs_at(message@, UNIQUE_MARKER@, k) by {
        if 0 <= k && k + p.len() <= s.len() {
            assert(k < i);
        }
    }
    false
}

/// The keys of the rows inserted for a page are the keys of its normalized links.
pub proof fn lemma_insert_keys_of_rows(site: Site, raws: Seq<String>, posts: Seq<PostFormCreate>)
    requires
        rows_for(site, raws, posts),
    ensures
        insert_keys(posts) == discovered_keys(site.id, site.url@, views(raws)),
{
    let a = insert_keys(posts);
    let b = discovered_keys(site.id, site.url@, views(raws));
    assert forall|k: (i64, Seq<char>)| a.contains(k) implies b.contains(k) by {
        let i = choose|i: int|
            0 <= i < posts.len() && posts[i].url is Some && k == (
                posts[i].site_id,
                posts[i].url->0@,
            );
        assert(views(raws)[i] == raws[i]@);
    }
    assert forall|k: (i64, Seq<char>)| b.contains(k) implies a.contains(k) by {
        let i = choose|i: int|
            0 <= i < views(raws).len() && k == (site.id, normalized(site.url@, views(raws)[i]));
        assert(views(raws)[i] == raws[i]@);
        assert(posts[i].url is Some);
    }
    assert(a =~= b);
}

/// A store with (site, url) unique accepts only rows whose key it does not hold: what a
/// batch adds never duplicates a stored post, and afterwards the store holds each key of the
/// batch exactly once.
pub proof fn lemma_insert_keeps_keys_unique(
    existing: Set<(i64, Seq<char>)>,
    posts: Seq<PostFormCreate>,
)
    ensures
        fresh_keys(existing, insert_keys(posts)).disjoint(existing),
        existing.union(fresh_keys(existing, insert_keys(posts))) == existing.union(
            insert_keys(posts),
        ),
{
    let keys = insert_keys(posts);
    assert(existing.union(fresh_keys(existing, keys)) =~= existing.union(keys));
}

/// Running discovery again on an unchanged page inserts nothing: once the rows for its links
/// are stored, the same rows bring no fresh key.
pub proof fn lemma_discovery_idempotent(
    existing: Set<(i64, Seq<char>)>,
    site: Site,
    raws: Seq<String>,
    first: Seq<PostFormCreate>,
    again: Seq<PostFormCreate>,
)
    requires
        rows_for(site, raws, first),
        rows_for(site, raws, again),
    ensures
        fresh_keys(existing.union(insert_keys(first)), insert_keys(again)) == Set::<
            (i64, Seq<char>),
        >::empty(),
{
    lemma_insert_keys_of_rows(site, raws, first);
    lemma_insert_keys_of_rows(site, raws, again);
    let keys = insert_keys(again);
    assert(fresh_keys(existing.union(insert_keys(first)), keys) =~= Set::<
        (i64, Seq<char>),
    >::empty());
}

/// Where the discovery of one site stands.
#[derive(Clone, Copy, Debug, PartialEq, Eq, Structural)]
pub enum DiscoveryStage {
    Opening,
    Waiting,
    Removing,
    Querying,
    Finished,
}

/// What the browser reported for the last action.
#[derive(Clone, Debug)]
pub enum DiscoveryEvent {
    /// The list page loaded.
    Opened,
    /// The browser did not start or the page did not load in time.
    OpenFailed,
    /// The link selector matched.
    Found,
    /// The link selector did not match in time.
    NotFound,
    Removed,
    RemoveFailed,
    RemoveTimedOut,
    /// The `href` values of the link selector's matches.
    Links(Vec<String>),
    LinksFailed,
    LinksTimedOut,
}

/// What to do next for the site.
#[derive(Clone, Debug)]
pub enum DiscoveryAction {
    /// Open a browser on this list page.
    Open(String),
    /// Wait for this selector to match.
    WaitFor(String),
    /// Remove the nodes these selectors match.
    Remove(Vec<String>),
    /// Read the `href` of every match of this selector.
    QueryLinks(String),
    /// Insert these posts, ignoring duplicates.
    Insert(Vec<PostFormCreate>),
    /// Nothing more to do for this site.
    Done,
}

/// The next action, and whether the site must be disabled first.
#[derive(Clone, Debug)]
pub struct Directive {
    pub disable: bool,
    pub action: DiscoveryAction,
}

/// The discovery of one site, one browser step at a time.
#[derive(Clone, Debug)]
pub struct SiteDiscovery {
    pub site: Site,
    pub selector: String,
    pub removal: Vec<String>,
    pub stage: DiscoveryStage,
}

impl SiteDiscovery {
    /// Selector and removal list agree with the site.
    pub open spec fn wf(&self) -> bool {
        &&& self.site.path_link == Some(self.selector)
        &&& self.selector@.len() > 0
        &&& self.site.path_remove is Some ==> views(self.removal@) == selector_list(
            self.site.path_remove->0@,
        )
        &&& self.site.path_remove is None ==> self.removal@.len() == 0
    }

    /// Starts the discovery of `site`: nothing to do without a link selector, else open
    /// its list page.
    pub fn start(site: Site) -> (r: Option<(SiteDiscovery, DiscoveryAction)>)
        ensures
            match site.path_link {
                Some(p) => p@.len() > 0 <==> r is Some,
                None => r is None,
            },
            r is Some ==> ({
                let (d, a) = r->0;
                &&& d.wf()
                &&& d.site == site
                &&& d.stage == DiscoveryStage::Opening
                &&& a matches DiscoveryAction::Open(u) && u@ == site.url_list@
            }),
    {
        match link_selector(&site) {
            None => None,
            Some(selector) => {
                let removal = removal_selectors(&site);
                let url = site.url_list.clone();
                Some(
                    (
                        SiteDiscovery { site, selector, removal, stage: DiscoveryStage::Opening },
                        DiscoveryAction::Open(url),
                    ),
                )
            },
        }
    }

    /// One more error of the site: finish, disabling the site once it crossed the threshold.
    fn fail(&mut self, tracker: &mut SiteErrorTracker) -> (r: Directive)
        requires
            count_of(old(tracker)@, old(self).site.id) < u32::MAX,
        ensures
            r.disable == over_threshold((count_of(old(tracker)@, old(self).site.id) + 1) as u32),
            r.disable ==> final(tracker)@ == old(tracker)@.remove(old(self).site.id),
            !r.disable ==> final(tracker)@ == old(tracker)@.insert(
                old(self).site.id,
                (count_of(old(tracker)@, old(self).site.id) + 1) as u32,
            ),
            r.action is Done,
            *final(self) == (SiteDiscovery { stage: DiscoveryStage::Finished, ..*old(self) }),
    {
        let tally = tracker.record_error(self.site.id);
        self.stage = DiscoveryStage::Finished;
        Directive { disable: tally.disable, action: DiscoveryAction::Done }
    }

    /// The next step after `event`. Failures of opening, waiting, and timeouts of removing
    /// or reading links count as errors of the site; a found link selector clears its count.
    pub fn step(&mut self, tracker: &mut SiteErrorTracker, event: DiscoveryEvent) -> (r: Directive)
        requires
            old(self).wf(),
            count_of(old(tracker)@, old(self).site.id) < u32::MAX,
        ensures
            final(self).wf(),
            final(self).site == old(self).site,
            final(self).selector == old(self).selector,
            final(self).removal@ == old(self).removal@,
            ({
                let id = old(self).site.id;
                let n = (count_of(old(tracker)@, id) + 1) as u32;
                let errs = over_threshold(n);
                let counted = if errs {
                    old(tracker)@.remove(id)
                } else {
                    old(tracker)@.insert(id, n)
                };
                match (old(self).stage, event) {
                    (DiscoveryStage::Opening, DiscoveryEvent::Opened) => {
                        &&& final(self).stage == DiscoveryStage::Waiting
                        &&& final(tracker)@ == old(tracker)@
                        &&& !r.disable
                        &&& r.action matches DiscoveryAction::WaitFor(s) && s == old(self).selector
                    },
                    (DiscoveryStage::Opening, DiscoveryEvent::OpenFailed)
                    | (DiscoveryStage::Waiting, DiscoveryEvent::NotFound)
                    | (DiscoveryStage::Querying, DiscoveryEvent::LinksTimedOut) => {
                        &&& final(self).stage == DiscoveryStage::Finished
                        &&& final(tracker)@ == counted
                        &&& r.disable == errs
                        &&& r.action is Done
                    },
                    (DiscoveryStage::Waiting, DiscoveryEvent::Found) => {
                        &&& final(tracker)@ == old(tracker)@.remove(id)
                        &&& !r.disable
                        &&& old(self).removal@.len() > 0 ==> (final(self).stage
                            == DiscoveryStage::Removing && (r.action matches DiscoveryAction::Remove(
                            v,
                        ) && v@ == old(self).removal@))
                        &&& old(self).removal@.len() == 0 ==> (final(self).stage
                            == DiscoveryStage::Querying && (r.action matches DiscoveryAction::QueryLinks(
                            s,
                        ) && s == old(self).selector))
                    },
                    (DiscoveryStage::Removing, DiscoveryEvent::Removed)
                    | (DiscoveryStage::Removing, DiscoveryEvent::RemoveFailed) => {
                        &&& final(self).stage == DiscoveryStage::Querying
                        &&& final(tracker)@ == old(tracker)@
                        &&& !r.disable
                        &&& r.action matches DiscoveryAction::QueryLinks(s) && s == old(self).selector
                    },
                    (DiscoveryStage::Removing, DiscoveryEvent::RemoveTimedOut) => {
                        &&& final(self).stage == DiscoveryStage::Querying
                        &&& final(tracker)@ == counted
                        &&& r.disable == errs
                        &&& r.action matches DiscoveryAction::QueryLinks(s) && s == old(self).selector
                    },
                    (DiscoveryStage::Querying, DiscoveryEvent::Links(raws)) => {
                        &&& final(self).stage == DiscoveryStage::Finished
                        &&& final(tracker)@ == old(tracker)@
                        &&& !r.disable
                        &&& r.action matches DiscoveryAction::Insert(posts) && rows_for(
                            old(self).site,
                            raws@,
                            posts@,
                        )
                    },
                    _ => {
                        &&& final(self).stage == DiscoveryStage::Finished
                        &&& final(tracker)@ == old(tracker)@
                        &&& !r.disable
                        &&& r.action is Done
                    },
                }
            }),
    {
        match (self.stage, event) {
            (DiscoveryStage::Opening, DiscoveryEvent::Opened) => {
                self.stage = DiscoveryStage::Waiting;
                Directive { disable: false, action: DiscoveryAction::WaitFor(self.selector.clone()) }
            },
            (DiscoveryStage::Opening, DiscoveryEvent::OpenFailed)
            | (DiscoveryStage::Waiting, DiscoveryEvent::NotFound)
            | (DiscoveryStage::Querying, DiscoveryEvent::LinksTimedOut) => self.fail(tracker),
            (DiscoveryStage::Waiting, DiscoveryEvent::Found) => {
                tracker.reset(self.site.id);
                if self.removal.len() > 0 {
                    self.stage = DiscoveryStage::Removing;
                    Directive { disable: false, action: DiscoveryAction::Remove(self.removal.clone()) }
                } else {
                    self.stage = DiscoveryStage::Querying;
                    Directive {
                        disable: false,
                        action: DiscoveryAction::QueryLinks(self.selector.clone()),
                    }
                }
            },
            (DiscoveryStage::Removing, DiscoveryEvent::Removed)
            | (DiscoveryStage::Removing, DiscoveryEvent::RemoveFailed) => {
                self.stage = DiscoveryStage::Querying;
                Directive { disable: false, action: DiscoveryAction::QueryLinks(self.selector.clone()) }
            },
            (DiscoveryStage::Removing, DiscoveryEvent::RemoveTimedOut) => {
                let tally = tracker.record_error(self.site.id);
                self.stage = DiscoveryStage::Querying;
                Directive {
                    disable: tally.disable,
                    action: DiscoveryAction::QueryLinks(self.selector.clone()),
                }
            },
            (DiscoveryStage::Querying, DiscoveryEvent::Links(raws)) => {
                self.stage = DiscoveryStage::Finished;
                Directive { disable: false, action: DiscoveryAction::Insert(new_posts(&self.site, &raws)) }
            },
            _ => {
                self.stage = DiscoveryStage::Finished;
                Directive { disable: false, action: DiscoveryAction::Done }
            },
        }
    }
}

} // verus!
