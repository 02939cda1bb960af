//! The per-day pagination crawl: fetch successive pages starting at page 0,
//! classify and assemble each, accumulate the day's posts, and stop on the
//! first empty page (the archive-exhaustion signal) or on the first
//! transport failure (keeping the posts gathered so far).
//!
//! The fetching itself, and the politeness delay between fetches, belong to
//! the host program: it performs one fetch per step and hands the outcome to
//! [`DayCrawler::on_fetch`], which takes every decision. [`crawl_day`] runs
//! the same machine over an already-gathered sequence of outcomes.

use vstd::prelude::*;
use crate::assemble::{Post, parse_page, page_posts_spec, post_models};
use crate::rows::Page;

verus! {

/// What one page fetch produced: the page, or a transport failure.
#[derive(Debug, Clone)]
pub enum FetchOutcome {
    /// The page was fetched; its listing table may still be absent.
    Fetched(Page),
    /// The fetch timed out or otherwise failed in transport.
    TransportFailure,
}

/// The state of the per-day crawl machine.
#[derive(Debug, Clone, Copy, PartialEq, Eq, Structural)]
pub enum CrawlState {
    /// About to fetch the page with this number.
    Fetching(usize),
    /// The day's archive is exhausted: a page yielded zero posts.
    Done,
    /// A transport failure ended the day early; gathered posts are kept.
    Failed,
}

/// Whether this outcome ends the day's crawl: a transport failure, or a
/// fetched page with zero posts (an absent or empty listing table).
pub open spec fn outcome_stops(o: FetchOutcome) -> bool {
    match o {
        FetchOutcome::TransportFailure => true,
        FetchOutcome::Fetched(page) => page_posts_spec(page).len() == 0,
    }
}

/// The number of leading outcomes that do not end the crawl.
pub open spec fn first_stop(s: Seq<FetchOutcome>) -> int
    decreases s.len(),
{
    if s.len() == 0 {
        0
    } else if outcome_stops(s[0]) {
        0
    } else {
        1 + first_stop(s.skip(1))
    }
}

/// The posts gathered before the crawl stops: the concatenated page posts of
/// the leading non-stopping outcomes, in fetch order.
pub open spec fn gathered_spec(s: Seq<FetchOutcome>) -> Seq<crate::assemble::PostModel>
    decreases s.len(),
{
    if s.len() == 0 {
        Seq::empty()
    } else if outcome_stops(s[0]) {
        Seq::empty()
    } else {
        page_posts_spec(s[0]->Fetched_0) + gathered_spec(s.skip(1))
    }
}

/// The machine state after consuming the outcomes: still fetching when they
/// ran out, `Failed` on a transport failure, `Done` on an empty page.
pub open spec fn day_end_state(s: Seq<FetchOutcome>) -> CrawlState {
    let k = first_stop(s);
    if k == s.len() {
        CrawlState::Fetching(k as usize)
    } else if s[k] is TransportFailure {
        CrawlState::Failed
    } else {
        CrawlState::Done
    }
}

/// The per-day crawl machine: the next page to fetch and the posts gathered
/// so far, exclusively owned for one day and discarded after archiving.
#[derive(Debug)]
pub struct DayCrawler {
    /// The machine state.
    pub state: CrawlState,
    /// The day's accumulated posts, in page order, page 0 first.
    pub posts: Vec<Post>,
}

impl DayCrawler {
    /// A fresh machine, about to fetch page 0 with nothing gathered.
    pub fn new() -> (c: DayCrawler)
        ensures
            c.state == CrawlState::Fetching(0usize),
            c.posts@ == Seq::<Post>::empty(),
    {
        DayCrawler { state: CrawlState::Fetching(0), posts: Vec::new() }
    }

    /// Consume one fetch outcome: a transport failure fails the day (posts
    /// kept); a page with zero posts completes it; any other page appends
    /// its posts in source order and advances the page counter.
    pub fn on_fetch(&mut self, outcome: &FetchOutcome)
        requires
            old(self).state matches CrawlState::Fetching(n) && n < usize::MAX,
        ensures
            ({
                let after = *final(self);
                let before = *old(self);
                match *outcome {
                    FetchOutcome::TransportFailure => after.state == CrawlState::Failed
                        && after.posts@ == before.posts@,
                    FetchOutcome::Fetched(page) => if page_posts_spec(page).len() == 0 {
                        after.state == CrawlState::Done && after.posts@ == before.posts@
                    } else {
                        after.state == CrawlState::Fetching(
                            (before.state->Fetching_0 + 1) as usize,
                        ) && post_models(after.posts@) == post_models(before.posts@)
                            + page_posts_spec(page)
                    },
                }
            }),
    {
        match outcome {
            FetchOutcome::TransportFailure => {
                self.state = CrawlState::Failed;
            },
            FetchOutcome::Fetched(page) => {
                let parsed = parse_page(page);
                match parsed {
                    None => {
                        self.state = CrawlState::Done;
                    },
                    Some(mut new_posts) => {
                        if new_posts.len() == 0 {
                            self.state = CrawlState::Done;
                        } else {
                            let n = match self.state {
                                CrawlState::Fetching(n) => n,
                                _ => 0,
                            };
                            proof {
                                assert(post_models(self.posts@ + new_posts@) =~= post_models(
                                    self.posts@,
                                ) + post_models(new_posts@));
                            }
                            self.posts.append(&mut new_posts);
                            self.state = CrawlState::Fetching(n + 1);
                        }
                    },
                }
            },
        }
    }
}

/// The result of one day's crawl over a sequence of fetch outcomes.
#[derive(Debug)]
pub struct DayResult {
    /// The day's gathered posts, in page order.
    pub posts: Vec<Post>,
    /// How many fetches the machine consumed before halting.
    pub pages_fetched: usize,
    /// The machine state the day ended in.
    pub state: CrawlState,
}

/// Run one day's crawl over the given fetch outcomes, page 0 first: gather
/// the posts of the leading non-empty pages and halt on the first empty page
/// or transport failure, after exactly one more fetch than there are leading
/// non-empty pages (or after every outcome, when none stops the crawl).
pub fn crawl_day(outcomes: &Vec<FetchOutcome>) -> (r: DayResult)
    ensures
        post_models(r.posts@) == gathered_spec(outcomes@),
        r.pages_fetched == if first_stop(outcomes@) < outcomes@.len() {
            first_stop(outcomes@) + 1
        } else {
            outcomes@.len() as int
        },
        r.state == day_end_state(outcomes@),
{
    let ghost s = outcomes@;
    let mut c = DayCrawler::new();
    let mut i: usize = 0;
    proof {
        assert(post_models(c.posts@) =~= Seq::<crate::assemble::PostModel>::empty());
        assert(s.skip(0) =~= s);
        assert(post_models(c.posts@) + gathered_spec(s) =~= gathered_spec(s));
    }
    while i < outcomes.len()
        invariant
            i <= s.len(),
            s == outcomes@,
            c.state == CrawlState::Fetching(i),
            gathered_spec(s) == post_models(c.posts@) + gathered_spec(s.skip(i as int)),
            first_stop(s) == i + first_stop(s.skip(i as int)),
        decreases s.len() - i,
    {
        proof {
            assert(s.skip(i as int)[0] == s[i as int]);
            assert(s.skip(i as int).skip(1) =~= s.skip(i as int + 1));
        }
        c.on_fetch(&outcomes[i]);
        match c.state {
            CrawlState::Fetching(_) => {
                i = i + 1;
            },
            _ => {
                proof {
                    assert(outcome_stops(s[i as int]));
                    assert(first_stop(s.skip(i as int)) == 0);
                    assert(gathered_spec(s.skip(i as int)) =~= Seq::<
                        crate::assemble::PostModel,
                    >::empty());
                    assert(post_models(c.posts@) + Seq::<crate::assemble::PostModel>::empty()
                        =~= post_models(c.posts@));
                }
                return DayResult { posts: c.posts, pages_fetched: i + 1, state: c.state };
            },
        }
    }
    proof {
        assert(s.skip(s.len() as int) =~= Seq::<FetchOutcome>::empty());
        assert(post_models(c.posts@) + Seq::<crate::assemble::PostModel>::empty() =~= post_models(
            c.posts@,
        ));
    }
    DayResult { posts: c.posts, pages_fetched: i, state: c.state }
}

/// Law: the per-day crawl halts within finitely many fetches — the leading
/// non-stopping outcomes are consumed one each, and the first stopping
/// outcome, when there is one, ends the crawl on the very fetch after them.
pub proof fn lemma_crawl_halts(s: Seq<FetchOutcome>)
    ensures
        0 <= first_stop(s) <= s.len(),
        forall|j: int| 0 <= j < first_stop(s) ==> !outcome_stops(#[trigger] s[j]),
        first_stop(s) < s.len() ==> outcome_stops(s[first_stop(s)]),
    decreases s.len(),
{
    if s.len() == 0 {
    } else if outcome_stops(s[0]) {
    } else {
        lemma_crawl_halts(s.skip(1));
        assert forall|j: int| 0 <= j < first_stop(s) implies !outcome_stops(#[trigger] s[j]) by {
            if j > 0 {
                assert(s.skip(1)[j - 1] == s[j]);
            }
        }
        if first_stop(s) < s.len() {
            assert(s.skip(1)[first_stop(s) - 1] == s[first_stop(s)]);
        }
    }
}

} // verus!
