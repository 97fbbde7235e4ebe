//! Deadline-bounded polling search for the first element matching a
//! predicate, with a single-slot cache of the result.
//!
//! The finder is the visitor of each walk pass. Between passes it decides
//! whether the search is over or the driver must sleep and walk again; the
//! driver supplies the clock (milliseconds on a monotonic clock) and does
//! the sleeping.
use vstd::prelude::*;

use crate::element::AXUIElement;
use crate::error::Error;
use crate::walker::{TreeVisitor, TreeWalkerFlow};

verus! {

/// Nodes deeper than this are not descended into during a search.
pub const MAX_DEPTH: usize = 100;

/// Longest single sleep between two passes, in milliseconds.
pub const POLL_INTERVAL_MS: u64 = 250;

/// What the driver of a search must do next.
#[derive(Debug, Clone, Copy, PartialEq, Eq, Structural)]
pub enum FindStep {
    /// Walk the tree below this root with the finder as visitor, then call
    /// `pass_done` with the time.
    Walk(AXUIElement),
    /// Sleep this many milliseconds, then walk the tree again.
    Sleep(u64),
    /// The search found this element.
    Found(AXUIElement),
    /// The search is over without a match.
    Failed(Error),
}

/// Abstract state of a finder.
pub struct FinderModel {
    pub root: AXUIElement,
    /// Wait budget in milliseconds.
    pub implicit_wait: Option<u64>,
    /// Nodes entered and not yet left in the current pass.
    pub depth: usize,
    pub cached: Option<AXUIElement>,
    /// Time after which a search that found nothing fails.
    pub deadline: u64,
}

/// The wait budget in milliseconds; none means a single pass.
pub open spec fn wait_ms(implicit_wait: Option<u64>) -> int {
    match implicit_wait {
        Some(w) => w as int,
        None => 0,
    }
}

/// The flow a search answers on entering a node at `depth` (the root has
/// depth 1), given whether the predicate matched it.
pub open spec fn search_flow(matched: bool, depth: int) -> TreeWalkerFlow {
    if matched {
        TreeWalkerFlow::Exit
    } else if depth > MAX_DEPTH {
        TreeWalkerFlow::SkipSubtree
    } else {
        TreeWalkerFlow::Continue
    }
}

/// The finder after a search begun at `now`: a cached match leaves it as it
/// is, otherwise the deadline is set to `now` plus the wait budget.
pub open spec fn find_begin(m: FinderModel, now: u64) -> FinderModel {
    match m.cached {
        Some(_) => m,
        None => FinderModel { deadline: (now + wait_ms(m.implicit_wait)) as u64, ..m },
    }
}

/// The first step of a search.
pub open spec fn start_step(m: FinderModel) -> FindStep {
    match m.cached {
        Some(e) => FindStep::Found(e),
        None => FindStep::Walk(m.root),
    }
}

/// How long to sleep at `now` before polling again for a result due by
/// `deadline`: none once the deadline has passed, otherwise the time left,
/// capped at one poll interval.
pub open spec fn poll_delay_spec(deadline: u64, now: u64) -> Option<u64> {
    if now >= deadline {
        None
    } else if deadline - now < POLL_INTERVAL_MS {
        Some((deadline - now) as u64)
    } else {
        Some(POLL_INTERVAL_MS)
    }
}

/// The step after a walk pass that ended at `now`.
pub open spec fn pass_step(m: FinderModel, now: u64) -> FindStep {
    match m.cached {
        Some(e) => FindStep::Found(e),
        None => match poll_delay_spec(m.deadline, now) {
            None => FindStep::Failed(Error::NotFound),
            Some(ms) => FindStep::Sleep(ms),
        },
    }
}

/// The sleep before the next poll for a result due by `deadline`, or none
/// when the deadline has passed at `now`.
pub fn poll_delay(deadline: u64, now: u64) -> (r: Option<u64>)
    ensures
        r == poll_delay_spec(deadline, now),
{
    if now >= deadline {
        None
    } else if deadline - now < POLL_INTERVAL_MS {
        Some(deadline - now)
    } else {
        Some(POLL_INTERVAL_MS)
    }
}

/// The finder after `reset`.
pub open spec fn reset_model(m: FinderModel) -> FinderModel {
    FinderModel { cached: None, ..m }
}

/// Polls the tree below a root for the first element that satisfies a
/// predicate.
pub struct ElementFinder<F: Fn(&AXUIElement) -> bool> {
    root: AXUIElement,
    predicate: F,
    implicit_wait: Option<u64>,
    depth: usize,
    cached: Option<AXUIElement>,
    deadline: u64,
}

impl<F: Fn(&AXUIElement) -> bool> View for ElementFinder<F> {
    type V = FinderModel;

    closed spec fn view(&self) -> FinderModel {
        FinderModel {
            root: self.root,
            implicit_wait: self.implicit_wait,
            depth: self.depth,
            cached: self.cached,
            deadline: self.deadline,
        }
    }
}

impl<F: Fn(&AXUIElement) -> bool> ElementFinder<F> {
    /// The predicate can be called on every element.
    #[verifier::type_invariant]
    spec fn inv(&self) -> bool {
        forall|e: &AXUIElement| #[trigger] self.predicate.requires((e,))
    }

    pub closed spec fn predicate_spec(&self) -> F {
        self.predicate
    }

    /// A finder for the first element below `root` (inclusive) that
    /// satisfies `predicate`, polling for up to `implicit_wait`
    /// milliseconds.
    pub fn new(root: &AXUIElement, predicate: F, implicit_wait: Option<u64>) -> (r: Self)
        requires
            forall|e: &AXUIElement| #[trigger] predicate.requires((e,)),
        ensures
            r@.root == *root,
            r.predicate_spec() == predicate,
            r@.implicit_wait == implicit_wait,
            r@.depth == 0,
            r@.cached is None,
    {
        ElementFinder { root: *root, predicate, implicit_wait, depth: 0, cached: None, deadline: 0 }
    }

    /// The root below which the finder searches.
    pub fn root(&self) -> (r: AXUIElement)
        ensures
            r == self@.root,
    {
        self.root
    }

    /// The cached match, if any.
    pub fn cached(&self) -> (r: Option<AXUIElement>)
        ensures
            r == self@.cached,
    {
        self.cached
    }

    /// Clears the cached match, so that the next search walks the tree again.
    pub fn reset(&mut self)
        ensures
            final(self)@ == reset_model(old(self)@),
            final(self).predicate_spec() == old(self).predicate_spec(),
    {
        proof {
            use_type_invariant(&*self);
        }
        self.cached = None;
    }

    /// Begins a search at time `now`: a cached match is returned at once;
    /// otherwise the deadline is set and a walk pass is due.
    pub fn find_start(&mut self, now: u64) -> (r: FindStep)
        requires
            old(self)@.cached is None ==> now + wait_ms(old(self)@.implicit_wait) <= u64::MAX,
        ensures
            final(self)@ == find_begin(old(self)@, now),
            final(self).predicate_spec() == old(self).predicate_spec(),
            r == start_step(final(self)@),
    {
        proof {
            use_type_invariant(&*self);
        }
        match self.cached {
            Some(e) => FindStep::Found(e),
            None => {
                let wait: u64 = match self.implicit_wait {
                    Some(w) => w,
                    None => 0,
                };
                self.deadline = now + wait;
                FindStep::Walk(self.root)
            },
        }
    }

    /// Decides, after a walk pass that ended at time `now`, whether the
    /// search found its element, failed, or must sleep and walk again.
    pub fn pass_done(&self, now: u64) -> (r: FindStep)
        ensures
            r == pass_step(self@, now),
    {
        match self.cached {
            Some(e) => FindStep::Found(e),
            None => match poll_delay(self.deadline, now) {
                None => FindStep::Failed(Error::NotFound),
                Some(ms) => FindStep::Sleep(ms),
            },
        }
    }
}

impl<F: Fn(&AXUIElement) -> bool> TreeVisitor for ElementFinder<F> {
    /// Tests the predicate: a match is cached and stops the walk; otherwise
    /// the walk descends unless the node lies deeper than `MAX_DEPTH`.
    fn enter_element(&mut self, element: &AXUIElement) -> (r: TreeWalkerFlow)
        ensures
            final(self)@.depth == if old(self)@.depth < usize::MAX {
                old(self)@.depth + 1
            } else {
                old(self)@.depth as int
            },
            old(self).predicate_spec().ensures((element,), r == TreeWalkerFlow::Exit),
            r == search_flow(r == TreeWalkerFlow::Exit, final(self)@.depth as int),
            final(self)@.cached == if r == TreeWalkerFlow::Exit {
                Some(*element)
            } else {
                old(self)@.cached
            },
            final(self)@.root == old(self)@.root,
            final(self)@.implicit_wait == old(self)@.implicit_wait,
            final(self)@.deadline == old(self)@.deadline,
            final(self).predicate_spec() == old(self).predicate_spec(),
    {
        proof {
            use_type_invariant(&*self);
        }
        if self.depth < usize::MAX {
            self.depth = self.depth + 1;
        }
        let matched = (self.predicate)(element);
        if matched {
            self.cached = Some(*element);
            TreeWalkerFlow::Exit
        } else if self.depth > MAX_DEPTH {
            TreeWalkerFlow::SkipSubtree
        } else {
            TreeWalkerFlow::Continue
        }
    }

    fn exit_element(&mut self, element: &AXUIElement)
        ensures
            final(self)@.depth == if old(self)@.depth > 0 {
                old(self)@.depth - 1
            } else {
                0int
            },
            final(self)@.cached == old(self)@.cached,
            final(self)@.root == old(self)@.root,
            final(self)@.implicit_wait == old(self)@.implicit_wait,
            final(self)@.deadline == old(self)@.deadline,
            final(self).predicate_spec() == old(self).predicate_spec(),
    {
        proof {
            use_type_invariant(&*self);
        }
        if self.depth > 0 {
            self.depth = self.depth - 1;
        }
    }
}

/// Cache idempotence: once a match is cached, a search returns it at once,
/// does not walk and leaves the finder unchanged, however often it is
/// repeated; after `reset` the next search walks the tree again.
pub proof fn lemma_cache_idempotent(m: FinderModel, now1: u64, now2: u64)
    requires
        m.cached is Some,
    ensures
        find_begin(m, now1) == m,
        start_step(find_begin(m, now1)) == FindStep::Found(m.cached->Some_0),
        start_step(find_begin(find_begin(m, now1), now2)) == FindStep::Found(m.cached->Some_0),
        start_step(reset_model(m)) == FindStep::Walk(m.root),
{
}

/// Deadline honoring: a search begun at `start` with wait budget `W` that has
/// found nothing fails exactly when a pass ends at or after `start + W`;
/// before that it sleeps at most `POLL_INTERVAL_MS`, never past the
/// deadline, and exactly up to it when less than one interval is left.
pub proof fn lemma_deadline_honored(m: FinderModel, start: u64, later: FinderModel, now: u64)
    requires
        m.cached is None,
        start + wait_ms(m.implicit_wait) <= u64::MAX,
        later.cached is None,
        later.deadline == find_begin(m, start).deadline,
    ensures
        pass_step(later, now) == FindStep::Failed(Error::NotFound) <==> now >= start + wait_ms(
            m.implicit_wait,
        ),
        now < start + wait_ms(m.implicit_wait) ==> ({
            let d = start + wait_ms(m.implicit_wait) - now;
            pass_step(later, now) == FindStep::Sleep(
                if d < POLL_INTERVAL_MS {
                    d as u64
                } else {
                    POLL_INTERVAL_MS
                },
            )
        }),
        pass_step(later, now) is Sleep ==> {
            &&& 0 < pass_step(later, now)->Sleep_0 <= POLL_INTERVAL_MS
            &&& now + pass_step(later, now)->Sleep_0 <= start + wait_ms(m.implicit_wait)
        },
{
}

} // verus!
