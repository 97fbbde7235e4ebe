//! Pre-order depth-first traversal of the external tree, as a resumable
//! state machine.
//!
//! Entering a node, leaving it and listing its children are performed by the
//! driver of the walk: `TreeWalk::pending` says which of them is due, and
//! `TreeWalk::advance` takes its outcome and computes the next one.
use vstd::prelude::*;

use crate::attribute::{AXAttribute, AttributeType};
use crate::element::AXUIElement;
use crate::error::Error;

verus! {

/// A visitor's answer on entering a node.
#[derive(Debug, Clone, Copy, PartialEq, Eq, Structural)]
pub enum TreeWalkerFlow {
    /// Descend into the node's children.
    Continue,
    /// Do not descend; go on with the next sibling.
    SkipSubtree,
    /// Stop the whole walk.
    Exit,
}

/// A pair of callbacks invoked on entering and on leaving each node of a
/// walk.
pub trait TreeVisitor {
    fn enter_element(&mut self, element: &AXUIElement) -> TreeWalkerFlow;

    fn exit_element(&mut self, element: &AXUIElement);
}

/// The next thing the driver of a walk must do.
#[derive(Debug, Clone, Copy, PartialEq, Eq, Structural)]
pub enum WalkStep {
    /// Call the visitor's `enter_element` and report `WalkEvent::Entered`.
    Enter(AXUIElement),
    /// List the node's children and report `WalkEvent::Children`.
    FetchChildren(AXUIElement),
    /// Call the visitor's `exit_element` and report `WalkEvent::Exited`.
    Exit(AXUIElement),
    /// The walk is over; the root's final flow.
    Done(TreeWalkerFlow),
}

/// What the driver reports after performing a step.
pub enum WalkEvent {
    Entered(TreeWalkerFlow),
    /// The children as the external API listed them, or why listing them
    /// failed; a failure counts as no children.
    Children(Result<Vec<AXUIElement>, Error>),
    Exited,
}

/// One node on the path from the root to the node being visited.
pub struct FrameModel {
    pub node: AXUIElement,
    pub flow: TreeWalkerFlow,
    pub children: Seq<AXUIElement>,
    /// How many children have been entered so far.
    pub next: int,
}

/// Abstract state of a walk.
pub struct WalkModel {
    /// Entered nodes not yet exited, root first.
    pub frames: Seq<FrameModel>,
    pub pending: WalkStep,
    /// The visitor calls made so far: `Enter` and `Exit` entries, in order.
    pub log: Seq<WalkStep>,
}

/// A walk that has not started: the root is to be entered.
pub open spec fn walk_start(root: AXUIElement) -> WalkModel {
    WalkModel { frames: seq![], pending: WalkStep::Enter(root), log: seq![] }
}

/// Go on with the innermost node: enter its next child, or leave it when
/// none is left.
pub open spec fn walk_resume(frames: Seq<FrameModel>, log: Seq<WalkStep>) -> WalkModel {
    let top = frames.last();
    if top.next < top.children.len() {
        WalkModel {
            frames: frames.update(
                frames.len() - 1,
                FrameModel {
                    node: top.node,
                    flow: top.flow,
                    children: top.children,
                    next: top.next + 1,
                },
            ),
            pending: WalkStep::Enter(top.children[top.next]),
            log,
        }
    } else {
        WalkModel { frames, pending: WalkStep::Exit(top.node), log }
    }
}

/// One transition of the walk. An event that does not answer the pending
/// step leaves the walk unchanged.
pub open spec fn walk_next(m: WalkModel, e: WalkEvent) -> WalkModel {
    match m.pending {
        WalkStep::Enter(n) => match e {
            WalkEvent::Entered(f) => WalkModel {
                frames: m.frames.push(FrameModel { node: n, flow: f, children: seq![], next: 0 }),
                pending: if f == TreeWalkerFlow::Continue {
                    WalkStep::FetchChildren(n)
                } else {
                    WalkStep::Exit(n)
                },
                log: m.log.push(WalkStep::Enter(n)),
            },
            _ => m,
        },
        WalkStep::FetchChildren(n) => match e {
            WalkEvent::Children(r) => {
                let top = m.frames.last();
                let kids = match r {
                    Ok(v) => v@,
                    Err(_) => seq![],
                };
                walk_resume(
                    m.frames.update(
                        m.frames.len() - 1,
                        FrameModel { node: top.node, flow: top.flow, children: kids, next: 0 },
                    ),
                    m.log,
                )
            },
            _ => m,
        },
        WalkStep::Exit(n) => match e {
            WalkEvent::Exited => {
                let top = m.frames.last();
                let rest = m.frames.drop_last();
                let log = m.log.push(WalkStep::Exit(n));
                if rest.len() == 0 {
                    WalkModel { frames: rest, pending: WalkStep::Done(top.flow), log }
                } else if top.flow == TreeWalkerFlow::Exit {
                    let p = rest.last();
                    WalkModel {
                        frames: rest.update(
                            rest.len() - 1,
                            FrameModel {
                                node: p.node,
                                flow: TreeWalkerFlow::Exit,
                                children: p.children,
                                next: p.next,
                            },
                        ),
                        pending: WalkStep::Exit(p.node),
                        log,
                    }
                } else {
                    walk_resume(rest, log)
                }
            },
            _ => m,
        },
        WalkStep::Done(_) => m,
    }
}

/// The walk after a sequence of events.
pub open spec fn walk_run(m: WalkModel, events: Seq<WalkEvent>) -> WalkModel
    decreases events.len(),
{
    if events.len() == 0 {
        m
    } else {
        walk_run(walk_next(m, events[0]), events.drop_first())
    }
}

/// Number of enter calls in a log.
pub open spec fn count_enters(log: Seq<WalkStep>) -> nat
    decreases log.len(),
{
    if log.len() == 0 {
        0
    } else {
        count_enters(log.drop_last()) + if log.last() is Enter {
            1nat
        } else {
            0nat
        }
    }
}

/// Number of exit calls in a log.
pub open spec fn count_exits(log: Seq<WalkStep>) -> nat
    decreases log.len(),
{
    if log.len() == 0 {
        0
    } else {
        count_exits(log.drop_last()) + if log.last() is Exit {
            1nat
        } else {
            0nat
        }
    }
}

/// Consistency of a walk's state.
pub open spec fn walk_wf(m: WalkModel) -> bool {
    &&& forall|i: int|
        0 <= i < m.frames.len() ==> 0 <= #[trigger] m.frames[i].next <= m.frames[i].children.len()
    &&& forall|i: int|
        0 <= i < m.frames.len() - 1 ==> (#[trigger] m.frames[i]).flow == TreeWalkerFlow::Continue
            && m.frames[i].next >= 1
    &&& count_enters(m.log) == count_exits(m.log) + m.frames.len()
    &&& match m.pending {
        WalkStep::Enter(n) => m.frames.len() > 0 ==> {
            &&& m.frames.last().flow == TreeWalkerFlow::Continue
            &&& m.frames.last().next >= 1
            &&& m.frames.last().children[m.frames.last().next - 1] == n
        },
        WalkStep::FetchChildren(n) => {
            &&& m.frames.len() > 0
            &&& m.frames.last().node == n
            &&& m.frames.last().flow == TreeWalkerFlow::Continue
            &&& m.frames.last().children.len() == 0
            &&& m.frames.last().next == 0
        },
        WalkStep::Exit(n) => m.frames.len() > 0 && m.frames.last().node == n,
        WalkStep::Done(_) => m.frames.len() == 0,
    }
}

proof fn lemma_count_push(log: Seq<WalkStep>, s: WalkStep)
    ensures
        count_enters(log.push(s)) == count_enters(log) + if s is Enter {
            1nat
        } else {
            0nat
        },
        count_exits(log.push(s)) == count_exits(log) + if s is Exit {
            1nat
        } else {
            0nat
        },
{
    assert(log.push(s).drop_last() =~= log);
}

/// Every transition keeps the walk consistent.
pub proof fn lemma_next_wf(m: WalkModel, e: WalkEvent)
    requires
        walk_wf(m),
    ensures
        walk_wf(walk_next(m, e)),
{
    let r = walk_next(m, e);
    match m.pending {
        WalkStep::Enter(n) => {
            lemma_count_push(m.log, WalkStep::Enter(n));
        },
        WalkStep::FetchChildren(n) => {},
        WalkStep::Exit(n) => {
            lemma_count_push(m.log, WalkStep::Exit(n));
            if let WalkEvent::Exited = e {
                let rest = m.frames.drop_last();
                assert forall|i: int| 0 <= i < rest.len() implies #[trigger] rest[i] == m.frames[i] by {}
            }
        },
        WalkStep::Done(_) => {},
    }
}

/// Consistency holds after any sequence of events.
pub proof fn lemma_run_wf(m: WalkModel, events: Seq<WalkEvent>)
    requires
        walk_wf(m),
    ensures
        walk_wf(walk_run(m, events)),
    decreases events.len(),
{
    if events.len() > 0 {
        lemma_next_wf(m, events[0]);
        lemma_run_wf(walk_next(m, events[0]), events.drop_first());
    }
}

/// Exit pairing: every node whose enter call was made gets exactly one exit
/// call, so a finished walk has made as many exit calls as enter calls,
/// whatever the visitor answered.
pub proof fn lemma_exit_pairing(root: AXUIElement, events: Seq<WalkEvent>)
    ensures
        walk_run(walk_start(root), events).pending is Done ==> count_enters(
            walk_run(walk_start(root), events).log,
        ) == count_exits(walk_run(walk_start(root), events).log),
{
    lemma_run_wf(walk_start(root), events);
}

/// The walk is unwinding after an `Exit` answer: every node still open has
/// flow `Exit` and is left in turn, innermost first.
pub open spec fn walk_unwinding(m: WalkModel) -> bool {
    ||| m.frames.len() > 0 && m.frames.last().flow == TreeWalkerFlow::Exit && m.pending
        == WalkStep::Exit(m.frames.last().node)
    ||| m.frames.len() == 0 && m.pending == WalkStep::Done(TreeWalkerFlow::Exit)
}

proof fn lemma_unwinding_next(m: WalkModel, e: WalkEvent)
    requires
        walk_wf(m),
        walk_unwinding(m),
    ensures
        walk_unwinding(walk_next(m, e)),
        count_enters(walk_next(m, e).log) == count_enters(m.log),
{
    if let WalkStep::Exit(n) = m.pending {
        lemma_count_push(m.log, WalkStep::Exit(n));
    }
}

proof fn lemma_unwinding_run(m: WalkModel, events: Seq<WalkEvent>)
    requires
        walk_wf(m),
        walk_unwinding(m),
    ensures
        walk_unwinding(walk_run(m, events)),
        count_enters(walk_run(m, events).log) == count_enters(m.log),
    decreases events.len(),
{
    if events.len() > 0 {
        lemma_next_wf(m, events[0]);
        lemma_unwinding_next(m, events[0]);
        lemma_unwinding_run(walk_next(m, events[0]), events.drop_first());
    }
}

/// Early exit: once the visitor answers `Exit` on entering a node, the walk
/// makes no further enter call, so no later sibling or subtree at any level
/// is visited; it only leaves the nodes still open, at most one exit call
/// each, and ends with flow `Exit`.
pub proof fn lemma_early_exit(m: WalkModel, events: Seq<WalkEvent>)
    requires
        walk_wf(m),
        m.pending is Enter,
    ensures
        ({
            let after = walk_next(m, WalkEvent::Entered(TreeWalkerFlow::Exit));
            let r = walk_run(after, events);
            &&& walk_unwinding(r)
            &&& count_enters(r.log) == count_enters(after.log)
            &&& count_exits(r.log) <= count_exits(after.log) + after.frames.len()
            &&& r.pending is Done ==> r.pending == WalkStep::Done(TreeWalkerFlow::Exit)
        }),
{
    let after = walk_next(m, WalkEvent::Entered(TreeWalkerFlow::Exit));
    lemma_next_wf(m, WalkEvent::Entered(TreeWalkerFlow::Exit));
    lemma_unwinding_run(after, events);
    lemma_run_wf(after, events);
}

/// No open node lies deeper than `cap + 1`, and one at that depth is not
/// being descended into.
pub open spec fn walk_bounded(m: WalkModel, cap: nat) -> bool {
    &&& m.frames.len() <= cap + 1
    &&& m.frames.len() == cap + 1 ==> m.frames.last().flow != TreeWalkerFlow::Continue
}

/// The visitor's answers respect a depth cap: entering a node deeper than
/// `cap` (the root has depth 1) is never answered with `Continue`.
pub open spec fn walk_guarded(m: WalkModel, events: Seq<WalkEvent>, cap: nat) -> bool
    decreases events.len(),
{
    events.len() == 0 || ({
        &&& (m.pending is Enter && m.frames.len() + 1 > cap) ==> match events[0] {
            WalkEvent::Entered(f) => f != TreeWalkerFlow::Continue,
            _ => true,
        }
        &&& walk_guarded(walk_next(m, events[0]), events.drop_first(), cap)
    })
}

proof fn lemma_bounded_next(m: WalkModel, e: WalkEvent, cap: nat)
    requires
        walk_wf(m),
        walk_bounded(m, cap),
        (m.pending is Enter && m.frames.len() + 1 > cap) ==> match e {
            WalkEvent::Entered(f) => f != TreeWalkerFlow::Continue,
            _ => true,
        },
    ensures
        walk_bounded(walk_next(m, e), cap),
{
}

/// Depth guard: when the visitor never descends below `cap`, the walk never
/// holds more than `cap + 1` open nodes, and never lists the children of a
/// node deeper than `cap`, however deep or cyclic the external tree is.
pub proof fn lemma_depth_guard(root: AXUIElement, events: Seq<WalkEvent>, cap: nat)
    requires
        walk_guarded(walk_start(root), events, cap),
    ensures
        walk_run(walk_start(root), events).frames.len() <= cap + 1,
        walk_run(walk_start(root), events).pending is FetchChildren ==> walk_run(
            walk_start(root),
            events,
        ).frames.len() <= cap,
{
    lemma_bounded_run(walk_start(root), events, cap);
    lemma_run_wf(walk_start(root), events);
}

proof fn lemma_bounded_run(m: WalkModel, events: Seq<WalkEvent>, cap: nat)
    requires
        walk_wf(m),
        walk_bounded(m, cap),
        walk_guarded(m, events, cap),
    ensures
        walk_bounded(walk_run(m, events), cap),
    decreases events.len(),
{
    if events.len() > 0 {
        lemma_next_wf(m, events[0]);
        lemma_bounded_next(m, events[0], cap);
        lemma_bounded_run(walk_next(m, events[0]), events.drop_first(), cap);
    }
}

/// Most events a walk takes for one node at `depth`, from entering it to
/// leaving it, when no listing holds more than `k` children and no node
/// deeper than `cap` is descended into.
pub open spec fn node_budget(depth: nat, cap: nat, k: nat) -> nat
    decreases cap + 1 - depth,
{
    if depth > cap {
        2
    } else {
        3 + k * node_budget(depth + 1, cap, k)
    }
}

/// What is left to do for an open node at `depth`: its unvisited children
/// and its own exit.
pub open spec fn frame_cost(f: FrameModel, depth: nat, cap: nat, k: nat) -> nat {
    ((f.children.len() - f.next) as nat) * node_budget(depth + 1, cap, k) + 1
}

pub open spec fn frames_cost(frames: Seq<FrameModel>, cap: nat, k: nat) -> nat
    decreases frames.len(),
{
    if frames.len() == 0 {
        0
    } else {
        frames_cost(frames.drop_last(), cap, k) + frame_cost(frames.last(), frames.len(), cap, k)
    }
}

/// Upper bound on the events a walk still takes.
pub open spec fn walk_potential(m: WalkModel, cap: nat, k: nat) -> nat {
    match m.pending {
        WalkStep::Enter(_) => node_budget(m.frames.len() + 1, cap, k) + frames_cost(m.frames, cap, k),
        WalkStep::FetchChildren(_) => 2 + k * node_budget(m.frames.len() + 1, cap, k) + frames_cost(
            m.frames.drop_last(),
            cap,
            k,
        ),
        WalkStep::Exit(_) => frames_cost(m.frames, cap, k),
        WalkStep::Done(_) => 0,
    }
}

/// Whether `e` answers the pending step of `m` (nothing answers `Done`).
pub open spec fn answers(m: WalkModel, e: WalkEvent) -> bool {
    match m.pending {
        WalkStep::Enter(_) => e is Entered,
        WalkStep::FetchChildren(_) => e is Children,
        WalkStep::Exit(_) => e is Exited,
        WalkStep::Done(_) => false,
    }
}

/// Every event answers the pending step, lists at most `k` children, and
/// does not descend below `cap`.
pub open spec fn walk_answered(m: WalkModel, events: Seq<WalkEvent>, cap: nat, k: nat) -> bool
    decreases events.len(),
{
    events.len() == 0 || ({
        &&& answers(m, events[0])
        &&& match events[0] {
            WalkEvent::Children(Ok(v)) => v@.len() <= k,
            _ => true,
        }
        &&& (m.pending is Enter && m.frames.len() + 1 > cap) ==> match events[0] {
            WalkEvent::Entered(f) => f != TreeWalkerFlow::Continue,
            _ => true,
        }
        &&& walk_answered(walk_next(m, events[0]), events.drop_first(), cap, k)
    })
}

proof fn lemma_node_budget_min(depth: nat, cap: nat, k: nat)
    ensures
        node_budget(depth, cap, k) >= 2,
{
    assert(k * node_budget(depth + 1, cap, k) >= 0) by (nonlinear_arith);
}

proof fn lemma_frames_cost_last(frames: Seq<FrameModel>, f: FrameModel, cap: nat, k: nat)
    requires
        frames.len() > 0,
    ensures
        frames_cost(frames.update(frames.len() - 1, f), cap, k) == frames_cost(
            frames.drop_last(),
            cap,
            k,
        ) + frame_cost(f, frames.len(), cap, k),
{
    assert(frames.update(frames.len() - 1, f).drop_last() =~= frames.drop_last());
}

proof fn lemma_frames_cost_push(frames: Seq<FrameModel>, f: FrameModel, cap: nat, k: nat)
    ensures
        frames_cost(frames.push(f), cap, k) == frames_cost(frames, cap, k) + frame_cost(
            f,
            frames.len() + 1,
            cap,
            k,
        ),
{
    assert(frames.push(f).drop_last() =~= frames);
}

proof fn lemma_potential_next(m: WalkModel, e: WalkEvent, cap: nat, k: nat)
    requires
        walk_wf(m),
        walk_bounded(m, cap),
        answers(m, e),
        match e {
            WalkEvent::Children(Ok(v)) => v@.len() <= k,
            _ => true,
        },
        (m.pending is Enter && m.frames.len() + 1 > cap) ==> match e {
            WalkEvent::Entered(f) => f != TreeWalkerFlow::Continue,
            _ => true,
        },
    ensures
        walk_potential(walk_next(m, e), cap, k) < walk_potential(m, cap, k),
{
    let n1 = walk_next(m, e);
    let d = m.frames.len();
    match m.pending {
        WalkStep::Enter(node) => {
            if let WalkEvent::Entered(f) = e {
                let fr = FrameModel { node, flow: f, children: seq![], next: 0 };
                lemma_frames_cost_push(m.frames, fr, cap, k);
                assert(m.frames.push(fr).drop_last() =~= m.frames);
                lemma_node_budget_min(d + 1, cap, k);
                assert(0nat * node_budget(d + 2, cap, k) == 0) by (nonlinear_arith);
                assert(frame_cost(fr, d + 1, cap, k) == 1);
                if f == TreeWalkerFlow::Continue {
                    assert(d + 1 <= cap);
                    assert(node_budget(d + 1, cap, k) == 3 + k * node_budget(d + 2, cap, k));
                    assert(walk_potential(n1, cap, k) == 2 + k * node_budget(d + 2, cap, k)
                        + frames_cost(m.frames, cap, k));
                    assert(walk_potential(m, cap, k) == node_budget(d + 1, cap, k) + frames_cost(m.frames, cap, k));
                    assert(walk_potential(n1, cap, k) < walk_potential(m, cap, k));
                } else {
                    assert(walk_potential(n1, cap, k) == frames_cost(m.frames, cap, k) + 1);
                    assert(walk_potential(m, cap, k) == node_budget(d + 1, cap, k) + frames_cost(m.frames, cap, k));
                    assert(walk_potential(n1, cap, k) < walk_potential(m, cap, k));
                }
            }
        },
        WalkStep::FetchChildren(node) => {
            if let WalkEvent::Children(r) = e {
                let top = m.frames.last();
                let kids = match r {
                    Ok(v) => v@,
                    Err(_) => seq![],
                };
                let n = kids.len();
                let fr = FrameModel { node: top.node, flow: top.flow, children: kids, next: 0 };
                let upd = m.frames.update(d - 1, fr);
                let w = node_budget(d + 1, cap, k);
                lemma_frames_cost_last(m.frames, fr, cap, k);
                assert(n * w <= k * w) by (nonlinear_arith)
                    requires
                        n <= k,
                ;
                if n > 0 {
                    let fr2 = FrameModel { node: top.node, flow: top.flow, children: kids, next: 1 };
                    lemma_frames_cost_last(upd, fr2, cap, k);
                    assert(upd.drop_last() =~= m.frames.drop_last());
                    assert(((n - 1) as nat) * w + w == n * w) by (nonlinear_arith)
                        requires
                            n > 0,
                    ;
                } else {
                    assert(0nat * w == 0) by (nonlinear_arith);
                }
                assert(walk_potential(n1, cap, k) < walk_potential(m, cap, k));
            }
        },
        WalkStep::Exit(node) => {
            let top = m.frames.last();
            let rest = m.frames.drop_last();
            if rest.len() > 0 {
                let p = rest.last();
                let w = node_budget(rest.len() + 1, cap, k);
                if top.flow == TreeWalkerFlow::Exit {
                    let parent_after = FrameModel {
                        node: p.node,
                        flow: TreeWalkerFlow::Exit,
                        children: p.children,
                        next: p.next,
                    };
                    lemma_frames_cost_last(rest, parent_after, cap, k);
                } else if p.next < p.children.len() {
                    let parent_after = FrameModel {
                        node: p.node,
                        flow: p.flow,
                        children: p.children,
                        next: p.next + 1,
                    };
                    lemma_frames_cost_last(rest, parent_after, cap, k);
                    let r = (p.children.len() - p.next) as nat;
                    assert(((r - 1) as nat) * w + w == r * w) by (nonlinear_arith)
                        requires
                            r > 0,
                    ;
                    assert(frame_cost(parent_after, rest.len(), cap, k) == ((r - 1) as nat) * w + 1);
                    assert(frame_cost(p, rest.len(), cap, k) == r * w + 1);
                    assert(frames_cost(rest, cap, k) == frames_cost(rest.drop_last(), cap, k)
                        + frame_cost(p, rest.len(), cap, k));
                    assert(n1.frames == rest.update(rest.len() - 1, parent_after));
                    assert(n1.pending is Enter);
                    assert(walk_potential(n1, cap, k) == w + frames_cost(n1.frames, cap, k));
                    assert(walk_potential(n1, cap, k) == frames_cost(rest, cap, k));
                    assert(walk_potential(n1, cap, k) < walk_potential(m, cap, k));
                } else {
                    assert(walk_potential(n1, cap, k) < walk_potential(m, cap, k));
                }
            } else {
                assert(walk_potential(n1, cap, k) < walk_potential(m, cap, k));
            }
        },
        WalkStep::Done(_) => {},
    }
}

proof fn lemma_answered_run(m: WalkModel, events: Seq<WalkEvent>, cap: nat, k: nat)
    requires
        walk_wf(m),
        walk_bounded(m, cap),
        walk_answered(m, events, cap, k),
    ensures
        events.len() <= walk_potential(m, cap, k),
    decreases events.len(),
{
    if events.len() > 0 {
        let e = events[0];
        lemma_next_wf(m, e);
        lemma_bounded_next(m, e, cap);
        lemma_potential_next(m, e, cap, k);
        lemma_answered_run(walk_next(m, e), events.drop_first(), cap, k);
    }
}

/// Termination under a depth cap: when no listing holds more than `k`
/// children and the visitor never descends below `cap`, the walk reaches
/// `Done` (where no event answers it any more) after at most
/// `node_budget(1, cap, k)` answered events, even on a cyclic tree.
pub proof fn lemma_walk_terminates(root: AXUIElement, events: Seq<WalkEvent>, cap: nat, k: nat)
    requires
        walk_answered(walk_start(root), events, cap, k),
    ensures
        events.len() <= node_budget(1, cap, k),
{
    lemma_answered_run(walk_start(root), events, cap, k);
}

struct Frame {
    node: AXUIElement,
    flow: TreeWalkerFlow,
    children: Vec<AXUIElement>,
    next: usize,
}

impl Frame {
    spec fn model(&self) -> FrameModel {
        FrameModel {
            node: self.node,
            flow: self.flow,
            children: self.children@,
            next: self.next as int,
        }
    }
}

spec fn frames_model(frames: Seq<Frame>) -> Seq<FrameModel> {
    frames.map_values(|f: Frame| f.model())
}

/// A walk in progress over the external tree.
pub struct TreeWalk {
    frames: Vec<Frame>,
    pending: WalkStep,
    log: Ghost<Seq<WalkStep>>,
}

impl View for TreeWalk {
    type V = WalkModel;

    closed spec fn view(&self) -> WalkModel {
        WalkModel { frames: frames_model(self.frames@), pending: self.pending, log: self.log@ }
    }
}

/// Continue with the innermost frame of `frames`.
fn resume(frames: Vec<Frame>, log: Ghost<Seq<WalkStep>>) -> (r: (Vec<Frame>, WalkStep))
    requires
        frames@.len() > 0,
        frames@.last().next <= frames@.last().children@.len(),
    ensures
        (WalkModel { frames: frames_model(r.0@), pending: r.1, log: log@ }) == walk_resume(
            frames_model(frames@),
            log@,
        ),
{
    let mut frames = frames;
    let ghost before = frames_model(frames@);
    let mut top = frames.pop().unwrap();
    if top.next < top.children.len() {
        let child = top.children[top.next];
        top.next = top.next + 1;
        frames.push(top);
        assert(frames_model(frames@) =~= before.update(before.len() - 1, frames@.last().model()));
        (frames, WalkStep::Enter(child))
    } else {
        let n = top.node;
        frames.push(top);
        assert(frames_model(frames@) =~= before);
        (frames, WalkStep::Exit(n))
    }
}

impl TreeWalk {
    #[verifier::type_invariant]
    spec fn inv(&self) -> bool {
        walk_wf(self@)
    }

    /// A walk of the tree below `root` (inclusive), about to enter `root`.
    pub fn new(root: AXUIElement) -> (r: TreeWalk)
        ensures
            r@ == walk_start(root),
    {
        let r = TreeWalk { frames: Vec::new(), pending: WalkStep::Enter(root), log: Ghost(Seq::empty()) };
        assert(r@.frames =~= seq![]);
        r
    }

    /// What the driver must do next.
    pub fn pending(&self) -> (r: WalkStep)
        ensures
            r == self@.pending,
    {
        self.pending
    }

    /// Takes the outcome of the pending step and returns the next one.
    pub fn advance(&mut self, event: WalkEvent) -> (r: WalkStep)
        ensures
            final(self)@ == walk_next(old(self)@, event),
            r == final(self)@.pending,
    {
        proof {
            use_type_invariant(&*self);
        }
        let ghost m = self@;
        proof {
            lemma_next_wf(m, event);
        }
        let mut cur = TreeWalk {
            frames: Vec::new(),
            pending: WalkStep::Done(TreeWalkerFlow::Continue),
            log: Ghost(Seq::empty()),
        };
        assert(cur@.frames =~= seq![]);
        std::mem::swap(self, &mut cur);
        let TreeWalk { frames, pending, log } = cur;
        let mut frames = frames;
        let (frames, pending, log) = match pending {
            WalkStep::Enter(n) => match event {
                WalkEvent::Entered(f) => {
                    frames.push(Frame { node: n, flow: f, children: Vec::new(), next: 0 });
                    let log = Ghost(log@.push(WalkStep::Enter(n)));
                    let step = if f == TreeWalkerFlow::Continue {
                        WalkStep::FetchChildren(n)
                    } else {
                        WalkStep::Exit(n)
                    };
                    assert(frames_model(frames@) =~= m.frames.push(
                        FrameModel { node: n, flow: f, children: seq![], next: 0 },
                    ));
                    (frames, step, log)
                },
                _ => (frames, pending, log),
            },
            WalkStep::FetchChildren(n) => match event {
                WalkEvent::Children(res) => {
                    let kids = match res {
                        Ok(v) => v,
                        Err(_) => Vec::new(),
                    };
                    let mut top = frames.pop().unwrap();
                    top.children = kids;
                    top.next = 0;
                    frames.push(top);
                    assert(frames_model(frames@) =~= m.frames.update(
                        m.frames.len() - 1,
                        frames@.last().model(),
                    ));
                    let (frames, step) = resume(frames, log);
                    (frames, step, log)
                },
                _ => (frames, pending, log),
            },
            WalkStep::Exit(n) => match event {
                WalkEvent::Exited => {
                    let top = frames.pop().unwrap();
                    let log = Ghost(log@.push(WalkStep::Exit(n)));
                    assert(frames_model(frames@) =~= m.frames.drop_last());
                    if frames.len() == 0 {
                        (frames, WalkStep::Done(top.flow), log)
                    } else if top.flow == TreeWalkerFlow::Exit {
                        let ghost rest = frames_model(frames@);
                        let mut p = frames.pop().unwrap();
                        p.flow = TreeWalkerFlow::Exit;
                        let pn = p.node;
                        frames.push(p);
                        assert(frames_model(frames@) =~= rest.update(
                            rest.len() - 1,
                            frames@.last().model(),
                        ));
                        (frames, WalkStep::Exit(pn), log)
                    } else {
                        let (frames, step) = resume(frames, log);
                        (frames, step, log)
                    }
                },
                _ => (frames, pending, log),
            },
            WalkStep::Done(f) => (frames, pending, log),
        };
        *self = TreeWalk { frames, pending, log };
        self.pending
    }
}

/// Walks the tree below a node, listing children through the `AXChildren`
/// attribute.
pub struct TreeWalker {
    attr_children: AXAttribute,
}

impl TreeWalker {
    /// The attribute through which children are listed.
    pub closed spec fn children_attribute_spec(&self) -> AXAttribute {
        self.attr_children
    }

    pub fn new() -> (r: TreeWalker)
        ensures
            r.children_attribute_spec().name_spec() == "AXChildren"@,
            r.children_attribute_spec().value_type_spec() == AttributeType::ElementArray,
    {
        TreeWalker { attr_children: AXAttribute::children() }
    }

    /// The attribute the driver reads to answer `WalkStep::FetchChildren`.
    pub fn children_attribute(&self) -> (r: &AXAttribute)
        ensures
            *r == self.children_attribute_spec(),
    {
        &self.attr_children
    }

    /// A walk of the tree below `root` (inclusive).
    pub fn begin(&self, root: &AXUIElement) -> (r: TreeWalk)
        ensures
            r@ == walk_start(*root),
    {
        TreeWalk::new(*root)
    }
}

impl Default for TreeWalker {
    fn default() -> (r: TreeWalker)
        ensures
            r.children_attribute_spec().name_spec() == "AXChildren"@,
            r.children_attribute_spec().value_type_spec() == AttributeType::ElementArray,
    {
        TreeWalker::new()
    }
}

} // verus!
