use std::cell::{Cell, RefCell};
use std::collections::HashMap;
use std::rc::Rc;

use accessibility::error::{kAXErrorCannotComplete, kAXErrorNoValue};
use accessibility::{
    AXUIElement, ElementFinder, Error, FindStep, TreeVisitor, TreeWalker, TreeWalkerFlow,
    WalkEvent, WalkStep,
};

/// An in-memory stand-in for the external tree: children by node id; a node
/// that is absent reports an error when its children are listed.
struct Tree {
    children: HashMap<u64, Vec<u64>>,
}

impl Tree {
    fn new(edges: &[(u64, &[u64])]) -> Tree {
        let mut children = HashMap::new();
        for (node, kids) in edges {
            children.insert(*node, kids.to_vec());
        }
        Tree { children }
    }

    fn list(&self, node: AXUIElement) -> Result<Vec<AXUIElement>, Error> {
        match self.children.get(&node.id()) {
            Some(kids) => Ok(kids.iter().map(|k| AXUIElement::from_id(*k)).collect()),
            None => Err(Error::Ax(kAXErrorNoValue)),
        }
    }
}

/// Records every callback and forwards it to the inner visitor.
struct Recorder<'a, V: TreeVisitor> {
    inner: &'a mut V,
    calls: Vec<String>,
    max_open: usize,
    open: usize,
}

impl<'a, V: TreeVisitor> TreeVisitor for Recorder<'a, V> {
    fn enter_element(&mut self, element: &AXUIElement) -> TreeWalkerFlow {
        self.calls.push(format!("enter {}", element.id()));
        self.open += 1;
        self.max_open = self.max_open.max(self.open);
        self.inner.enter_element(element)
    }

    fn exit_element(&mut self, element: &AXUIElement) {
        self.calls.push(format!("exit {}", element.id()));
        self.open -= 1;
        self.inner.exit_element(element)
    }
}

/// Visitor with a fixed answer per node (default `Continue`).
struct Answers {
    answers: HashMap<u64, TreeWalkerFlow>,
}

impl TreeVisitor for Answers {
    fn enter_element(&mut self, element: &AXUIElement) -> TreeWalkerFlow {
        *self.answers.get(&element.id()).unwrap_or(&TreeWalkerFlow::Continue)
    }

    fn exit_element(&mut self, _element: &AXUIElement) {}
}

fn drive<V: TreeVisitor>(tree: &Tree, root: u64, visitor: &mut V) -> TreeWalkerFlow {
    let walker = TreeWalker::new();
    let mut walk = walker.begin(&AXUIElement::from_id(root));
    let mut step = walk.pending();
    loop {
        step = match step {
            WalkStep::Enter(n) => walk.advance(WalkEvent::Entered(visitor.enter_element(&n))),
            WalkStep::FetchChildren(n) => walk.advance(WalkEvent::Children(tree.list(n))),
            WalkStep::Exit(n) => {
                visitor.exit_element(&n);
                walk.advance(WalkEvent::Exited)
            }
            WalkStep::Done(flow) => return flow,
        };
    }
}

fn record<V: TreeVisitor>(tree: &Tree, root: u64, visitor: &mut V) -> (TreeWalkerFlow, Vec<String>, usize) {
    let mut rec = Recorder { inner: visitor, calls: Vec::new(), max_open: 0, open: 0 };
    let flow = drive(tree, root, &mut rec);
    assert_eq!(rec.open, 0);
    (flow, rec.calls, rec.max_open)
}

fn calls(list: &[&str]) -> Vec<String> {
    list.iter().map(|s| s.to_string()).collect()
}

#[test]
fn match_on_second_child_exits_walk() {
    // A=1 -> [B=2, C=3], the predicate matches C.
    let tree = Tree::new(&[(1, &[2, 3]), (2, &[]), (3, &[])]);
    let mut finder = ElementFinder::new(&AXUIElement::from_id(1), |e: &AXUIElement| e.id() == 3, None);
    let (flow, trace, _) = record(&tree, 1, &mut finder);
    assert_eq!(flow, TreeWalkerFlow::Exit);
    assert_eq!(trace, calls(&["enter 1", "enter 2", "exit 2", "enter 3", "exit 3", "exit 1"]));
    assert_eq!(finder.cached(), Some(AXUIElement::from_id(3)));
}

#[test]
fn full_preorder_walk() {
    let tree = Tree::new(&[(1, &[2, 5]), (2, &[3, 4]), (3, &[]), (4, &[]), (5, &[])]);
    let mut visitor = Answers { answers: HashMap::new() };
    let (flow, trace, max_open) = record(&tree, 1, &mut visitor);
    assert_eq!(flow, TreeWalkerFlow::Continue);
    assert_eq!(
        trace,
        calls(&[
            "enter 1", "enter 2", "enter 3", "exit 3", "enter 4", "exit 4", "exit 2", "enter 5",
            "exit 5", "exit 1",
        ])
    );
    assert_eq!(max_open, 3);
}

#[test]
fn skip_subtree_still_exits() {
    let tree = Tree::new(&[(1, &[2, 5]), (2, &[3, 4]), (3, &[]), (4, &[]), (5, &[])]);
    let mut answers = HashMap::new();
    answers.insert(2, TreeWalkerFlow::SkipSubtree);
    let mut visitor = Answers { answers };
    let (flow, trace, _) = record(&tree, 1, &mut visitor);
    assert_eq!(flow, TreeWalkerFlow::Continue);
    assert_eq!(trace, calls(&["enter 1", "enter 2", "exit 2", "enter 5", "exit 5", "exit 1"]));
}

#[test]
fn skip_at_root_finishes_with_skip() {
    let tree = Tree::new(&[(1, &[2])]);
    let mut answers = HashMap::new();
    answers.insert(1, TreeWalkerFlow::SkipSubtree);
    let mut visitor = Answers { answers };
    let (flow, trace, _) = record(&tree, 1, &mut visitor);
    assert_eq!(flow, TreeWalkerFlow::SkipSubtree);
    assert_eq!(trace, calls(&["enter 1", "exit 1"]));
}

#[test]
fn exit_deep_skips_all_later_siblings() {
    // 1 -> [2, 6]; 2 -> [3, 5]; 3 -> [4]; the visitor answers Exit on 4.
    let tree = Tree::new(&[(1, &[2, 6]), (2, &[3, 5]), (3, &[4]), (4, &[7]), (5, &[]), (6, &[])]);
    let mut answers = HashMap::new();
    answers.insert(4, TreeWalkerFlow::Exit);
    let mut visitor = Answers { answers };
    let (flow, trace, _) = record(&tree, 1, &mut visitor);
    assert_eq!(flow, TreeWalkerFlow::Exit);
    assert_eq!(
        trace,
        calls(&["enter 1", "enter 2", "enter 3", "enter 4", "exit 4", "exit 3", "exit 2", "exit 1"])
    );
}

#[test]
fn predicate_not_called_after_match() {
    let tested: Rc<RefCell<Vec<u64>>> = Rc::new(RefCell::new(Vec::new()));
    let seen = tested.clone();
    let tree = Tree::new(&[(1, &[2, 5]), (2, &[3, 4]), (3, &[]), (4, &[]), (5, &[])]);
    let mut finder = ElementFinder::new(
        &AXUIElement::from_id(1),
        move |e: &AXUIElement| {
            seen.borrow_mut().push(e.id());
            e.id() == 3
        },
        None,
    );
    let flow = drive(&tree, 1, &mut finder);
    assert_eq!(flow, TreeWalkerFlow::Exit);
    assert_eq!(*tested.borrow(), vec![1, 2, 3]);
}

#[test]
fn failed_child_listing_counts_as_leaf() {
    // Node 2 is absent from the tree: listing its children fails.
    let tree = Tree::new(&[(1, &[2, 3]), (3, &[])]);
    let mut visitor = Answers { answers: HashMap::new() };
    let (flow, trace, _) = record(&tree, 1, &mut visitor);
    assert_eq!(flow, TreeWalkerFlow::Continue);
    assert_eq!(trace, calls(&["enter 1", "enter 2", "exit 2", "enter 3", "exit 3", "exit 1"]));
}

#[test]
fn children_error_event_is_a_leaf() {
    let walker = TreeWalker::default();
    let mut walk = walker.begin(&AXUIElement::from_id(9));
    assert_eq!(walk.advance(WalkEvent::Entered(TreeWalkerFlow::Continue)), WalkStep::FetchChildren(AXUIElement::from_id(9)));
    assert_eq!(walk.advance(WalkEvent::Children(Err(Error::Ax(kAXErrorCannotComplete)))), WalkStep::Exit(AXUIElement::from_id(9)));
    assert_eq!(walk.advance(WalkEvent::Exited), WalkStep::Done(TreeWalkerFlow::Continue));
}

#[test]
fn mismatched_event_is_ignored() {
    let walker = TreeWalker::new();
    let mut walk = walker.begin(&AXUIElement::from_id(1));
    assert_eq!(walk.advance(WalkEvent::Exited), WalkStep::Enter(AXUIElement::from_id(1)));
    assert_eq!(walk.advance(WalkEvent::Children(Ok(vec![]))), WalkStep::Enter(AXUIElement::from_id(1)));
    assert_eq!(walk.advance(WalkEvent::Entered(TreeWalkerFlow::Exit)), WalkStep::Exit(AXUIElement::from_id(1)));
    assert_eq!(walk.advance(WalkEvent::Exited), WalkStep::Done(TreeWalkerFlow::Exit));
    assert_eq!(walk.advance(WalkEvent::Exited), WalkStep::Done(TreeWalkerFlow::Exit));
    assert_eq!(walk.pending(), WalkStep::Done(TreeWalkerFlow::Exit));
}

#[test]
fn depth_guard_stops_deep_chain() {
    // A chain 1 -> 2 -> ... -> 300.
    let mut edges: Vec<(u64, Vec<u64>)> = (1..300).map(|i| (i, vec![i + 1])).collect();
    edges.push((300, vec![]));
    let refs: Vec<(u64, &[u64])> = edges.iter().map(|(n, k)| (*n, k.as_slice())).collect();
    let tree = Tree::new(&refs);
    let mut finder = ElementFinder::new(&AXUIElement::from_id(1), |_: &AXUIElement| false, None);
    let (flow, trace, max_open) = record(&tree, 1, &mut finder);
    assert_eq!(flow, TreeWalkerFlow::Continue);
    assert_eq!(max_open, 101);
    let enters = trace.iter().filter(|c| c.starts_with("enter")).count();
    let exits = trace.iter().filter(|c| c.starts_with("exit")).count();
    assert_eq!(enters, 101);
    assert_eq!(exits, 101);
    assert_eq!(finder.cached(), None);
}

#[test]
fn depth_guard_stops_cycle() {
    // Node 1 lists itself as its own child.
    let tree = Tree::new(&[(1, &[1])]);
    let mut finder = ElementFinder::new(&AXUIElement::from_id(1), |_: &AXUIElement| false, None);
    let (flow, trace, max_open) = record(&tree, 1, &mut finder);
    assert_eq!(flow, TreeWalkerFlow::Continue);
    assert_eq!(max_open, 101);
    assert_eq!(trace.len(), 202);
}

#[test]
fn depth_guard_answers() {
    let mut finder = ElementFinder::new(&AXUIElement::from_id(1), |e: &AXUIElement| e.id() == 7, None);
    let other = AXUIElement::from_id(2);
    for _ in 0..100 {
        assert_eq!(finder.enter_element(&other), TreeWalkerFlow::Continue);
    }
    assert_eq!(finder.enter_element(&other), TreeWalkerFlow::SkipSubtree);
    // A match deeper than the cap still stops the walk.
    assert_eq!(finder.enter_element(&AXUIElement::from_id(7)), TreeWalkerFlow::Exit);
    // Back to depth 100: the next node lies at 101, beyond the cap.
    finder.exit_element(&other);
    finder.exit_element(&other);
    assert_eq!(finder.enter_element(&other), TreeWalkerFlow::SkipSubtree);
    // Back to depth 99: the next node lies at 100, within the cap.
    finder.exit_element(&other);
    finder.exit_element(&other);
    assert_eq!(finder.enter_element(&other), TreeWalkerFlow::Continue);
}

/// Runs a whole search on `tree` with a scripted clock: each pass takes
/// `pass_ms`; returns the outcome, the number of passes and the sleeps.
fn search<F: Fn(&AXUIElement) -> bool>(
    tree: &Tree,
    finder: &mut ElementFinder<F>,
    start: u64,
    pass_ms: u64,
) -> (Result<AXUIElement, Error>, usize, Vec<u64>) {
    let mut now = start;
    let mut passes = 0;
    let mut sleeps = Vec::new();
    let mut step = finder.find_start(now);
    loop {
        step = match step {
            FindStep::Walk(root) => {
                drive(tree, root.id(), finder);
                passes += 1;
                now += pass_ms;
                finder.pass_done(now)
            }
            FindStep::Sleep(ms) => {
                sleeps.push(ms);
                now += ms;
                FindStep::Walk(finder.root())
            }
            FindStep::Found(e) => return (Ok(e), passes, sleeps),
            FindStep::Failed(e) => return (Err(e), passes, sleeps),
        };
    }
}

#[test]
fn no_budget_single_pass_not_found() {
    let tree = Tree::new(&[(1, &[2, 3]), (2, &[]), (3, &[])]);
    let mut finder = ElementFinder::new(&AXUIElement::from_id(1), |_: &AXUIElement| false, None);
    let (r, passes, sleeps) = search(&tree, &mut finder, 1000, 0);
    assert_eq!(r, Err(Error::NotFound));
    assert_eq!(passes, 1);
    assert!(sleeps.is_empty());
}

#[test]
fn zero_budget_single_pass_not_found() {
    let tree = Tree::new(&[(1, &[2, 3]), (2, &[]), (3, &[])]);
    let mut finder = ElementFinder::new(&AXUIElement::from_id(1), |_: &AXUIElement| false, Some(0));
    let (r, passes, sleeps) = search(&tree, &mut finder, 1000, 0);
    assert_eq!(r, Err(Error::NotFound));
    assert_eq!(passes, 1);
    assert!(sleeps.is_empty());
}

#[test]
fn no_budget_match_found_in_one_pass() {
    let tree = Tree::new(&[(1, &[2, 3]), (2, &[]), (3, &[])]);
    let mut finder = ElementFinder::new(&AXUIElement::from_id(1), |e: &AXUIElement| e.id() == 2, None);
    let (r, passes, _) = search(&tree, &mut finder, 1000, 5);
    assert_eq!(r, Ok(AXUIElement::from_id(2)));
    assert_eq!(passes, 1);
}

#[test]
fn deadline_sleeps_then_fails() {
    let tree = Tree::new(&[(1, &[])]);
    let mut finder = ElementFinder::new(&AXUIElement::from_id(1), |_: &AXUIElement| false, Some(600));
    let (r, passes, sleeps) = search(&tree, &mut finder, 1000, 0);
    assert_eq!(r, Err(Error::NotFound));
    assert_eq!(sleeps, vec![250, 250, 100]);
    assert_eq!(passes, 4);
}

#[test]
fn deadline_steps() {
    let mut finder = ElementFinder::new(&AXUIElement::from_id(1), |_: &AXUIElement| false, Some(600));
    assert_eq!(finder.find_start(1000), FindStep::Walk(AXUIElement::from_id(1)));
    assert_eq!(finder.pass_done(1000), FindStep::Sleep(250));
    assert_eq!(finder.pass_done(1400), FindStep::Sleep(200));
    assert_eq!(finder.pass_done(1599), FindStep::Sleep(1));
    assert_eq!(finder.pass_done(1600), FindStep::Failed(Error::NotFound));
    assert_eq!(finder.pass_done(1900), FindStep::Failed(Error::NotFound));
}

#[test]
fn cached_match_returned_without_walking() {
    let tree = Tree::new(&[(1, &[2, 3]), (2, &[]), (3, &[])]);
    let mut finder = ElementFinder::new(&AXUIElement::from_id(1), |e: &AXUIElement| e.id() == 3, Some(1000));
    let (r, passes, _) = search(&tree, &mut finder, 0, 1);
    assert_eq!(r, Ok(AXUIElement::from_id(3)));
    assert_eq!(passes, 1);
    for t in [5, 50_000, 0] {
        let (again, passes, sleeps) = search(&tree, &mut finder, t, 1);
        assert_eq!(again, Ok(AXUIElement::from_id(3)));
        assert_eq!(passes, 0);
        assert!(sleeps.is_empty());
    }
    finder.reset();
    assert_eq!(finder.cached(), None);
    assert_eq!(finder.find_start(10), FindStep::Walk(AXUIElement::from_id(1)));
}

#[test]
fn match_appears_on_later_pass() {
    // The element appears in the tree only from the third pass on.
    let passes_seen = Rc::new(Cell::new(0u32));
    let counter = passes_seen.clone();
    let tree = Tree::new(&[(1, &[2]), (2, &[])]);
    let mut finder = ElementFinder::new(
        &AXUIElement::from_id(1),
        move |e: &AXUIElement| {
            if e.id() == 1 {
                counter.set(counter.get() + 1);
            }
            e.id() == 2 && counter.get() >= 3
        },
        Some(2000),
    );
    let (r, passes, sleeps) = search(&tree, &mut finder, 0, 0);
    assert_eq!(r, Ok(AXUIElement::from_id(2)));
    assert_eq!(passes, 3);
    assert_eq!(sleeps, vec![250, 250]);
}

#[test]
fn poll_delay_caps_and_stops() {
    assert_eq!(accessibility::poll_delay(1000, 0), Some(250));
    assert_eq!(accessibility::poll_delay(1000, 900), Some(100));
    assert_eq!(accessibility::poll_delay(1000, 999), Some(1));
    assert_eq!(accessibility::poll_delay(1000, 1000), None);
    assert_eq!(accessibility::poll_delay(1000, 5000), None);
}
