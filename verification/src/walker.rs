//! One depth-first pre-order traversal per module.
//!
//! The walker visits a node, lets each detector look at it (boundary
//! violation first), then descends into the node's children in source order.
//! Function bodies hanging off declarations and off initializers are children
//! like any others, so the walk reaches every nested function body. The walk
//! is total: node shapes that no detector matches are silently passed over.
use vstd::prelude::*;
use crate::detect::{boundary_violation_at, optimization_opportunity_at, own_findings};
use crate::finding::{Finding, FindingModel, finding_views};
use crate::scope::Scope;
use crate::tree::Node;

verus! {

/// The findings a depth-first pre-order walk of `n` under `scope` emits: the
/// detectors' findings at `n` itself, then those of its children in order.
pub open spec fn node_findings(file: Seq<char>, scope: Scope, n: Node) -> Seq<FindingModel>
    decreases n, 0int,
{
    own_findings(file, scope, n) + match n {
        Node::StrLit { .. } => Seq::empty(),
        Node::Ident { .. } => Seq::empty(),
        Node::Call { callee, args, .. } => node_findings(file, scope, *callee) + nodes_findings(
            file,
            scope,
            args@,
            0,
        ),
        Node::Await { arg, .. } => node_findings(file, scope, *arg),
        Node::VarDecl { inits, .. } => nodes_findings(file, scope, inits@, 0),
        Node::FnDecl { body, .. } => nodes_findings(file, scope, body@, 0),
        Node::FnExpr { body, .. } => nodes_findings(file, scope, body@, 0),
        Node::Other { children, .. } => nodes_findings(file, scope, children@, 0),
    }
}

/// The findings of walking the nodes `ns[i..]` in order.
pub open spec fn nodes_findings(file: Seq<char>, scope: Scope, ns: Seq<Node>, i: int) -> Seq<
    FindingModel,
>
    decreases ns, ns.len() - i,
{
    if i < 0 || i >= ns.len() {
        Seq::empty()
    } else {
        node_findings(file, scope, ns[i]) + nodes_findings(file, scope, ns, i + 1)
    }
}

/// Accumulates findings in discovery order during one traversal and hands the
/// final ordered list out; owned by a single analysis invocation.
pub struct FindingCollector {
    items: Vec<Finding>,
}

impl View for FindingCollector {
    type V = Seq<FindingModel>;

    closed spec fn view(&self) -> Seq<FindingModel> {
        finding_views(self.items@)
    }
}

impl FindingCollector {
    /// An empty collector.
    pub fn new() -> (c: Self)
        ensures
            c@ == Seq::<FindingModel>::empty(),
    {
        let c = FindingCollector { items: Vec::new() };
        proof {
            assert(c@ =~= Seq::<FindingModel>::empty());
        }
        c
    }

    /// Appends one finding; earlier findings keep their places.
    pub fn add(&mut self, f: Finding)
        ensures
            final(self)@ == old(self)@.push(f@),
    {
        self.items.push(f);
        proof {
            crate::finding::lemma_finding_views_push(old(self).items@, f);
        }
    }

    /// The collected findings, in discovery order.
    pub fn finalize(self) -> (findings: Vec<Finding>)
        ensures
            finding_views(findings@) == self@,
    {
        self.items
    }
}

/// Visits `n` and then its children, appending every finding the detectors
/// emit, in discovery order.
pub fn walk_node(file: &String, scope: Scope, n: &Node, out: &mut FindingCollector)
    ensures
        final(out)@ == old(out)@ + node_findings(file@, scope, *n),
    decreases *n, 0int,
{
    match boundary_violation_at(file, scope, n) {
        Some(f) => out.add(f),
        None => (),
    }
    match optimization_opportunity_at(file, scope, n) {
        Some(f) => out.add(f),
        None => (),
    }
    proof {
        assert(out@ =~= old(out)@ + own_findings(file@, scope, *n));
    }
    let ghost mid = out@;
    match n {
        Node::StrLit { .. } => (),
        Node::Ident { .. } => (),
        Node::Call { callee, args, .. } => {
            walk_node(file, scope, callee, out);
            walk_nodes(file, scope, args, 0, out);
        },
        Node::Await { arg, .. } => {
            walk_node(file, scope, arg, out);
        },
        Node::VarDecl { inits, .. } => {
            walk_nodes(file, scope, inits, 0, out);
        },
        Node::FnDecl { body, .. } => {
            walk_nodes(file, scope, body, 0, out);
        },
        Node::FnExpr { body, .. } => {
            walk_nodes(file, scope, body, 0, out);
        },
        Node::Other { children, .. } => {
            walk_nodes(file, scope, children, 0, out);
        },
    }
    proof {
        assert(out@ =~= old(out)@ + node_findings(file@, scope, *n));
    }
}

/// Visits the nodes `ns[i..]` in order.
pub fn walk_nodes(file: &String, scope: Scope, ns: &Vec<Node>, i: usize, out: &mut FindingCollector)
    ensures
        final(out)@ == old(out)@ + nodes_findings(file@, scope, ns@, i as int),
    decreases ns@, ns@.len() - i,
{
    if i < ns.len() {
        walk_node(file, scope, &ns[i], out);
        walk_nodes(file, scope, ns, i + 1, out);
        proof {
            assert(out@ =~= old(out)@ + nodes_findings(file@, scope, ns@, i as int));
        }
    } else {
        proof {
            assert(out@ =~= old(out)@ + nodes_findings(file@, scope, ns@, i as int));
        }
    }
}

} // verus!
