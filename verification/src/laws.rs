//! The library's laws: how the findings of a whole analysis relate to the
//! tree, proved for every module shape.
//!
//! The site sequences defined here (capability call sites, await sites, and
//! the pre-order node sequence) exist to state the laws; they mirror the
//! walk's recursion exactly.
use vstd::prelude::*;
use crate::detect::{await_site, hook_call_site, own_findings, opportunity_model, violation_model};
use crate::engine::{batch_errors, batch_findings, module_findings, FileInput};
use crate::finding::{Category, FindingModel};
use crate::scope::{spec_scope_of, Scope};
use crate::tree::Node;
use crate::walker::{node_findings, nodes_findings};

verus! {

/// The capability call site at `n` itself, as a sequence of zero or one.
pub open spec fn own_hook_sites(n: Node) -> Seq<(Seq<char>, nat)> {
    match hook_call_site(n) {
        Some(site) => seq![site],
        None => Seq::empty(),
    }
}

/// The await site at `n` itself, as a sequence of zero or one.
pub open spec fn own_await_sites(n: Node) -> Seq<nat> {
    match await_site(n) {
        Some(lo) => seq![lo],
        None => Seq::empty(),
    }
}

/// All capability call sites in `n`, in depth-first pre-order.
pub open spec fn hook_sites_node(n: Node) -> Seq<(Seq<char>, nat)>
    decreases n, 0int,
{
    own_hook_sites(n) + match n {
        Node::StrLit { .. } => Seq::empty(),
        Node::Ident { .. } => Seq::empty(),
        Node::Call { callee, args, .. } => hook_sites_node(*callee) + hook_sites_list(args@, 0),
        Node::Await { arg, .. } => hook_sites_node(*arg),
        Node::VarDecl { inits, .. } => hook_sites_list(inits@, 0),
        Node::FnDecl { body, .. } => hook_sites_list(body@, 0),
        Node::FnExpr { body, .. } => hook_sites_list(body@, 0),
        Node::Other { children, .. } => hook_sites_list(children@, 0),
    }
}

/// All capability call sites in the nodes `ns[i..]`, in order.
pub open spec fn hook_sites_list(ns: Seq<Node>, i: int) -> Seq<(Seq<char>, nat)>
    decreases ns, ns.len() - i,
{
    if i < 0 || i >= ns.len() {
        Seq::empty()
    } else {
        hook_sites_node(ns[i]) + hook_sites_list(ns, i + 1)
    }
}

/// All await sites in `n`, in depth-first pre-order.
pub open spec fn await_sites_node(n: Node) -> Seq<nat>
    decreases n, 0int,
{
    own_await_sites(n) + match n {
        Node::StrLit { .. } => Seq::empty(),
        Node::Ident { .. } => Seq::empty(),
        Node::Call { callee, args, .. } => await_sites_node(*callee) + await_sites_list(args@, 0),
        Node::Await { arg, .. } => await_sites_node(*arg),
        Node::VarDecl { inits, .. } => await_sites_list(inits@, 0),
        Node::FnDecl { body, .. } => await_sites_list(body@, 0),
        Node::FnExpr { body, .. } => await_sites_list(body@, 0),
        Node::Other { children, .. } => await_sites_list(children@, 0),
    }
}

/// All await sites in the nodes `ns[i..]`, in order.
pub open spec fn await_sites_list(ns: Seq<Node>, i: int) -> Seq<nat>
    decreases ns, ns.len() - i,
{
    if i < 0 || i >= ns.len() {
        Seq::empty()
    } else {
        await_sites_node(ns[i]) + await_sites_list(ns, i + 1)
    }
}

/// The nodes a depth-first pre-order walk of `n` visits, in visit order.
pub open spec fn pre_order_node(n: Node) -> Seq<Node>
    decreases n, 0int,
{
    seq![n] + match n {
        Node::StrLit { .. } => Seq::empty(),
        Node::Ident { .. } => Seq::empty(),
        Node::Call { callee, args, .. } => pre_order_node(*callee) + pre_order_list(args@, 0),
        Node::Await { arg, .. } => pre_order_node(*arg),
        Node::VarDecl { inits, .. } => pre_order_list(inits@, 0),
        Node::FnDecl { body, .. } => pre_order_list(body@, 0),
        Node::FnExpr { body, .. } => pre_order_list(body@, 0),
        Node::Other { children, .. } => pre_order_list(children@, 0),
    }
}

/// The nodes a walk of `ns[i..]` visits, in visit order.
pub open spec fn pre_order_list(ns: Seq<Node>, i: int) -> Seq<Node>
    decreases ns, ns.len() - i,
{
    if i < 0 || i >= ns.len() {
        Seq::empty()
    } else {
        pre_order_node(ns[i]) + pre_order_list(ns, i + 1)
    }
}

/// Flat-mapping over a concatenation flat-maps each part.
proof fn lemma_flat_map_concat<A, B>(a: Seq<A>, b: Seq<A>, f: spec_fn(A) -> Seq<B>)
    ensures
        (a + b).flat_map(f) == a.flat_map(f) + b.flat_map(f),
    decreases a.len(),
{
    if a.len() == 0 {
        assert(a + b =~= b);
        assert(a.map_values(f) =~= Seq::<Seq<B>>::empty());
        assert(a.flat_map(f) + b.flat_map(f) =~= b.flat_map(f));
    } else {
        lemma_flat_map_concat(a.drop_first(), b, f);
        assert((a + b).map_values(f).drop_first() =~= (a.drop_first() + b).map_values(f));
        assert(a.map_values(f).drop_first() =~= a.drop_first().map_values(f));
        assert((a + b).map_values(f).first() == f(a[0]));
        assert(a.map_values(f).first() == f(a[0]));
        assert((a + b).flat_map(f) =~= a.flat_map(f) + b.flat_map(f));
    }
}

/// In a server-only module, the walk's findings are exactly one boundary
/// violation per capability call site, in pre-order.
proof fn lemma_server_node(file: Seq<char>, n: Node)
    ensures
        node_findings(file, Scope::ServerOnly, n) == hook_sites_node(n).map_values(
            |s: (Seq<char>, nat)| violation_model(file, s.0, s.1),
        ),
    decreases n, 0int,
{
    let f = |s: (Seq<char>, nat)| violation_model(file, s.0, s.1);
    assert(own_findings(file, Scope::ServerOnly, n) =~= own_hook_sites(n).map_values(f));
    match n {
        Node::StrLit { .. } => (),
        Node::Ident { .. } => (),
        Node::Call { callee, args, .. } => {
            lemma_server_node(file, *callee);
            lemma_server_list(file, args@, 0);
        },
        Node::Await { arg, .. } => {
            lemma_server_node(file, *arg);
        },
        Node::VarDecl { inits, .. } => {
            lemma_server_list(file, inits@, 0);
        },
        Node::FnDecl { body, .. } => {
            lemma_server_list(file, body@, 0);
        },
        Node::FnExpr { body, .. } => {
            lemma_server_list(file, body@, 0);
        },
        Node::Other { children, .. } => {
            lemma_server_list(file, children@, 0);
        },
    }
    assert(node_findings(file, Scope::ServerOnly, n) =~= hook_sites_node(n).map_values(f));
}

proof fn lemma_server_list(file: Seq<char>, ns: Seq<Node>, i: int)
    ensures
        nodes_findings(file, Scope::ServerOnly, ns, i) == hook_sites_list(ns, i).map_values(
            |s: (Seq<char>, nat)| violation_model(file, s.0, s.1),
        ),
    decreases ns, ns.len() - i,
{
    let f = |s: (Seq<char>, nat)| violation_model(file, s.0, s.1);
    if 0 <= i < ns.len() {
        lemma_server_node(file, ns[i]);
        lemma_server_list(file, ns, i + 1);
        assert(nodes_findings(file, Scope::ServerOnly, ns, i) =~= hook_sites_list(
            ns,
            i,
        ).map_values(f));
    } else {
        assert(nodes_findings(file, Scope::ServerOnly, ns, i) =~= hook_sites_list(
            ns,
            i,
        ).map_values(f));
    }
}

/// In a client-capable module, the walk's findings are exactly one
/// optimization opportunity per await site, in pre-order.
proof fn lemma_client_node(file: Seq<char>, n: Node)
    ensures
        node_findings(file, Scope::ClientCapable, n) == await_sites_node(n).map_values(
            |lo: nat| opportunity_model(file, lo),
        ),
    decreases n, 0int,
{
    let f = |lo: nat| opportunity_model(file, lo);
    assert(own_findings(file, Scope::ClientCapable, n) =~= own_await_sites(n).map_values(f));
    match n {
        Node::StrLit { .. } => (),
        Node::Ident { .. } => (),
        Node::Call { callee, args, .. } => {
            lemma_client_node(file, *callee);
            lemma_client_list(file, args@, 0);
        },
        Node::Await { arg, .. } => {
            lemma_client_node(file, *arg);
        },
        Node::VarDecl { inits, .. } => {
            lemma_client_list(file, inits@, 0);
        },
        Node::FnDecl { body, .. } => {
            lemma_client_list(file, body@, 0);
        },
        Node::FnExpr { body, .. } => {
            lemma_client_list(file, body@, 0);
        },
        Node::Other { children, .. } => {
            lemma_client_list(file, children@, 0);
        },
    }
    assert(node_findings(file, Scope::ClientCapable, n) =~= await_sites_node(n).map_values(f));
}

proof fn lemma_client_list(file: Seq<char>, ns: Seq<Node>, i: int)
    ensures
        nodes_findings(file, Scope::ClientCapable, ns, i) == await_sites_list(ns, i).map_values(
            |lo: nat| opportunity_model(file, lo),
        ),
    decreases ns, ns.len() - i,
{
    let f = |lo: nat| opportunity_model(file, lo);
    if 0 <= i < ns.len() {
        lemma_client_node(file, ns[i]);
        lemma_client_list(file, ns, i + 1);
        assert(nodes_findings(file, Scope::ClientCapable, ns, i) =~= await_sites_list(
            ns,
            i,
        ).map_values(f));
    } else {
        assert(nodes_findings(file, Scope::ClientCapable, ns, i) =~= await_sites_list(
            ns,
            i,
        ).map_values(f));
    }
}

/// Violation scope-gating. In a server-only module every call to an
/// identifier matching the client-only-capability predicate produces exactly
/// one boundary violation — the findings are precisely the capability call
/// sites in pre-order, mapped to violation findings. In a client-capable
/// module no such call produces a finding: every finding there is an
/// optimization opportunity.
pub proof fn law_violation_scope_gating(file: Seq<char>, stmts: Seq<Node>)
    ensures
        spec_scope_of(stmts) == Scope::ServerOnly ==> module_findings(file, stmts)
            == hook_sites_list(stmts, 0).map_values(
            |s: (Seq<char>, nat)| violation_model(file, s.0, s.1),
        ),
        spec_scope_of(stmts) == Scope::ClientCapable ==> forall|k: int|
            0 <= k < module_findings(file, stmts).len() ==> (#[trigger] module_findings(
                file,
                stmts,
            )[k]).category == Category::OptimizationOpportunity,
{
    lemma_server_list(file, stmts, 0);
    lemma_client_list(file, stmts, 0);
}

/// Opportunity scope-gating. In a client-capable module every await
/// expression produces exactly one optimization opportunity — the findings
/// are precisely the await sites in pre-order, mapped to opportunity
/// findings. In a server-only module no await produces a finding: every
/// finding there is a boundary violation.
pub proof fn law_opportunity_scope_gating(file: Seq<char>, stmts: Seq<Node>)
    ensures
        spec_scope_of(stmts) == Scope::ClientCapable ==> module_findings(file, stmts)
            == await_sites_list(stmts, 0).map_values(|lo: nat| opportunity_model(file, lo)),
        spec_scope_of(stmts) == Scope::ServerOnly ==> forall|k: int|
            0 <= k < module_findings(file, stmts).len() ==> (#[trigger] module_findings(
                file,
                stmts,
            )[k]).category == Category::BoundaryViolation,
{
    lemma_server_list(file, stmts, 0);
    lemma_client_list(file, stmts, 0);
}

proof fn lemma_preorder_node(file: Seq<char>, scope: Scope, n: Node)
    ensures
        node_findings(file, scope, n) == pre_order_node(n).flat_map(
            |m: Node| own_findings(file, scope, m),
        ),
    decreases n, 0int,
{
    let f = |m: Node| own_findings(file, scope, m);
    seq![n].lemma_flat_map_singleton(f);
    match n {
        Node::StrLit { .. } => {
            lemma_flat_map_concat(seq![n], Seq::empty(), f);
            assert(Seq::<Node>::empty().map_values(f) =~= Seq::<Seq<FindingModel>>::empty());
        },
        Node::Ident { .. } => {
            lemma_flat_map_concat(seq![n], Seq::empty(), f);
            assert(Seq::<Node>::empty().map_values(f) =~= Seq::<Seq<FindingModel>>::empty());
        },
        Node::Call { callee, args, .. } => {
            lemma_preorder_node(file, scope, *callee);
            lemma_preorder_list(file, scope, args@, 0);
            lemma_flat_map_concat(pre_order_node(*callee), pre_order_list(args@, 0), f);
            lemma_flat_map_concat(seq![n], pre_order_node(*callee) + pre_order_list(args@, 0), f);
        },
        Node::Await { arg, .. } => {
            lemma_preorder_node(file, scope, *arg);
            lemma_flat_map_concat(seq![n], pre_order_node(*arg), f);
        },
        Node::VarDecl { inits, .. } => {
            lemma_preorder_list(file, scope, inits@, 0);
            lemma_flat_map_concat(seq![n], pre_order_list(inits@, 0), f);
        },
        Node::FnDecl { body, .. } => {
            lemma_preorder_list(file, scope, body@, 0);
            lemma_flat_map_concat(seq![n], pre_order_list(body@, 0), f);
        },
        Node::FnExpr { body, .. } => {
            lemma_preorder_list(file, scope, body@, 0);
            lemma_flat_map_concat(seq![n], pre_order_list(body@, 0), f);
        },
        Node::Other { children, .. } => {
            lemma_preorder_list(file, scope, children@, 0);
            lemma_flat_map_concat(seq![n], pre_order_list(children@, 0), f);
        },
    }
    assert(node_findings(file, scope, n) =~= pre_order_node(n).flat_map(f));
}

proof fn lemma_preorder_list(file: Seq<char>, scope: Scope, ns: Seq<Node>, i: int)
    ensures
        nodes_findings(file, scope, ns, i) == pre_order_list(ns, i).flat_map(
            |m: Node| own_findings(file, scope, m),
        ),
    decreases ns, ns.len() - i,
{
    let f = |m: Node| own_findings(file, scope, m);
    if 0 <= i < ns.len() {
        lemma_preorder_node(file, scope, ns[i]);
        lemma_preorder_list(file, scope, ns, i + 1);
        lemma_flat_map_concat(pre_order_node(ns[i]), pre_order_list(ns, i + 1), f);
    } else {
        assert(pre_order_list(ns, i).map_values(f) =~= Seq::<Seq<FindingModel>>::empty());
        assert(nodes_findings(file, scope, ns, i) =~= pre_order_list(ns, i).flat_map(f));
    }
}

/// Order preservation: a module's findings are the findings of its nodes in
/// depth-first pre-order visitation order — each visited node contributes its
/// own detectors' findings in place.
pub proof fn law_order_preservation(file: Seq<char>, stmts: Seq<Node>)
    ensures
        module_findings(file, stmts) == pre_order_list(stmts, 0).flat_map(
            |m: Node| own_findings(file, spec_scope_of(stmts), m),
        ),
{
    lemma_preorder_list(file, spec_scope_of(stmts), stmts, 0);
}

proof fn lemma_batch_shift(a: Seq<FileInput>, b: Seq<FileInput>, j: int)
    requires
        0 <= j,
    ensures
        batch_findings(a + b, a.len() + j) == batch_findings(b, j),
        batch_errors(a + b, a.len() + j) == batch_errors(b, j),
    decreases b.len() - j,
{
    if j < b.len() {
        assert((a + b)[a.len() + j] == b[j]);
        lemma_batch_shift(a, b, j + 1);
    }
}

proof fn lemma_batch_prefix(a: Seq<FileInput>, b: Seq<FileInput>, i: int)
    requires
        0 <= i <= a.len(),
    ensures
        batch_findings(a + b, i) == batch_findings(a, i) + batch_findings(b, 0),
        batch_errors(a + b, i) == batch_errors(a, i) + batch_errors(b, 0),
    decreases a.len() - i,
{
    if i == a.len() {
        lemma_batch_shift(a, b, 0);
        assert(batch_findings(a, i) + batch_findings(b, 0) =~= batch_findings(b, 0));
        assert(batch_errors(a, i) + batch_errors(b, 0) =~= batch_errors(b, 0));
    } else {
        assert((a + b)[i] == a[i]);
        lemma_batch_prefix(a, b, i + 1);
        assert(batch_findings(a + b, i) =~= batch_findings(a, i) + batch_findings(b, 0));
        assert(batch_errors(a + b, i) =~= batch_errors(a, i) + batch_errors(b, 0));
    }
}

/// File independence: a batch over the concatenation of two input lists
/// yields the concatenation of the two batches' findings, and likewise their
/// failure reports — so per-file results computed independently and then
/// concatenated equal sequential processing.
pub proof fn law_file_independence(a: Seq<FileInput>, b: Seq<FileInput>)
    ensures
        batch_findings(a + b, 0) == batch_findings(a, 0) + batch_findings(b, 0),
        batch_errors(a + b, 0) == batch_errors(a, 0) + batch_errors(b, 0),
{
    lemma_batch_prefix(a, b, 0);
}

} // verus!
