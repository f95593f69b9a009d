//! The two scope-aware detection rules.
//!
//! Each detector looks at one node together with the module's scope and
//! yields at most one finding; the tree walker invokes both on every node it
//! visits, boundary violation first.
use vstd::prelude::*;
use crate::finding::{Category, Finding, FindingModel, line_of, line_of_offset};
use crate::scope::Scope;
use crate::tree::Node;

verus! {

/// Whether an identifier names a client-only capability: it starts with the
/// reserved prefix `use` and the following character, if any, is an ASCII
/// uppercase letter. The uppercase requirement keeps ordinary words that
/// merely begin with the prefix (`user`, `useful`) from triggering the rule.
pub open spec fn is_hook_name(name: Seq<char>) -> bool {
    &&& name.len() >= 3
    &&& name[0] == 'u'
    &&& name[1] == 's'
    &&& name[2] == 'e'
    &&& (name.len() > 3 ==> 'A' <= name[3] && name[3] <= 'Z')
}

/// Decides [`is_hook_name`] on an identifier.
pub fn is_client_hook(name: &str) -> (r: bool)
    ensures
        r == is_hook_name(name@),
{
    let n = name.unicode_len();
    if n < 3 {
        return false;
    }
    if name.get_char(0) != 'u' || name.get_char(1) != 's' || name.get_char(2) != 'e' {
        return false;
    }
    if n == 3 {
        return true;
    }
    let c = name.get_char(3);
    'A' <= c && c <= 'Z'
}

/// The client-only capability call site `n` exhibits, if any: `n` must be a
/// call whose callee is a bare identifier satisfying [`is_hook_name`]. The
/// site is the identifier's name and the offset its span starts at; calls
/// reached through member access are deliberately not sites.
pub open spec fn hook_call_site(n: Node) -> Option<(Seq<char>, nat)> {
    match n {
        Node::Call { callee, .. } => match *callee {
            Node::Ident { name, lo } => if is_hook_name(name@) {
                Some((name@, lo as nat))
            } else {
                None
            },
            _ => None,
        },
        _ => None,
    }
}

/// The await site `n` exhibits, if any: the offset the await expression's
/// span starts at. Any await qualifies; the awaited expression's shape is
/// not inspected.
pub open spec fn await_site(n: Node) -> Option<nat> {
    match n {
        Node::Await { lo, .. } => Some(lo as nat),
        _ => None,
    }
}

/// The boundary-violation finding for a capability call site in `file`.
pub open spec fn violation_model(file: Seq<char>, name: Seq<char>, lo: nat) -> FindingModel {
    FindingModel {
        file: file,
        line: line_of(lo),
        category: Category::BoundaryViolation,
        rule_id: "client-hook-in-server-component"@,
        message: "client-only capability invoked in a server-only module"@,
        evidence: name,
    }
}

/// The optimization-opportunity finding for an await site in `file`.
pub open spec fn opportunity_model(file: Seq<char>, lo: nat) -> FindingModel {
    FindingModel {
        file: file,
        line: line_of(lo),
        category: Category::OptimizationOpportunity,
        rule_id: "movable-data-fetch"@,
        message: "data fetching could be moved to a server-evaluated scope"@,
        evidence: "await fetch(...)"@,
    }
}

/// The findings the two detectors emit at `n` under `scope`, in emission
/// order: at most one boundary violation, then at most one optimization
/// opportunity. A capability call is a violation only in server-only scope;
/// an await is an opportunity only in client-capable scope.
pub open spec fn own_findings(file: Seq<char>, scope: Scope, n: Node) -> Seq<FindingModel> {
    let violations = match hook_call_site(n) {
        Some(site) => if scope == Scope::ServerOnly {
            seq![violation_model(file, site.0, site.1)]
        } else {
            Seq::empty()
        },
        None => Seq::empty(),
    };
    let opportunities = match await_site(n) {
        Some(lo) => if scope == Scope::ClientCapable {
            seq![opportunity_model(file, lo)]
        } else {
            Seq::empty()
        },
        None => Seq::empty(),
    };
    violations + opportunities
}

/// Boundary-violation detector: flags a call to a client-only capability
/// identifier occurring in a server-only module.
pub fn boundary_violation_at(file: &String, scope: Scope, n: &Node) -> (r: Option<Finding>)
    ensures
        match r {
            Some(f) => {
                &&& scope == Scope::ServerOnly
                &&& hook_call_site(*n) matches Some(site) && f@ == violation_model(
                    file@,
                    site.0,
                    site.1,
                )
            },
            None => scope != Scope::ServerOnly || hook_call_site(*n) is None,
        },
{
    if scope != Scope::ServerOnly {
        return None;
    }
    match n {
        Node::Call { callee, .. } => match &**callee {
            Node::Ident { name, lo } => {
                if is_client_hook(name.as_str()) {
                    Some(
                        Finding {
                            file: file.clone(),
                            line: line_of_offset(*lo),
                            category: Category::BoundaryViolation,
                            rule_id: String::from_str("client-hook-in-server-component"),
                            message: String::from_str(
                                "client-only capability invoked in a server-only module",
                            ),
                            evidence: name.clone(),
                        },
                    )
                } else {
                    None
                }
            },
            _ => None,
        },
        _ => None,
    }
}

/// Optimization-opportunity detector: flags an await expression occurring in
/// a client-capable module.
pub fn optimization_opportunity_at(file: &String, scope: Scope, n: &Node) -> (r: Option<Finding>)
    ensures
        match r {
            Some(f) => {
                &&& scope == Scope::ClientCapable
                &&& await_site(*n) matches Some(lo) && f@ == opportunity_model(file@, lo)
            },
            None => scope != Scope::ClientCapable || await_site(*n) is None,
        },
{
    if scope != Scope::ClientCapable {
        return None;
    }
    match n {
        Node::Await { lo, .. } => Some(
            Finding {
                file: file.clone(),
                line: line_of_offset(*lo),
                category: Category::OptimizationOpportunity,
                rule_id: String::from_str("movable-data-fetch"),
                message: String::from_str(
                    "data fetching could be moved to a server-evaluated scope",
                ),
                evidence: String::from_str("await fetch(...)"),
            },
        ),
        _ => None,
    }
}

} // verus!
