//! Classification of a module's rendering-mode scope.
//!
//! A module is client-capable if and only if its first top-level statement is
//! an expression statement whose expression is a string literal equal to the
//! directive token, exactly and case-sensitively. The directive anywhere else
//! in the statement list does not count. Classification happens once per
//! module, before any detector runs, and is immutable afterwards.
use vstd::prelude::*;
use crate::tree::{Node, TreeModule};

verus! {

/// The two mutually exclusive rendering-mode scopes a module can occupy.
#[derive(Clone, Copy, Debug, PartialEq, Eq, Structural)]
pub enum Scope {
    ServerOnly,
    ClientCapable,
}

/// The reserved leading string-literal value that switches a module into
/// client-capable scope.
pub open spec fn directive_token() -> Seq<char> {
    "use client"@
}

/// Whether `n`, as a top-level statement, is the scope directive: a string
/// literal whose value equals the directive token.
pub open spec fn is_directive_stmt(n: Node) -> bool {
    match n {
        Node::StrLit { value, .. } => value@ == directive_token(),
        _ => false,
    }
}

/// The scope a top-level statement list declares.
pub open spec fn spec_scope_of(stmts: Seq<Node>) -> Scope {
    if stmts.len() > 0 && is_directive_stmt(stmts[0]) {
        Scope::ClientCapable
    } else {
        Scope::ServerOnly
    }
}

/// Decides the rendering-mode scope of `m` from its top-level statement list
/// alone. Total: every module, including an empty one, gets a classification,
/// and it is `ClientCapable` exactly when the first statement is the
/// directive.
pub fn classify(m: &TreeModule) -> (scope: Scope)
    ensures
        scope == spec_scope_of(m.stmts@),
        scope == Scope::ClientCapable <==> (m.stmts@.len() > 0 && is_directive_stmt(m.stmts@[0])),
{
    if m.stmts.len() == 0 {
        return Scope::ServerOnly;
    }
    match &m.stmts[0] {
        Node::StrLit { value, .. } => {
            let directive = String::from_str("use client");
            if *value == directive {
                Scope::ClientCapable
            } else {
                Scope::ServerOnly
            }
        },
        _ => Scope::ServerOnly,
    }
}

} // verus!
