//! The syntax tree that the analysis engine consumes.
//!
//! A parser (outside this crate) turns source text into this shape. Every
//! node carries the byte offset at which its span starts; the analysis only
//! ever reads span starts, so span ends are not modelled. Constructs with no
//! bearing on the detection rules are collapsed into `Other`, which still
//! carries the children that a depth-first walk must reach, so that the walk
//! is total over arbitrary module shapes.
use vstd::prelude::*;

verus! {

/// One node of a parsed module, tagged with the byte offset of its span start.
///
/// Statements and the expressions they wrap are folded into a single shape:
/// an expression statement consisting of a string literal appears simply as
/// `StrLit` in the top-level statement list.
pub enum Node {
    /// A string literal expression (or expression statement).
    StrLit { value: String, lo: usize },
    /// A bare identifier expression.
    Ident { name: String, lo: usize },
    /// A call expression; `callee` is `Ident` only for bare-identifier calls
    /// (a member-access callee parses to `Other`).
    Call { callee: Box<Node>, args: Vec<Node>, lo: usize },
    /// An await expression.
    Await { arg: Box<Node>, lo: usize },
    /// A variable declaration; one entry per declarator initializer,
    /// in source order (declarators without initializers contribute none).
    VarDecl { inits: Vec<Node>, lo: usize },
    /// A function declaration; `body` is the statement list of its body.
    FnDecl { body: Vec<Node>, lo: usize },
    /// A function or arrow-function expression; `body` as for `FnDecl`.
    FnExpr { body: Vec<Node>, lo: usize },
    /// Any other construct, with the children a depth-first walk descends to,
    /// in source order.
    Other { children: Vec<Node>, lo: usize },
}

/// One parsed module: its top-level statement list, in source order.
pub struct TreeModule {
    pub stmts: Vec<Node>,
}

} // verus!
