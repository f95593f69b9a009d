//! The finding record the analysis emits, and its mathematical model.
use vstd::prelude::*;

verus! {

/// The two families of detection rule.
#[derive(Clone, Copy, Debug, PartialEq, Eq, Structural)]
pub enum Category {
    /// A client-only capability invoked from a server-only module.
    BoundaryViolation,
    /// A suspend point in a client-capable module that could run server-side.
    OptimizationOpportunity,
}

/// One reported finding. Created by a detector during traversal and never
/// mutated afterward; `line` is at least 1.
#[derive(Debug)]
pub struct Finding {
    pub file: String,
    pub line: usize,
    pub category: Category,
    pub rule_id: String,
    pub message: String,
    pub evidence: String,
}

/// The mathematical model of a finding: the same record over sequences of
/// characters and unbounded integers.
pub ghost struct FindingModel {
    pub file: Seq<char>,
    pub line: nat,
    pub category: Category,
    pub rule_id: Seq<char>,
    pub message: Seq<char>,
    pub evidence: Seq<char>,
}

impl View for Finding {
    type V = FindingModel;

    open spec fn view(&self) -> FindingModel {
        FindingModel {
            file: self.file@,
            line: self.line as nat,
            category: self.category,
            rule_id: self.rule_id@,
            message: self.message@,
            evidence: self.evidence@,
        }
    }
}

/// The models of a sequence of findings, in order.
pub open spec fn finding_views(s: Seq<Finding>) -> Seq<FindingModel> {
    s.map_values(|f: Finding| f@)
}

pub proof fn lemma_finding_views_push(s: Seq<Finding>, f: Finding)
    ensures
        finding_views(s.push(f)) == finding_views(s).push(f@),
{
    assert(finding_views(s.push(f)) =~= finding_views(s).push(f@));
}

pub proof fn lemma_finding_views_concat(a: Seq<Finding>, b: Seq<Finding>)
    ensures
        finding_views(a + b) == finding_views(a) + finding_views(b),
{
    assert(finding_views(a + b) =~= finding_views(a) + finding_views(b));
}

/// The line a source offset is reported on: a fixed-width heuristic of 80
/// bytes per line, kept for compatibility with prior tooling rather than a
/// true newline count.
pub open spec fn line_of(lo: nat) -> nat {
    1 + lo / 80
}

/// Computes [`line_of`] on a machine offset.
pub fn line_of_offset(lo: usize) -> (line: usize)
    ensures
        line as nat == line_of(lo as nat),
{
    1 + lo / 80
}

} // verus!
