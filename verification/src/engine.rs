//! The analysis engine: one module in, one ordered finding list out; and the
//! batch step that strings per-file results together.
//!
//! Analysis of one module is a pure, synchronous computation: it classifies
//! the module's scope once, performs one depth-first pre-order walk with a
//! fresh collector, and returns the findings in discovery order. A batch of
//! files is analyzed file by file; a file whose parse failed is reported and
//! skipped, and never disturbs the other files' results.
use vstd::prelude::*;
use crate::finding::{Finding, FindingModel, finding_views};
use crate::scope::{classify, spec_scope_of};
use crate::tree::{Node, TreeModule};
use crate::walker::{FindingCollector, nodes_findings, walk_nodes};

verus! {

/// The findings analysis of one module yields: those of a depth-first
/// pre-order walk of its top-level statements, under the scope the statement
/// list declares, each tagged with the module's file path.
pub open spec fn module_findings(file: Seq<char>, stmts: Seq<Node>) -> Seq<FindingModel> {
    nodes_findings(file, spec_scope_of(stmts), stmts, 0)
}

/// Analyzes one parsed module: classifies its scope, walks the tree once,
/// and returns the findings in discovery order. Total over every tree shape.
pub fn analyze_module(file: &String, m: &TreeModule) -> (findings: Vec<Finding>)
    ensures
        finding_views(findings@) == module_findings(file@, m.stmts@),
{
    let scope = classify(m);
    let mut collector = FindingCollector::new();
    walk_nodes(file, scope, &m.stmts, 0, &mut collector);
    proof {
        assert(collector@ =~= module_findings(file@, m.stmts@));
    }
    collector.finalize()
}

/// What the parser produced for one file: a syntax tree, or the message of
/// the parse failure.
pub enum ParseOutcome {
    Parsed(TreeModule),
    Failed(String),
}

/// One file handed to a batch run: its path and its parse outcome.
pub struct FileInput {
    pub path: String,
    pub outcome: ParseOutcome,
}

/// A per-file failure report: which file, and why.
pub struct FileError {
    pub path: String,
    pub message: String,
}

/// The mathematical model of a per-file failure report.
pub ghost struct FileErrorModel {
    pub path: Seq<char>,
    pub message: Seq<char>,
}

impl View for FileError {
    type V = FileErrorModel;

    open spec fn view(&self) -> FileErrorModel {
        FileErrorModel { path: self.path@, message: self.message@ }
    }
}

/// The models of a sequence of failure reports, in order.
pub open spec fn error_views(s: Seq<FileError>) -> Seq<FileErrorModel> {
    s.map_values(|e: FileError| e@)
}

/// What a batch run returns: every finding of every file that parsed, files
/// in input order, and a failure report for every file that did not.
pub struct BatchReport {
    pub findings: Vec<Finding>,
    pub errors: Vec<FileError>,
}

/// The findings a batch of files from `inputs[i..]` yields: the findings of
/// each parsed file in input order; failed files contribute none.
pub open spec fn batch_findings(inputs: Seq<FileInput>, i: int) -> Seq<FindingModel>
    decreases inputs.len() - i,
{
    if i < 0 || i >= inputs.len() {
        Seq::empty()
    } else {
        (match inputs[i].outcome {
            ParseOutcome::Parsed(m) => module_findings(inputs[i].path@, m.stmts@),
            ParseOutcome::Failed(_) => Seq::empty(),
        }) + batch_findings(inputs, i + 1)
    }
}

/// The failure reports a batch of files from `inputs[i..]` yields: one per
/// failed file, in input order.
pub open spec fn batch_errors(inputs: Seq<FileInput>, i: int) -> Seq<FileErrorModel>
    decreases inputs.len() - i,
{
    if i < 0 || i >= inputs.len() {
        Seq::empty()
    } else {
        (match inputs[i].outcome {
            ParseOutcome::Parsed(_) => Seq::empty(),
            ParseOutcome::Failed(msg) => seq![
                FileErrorModel { path: inputs[i].path@, message: msg@ },
            ],
        }) + batch_errors(inputs, i + 1)
    }
}

/// Analyzes a batch of files, one at a time and each independently. A file
/// whose parse failed is reported in `errors` and skipped; every other file's
/// findings appear unchanged, concatenated in input order.
pub fn analyze_batch(inputs: &Vec<FileInput>) -> (report: BatchReport)
    ensures
        finding_views(report.findings@) == batch_findings(inputs@, 0),
        error_views(report.errors@) == batch_errors(inputs@, 0),
{
    let mut findings: Vec<Finding> = Vec::new();
    let mut errors: Vec<FileError> = Vec::new();
    let mut i: usize = 0;
    proof {
        assert(finding_views(findings@) =~= Seq::<FindingModel>::empty());
        assert(error_views(errors@) =~= Seq::<FileErrorModel>::empty());
    }
    while i < inputs.len()
        invariant
            i <= inputs.len(),
            finding_views(findings@) + batch_findings(inputs@, i as int) == batch_findings(
                inputs@,
                0,
            ),
            error_views(errors@) + batch_errors(inputs@, i as int) == batch_errors(inputs@, 0),
        decreases inputs.len() - i,
    {
        let ghost prev_findings = findings@;
        let ghost prev_errors = errors@;
        match &inputs[i].outcome {
            ParseOutcome::Parsed(m) => {
                let mut file_findings = analyze_module(&inputs[i].path, m);
                let ghost file_views = file_findings@;
                findings.append(&mut file_findings);
                proof {
                    crate::finding::lemma_finding_views_concat(prev_findings, file_views);
                }
            },
            ParseOutcome::Failed(msg) => {
                let e = FileError { path: inputs[i].path.clone(), message: msg.clone() };
                errors.push(e);
                proof {
                    assert(error_views(errors@) =~= error_views(prev_errors).push(e@));
                }
            },
        }
        i = i + 1;
        proof {
            assert(finding_views(findings@) + batch_findings(inputs@, i as int) =~= batch_findings(
                inputs@,
                0,
            ));
            assert(error_views(errors@) + batch_errors(inputs@, i as int) =~= batch_errors(
                inputs@,
                0,
            ));
        }
    }
    BatchReport { findings, errors }
}

} // verus!
