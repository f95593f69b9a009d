use component_scope_lint::engine::{analyze_batch, analyze_module, FileInput, ParseOutcome};
use component_scope_lint::finding::{Category, Finding};
use component_scope_lint::scope::{classify, Scope};
use component_scope_lint::tree::{Node, TreeModule};

fn ident(name: &str, lo: usize) -> Node {
    Node::Ident { name: name.to_string(), lo }
}

fn strlit(value: &str, lo: usize) -> Node {
    Node::StrLit { value: value.to_string(), lo }
}

fn call(callee: Node, args: Vec<Node>, lo: usize) -> Node {
    Node::Call { callee: Box::new(callee), args, lo }
}

fn await_expr(arg: Node, lo: usize) -> Node {
    Node::Await { arg: Box::new(arg), lo }
}

fn var_decl(inits: Vec<Node>, lo: usize) -> Node {
    Node::VarDecl { inits, lo }
}

fn fn_decl(body: Vec<Node>, lo: usize) -> Node {
    Node::FnDecl { body, lo }
}

fn fn_expr(body: Vec<Node>, lo: usize) -> Node {
    Node::FnExpr { body, lo }
}

fn other(children: Vec<Node>, lo: usize) -> Node {
    Node::Other { children, lo }
}

fn module(stmts: Vec<Node>) -> TreeModule {
    TreeModule { stmts }
}

fn analyze(m: &TreeModule) -> Vec<Finding> {
    analyze_module(&"test.tsx".to_string(), m)
}

fn directive(lo: usize) -> Node {
    strlit("use client", lo)
}

#[test]
fn client_directive_with_hook_call_yields_no_findings() {
    // "use client" followed by `const [x, setX] = useState(0);`
    let m = module(vec![
        directive(0),
        var_decl(vec![call(ident("useState", 31), vec![other(vec![], 40)], 31)], 13),
    ]);
    assert_eq!(classify(&m), Scope::ClientCapable);
    let findings = analyze(&m);
    assert_eq!(findings.len(), 0);
}

#[test]
fn server_hook_call_inside_function_is_one_violation() {
    // `function Page() { const [x] = useState(0); return x; }`, no directive
    let m = module(vec![fn_decl(
        vec![
            var_decl(vec![call(ident("useState", 31), vec![other(vec![], 40)], 31)], 18),
            other(vec![ident("x", 51)], 44),
        ],
        0,
    )]);
    assert_eq!(classify(&m), Scope::ServerOnly);
    let findings = analyze(&m);
    assert_eq!(findings.len(), 1);
    let f = &findings[0];
    assert_eq!(f.file, "test.tsx");
    assert_eq!(f.category, Category::BoundaryViolation);
    assert_eq!(f.rule_id, "client-hook-in-server-component");
    assert_eq!(f.evidence, "useState");
    assert_eq!(f.line, 1);
}

#[test]
fn client_await_is_one_opportunity() {
    // `"use client"; async function Widget() { const data = await fetch("/api"); ... }`
    let m = module(vec![
        directive(0),
        fn_decl(
            vec![
                var_decl(
                    vec![await_expr(
                        call(ident("fetch", 60), vec![strlit("/api", 66)], 60),
                        54,
                    )],
                    41,
                ),
                other(vec![ident("data", 89)], 82),
            ],
            14,
        ),
    ]);
    assert_eq!(classify(&m), Scope::ClientCapable);
    let findings = analyze(&m);
    assert_eq!(findings.len(), 1);
    let f = &findings[0];
    assert_eq!(f.category, Category::OptimizationOpportunity);
    assert_eq!(f.rule_id, "movable-data-fetch");
    assert_eq!(f.message, "data fetching could be moved to a server-evaluated scope");
    assert_eq!(f.evidence, "await fetch(...)");
    assert_eq!(f.line, 1);
}

#[test]
fn empty_module_is_server_only_with_no_findings() {
    let m = module(vec![]);
    assert_eq!(classify(&m), Scope::ServerOnly);
    assert_eq!(analyze(&m).len(), 0);
}

#[test]
fn nested_arrow_body_is_reached_but_client_scope_keeps_it_clean() {
    // `"use client"; function f(){ const inner = () => { useEffect(() => {}); }; }`
    let m = module(vec![
        directive(0),
        fn_decl(
            vec![var_decl(
                vec![fn_expr(
                    vec![call(ident("useEffect", 50), vec![fn_expr(vec![], 60)], 50)],
                    41,
                )],
                28,
            )],
            14,
        ),
    ]);
    assert_eq!(classify(&m), Scope::ClientCapable);
    let findings = analyze(&m);
    assert_eq!(findings.len(), 0);
}

#[test]
fn parse_failure_is_isolated_to_its_file() {
    let broken = FileInput {
        path: "broken.tsx".to_string(),
        outcome: ParseOutcome::Failed("unbalanced braces".to_string()),
    };
    let good = FileInput {
        path: "good.tsx".to_string(),
        outcome: ParseOutcome::Parsed(module(vec![call(ident("useState", 0), vec![], 0)])),
    };
    let report = analyze_batch(&vec![broken, good]);
    assert_eq!(report.errors.len(), 1);
    assert_eq!(report.errors[0].path, "broken.tsx");
    assert_eq!(report.errors[0].message, "unbalanced braces");
    assert_eq!(report.findings.len(), 1);
    assert_eq!(report.findings[0].file, "good.tsx");
    assert_eq!(report.findings[0].evidence, "useState");
}

#[test]
fn directive_counts_only_in_first_position() {
    let m = module(vec![
        other(vec![], 0),
        directive(10),
        call(ident("useState", 30), vec![], 30),
    ]);
    assert_eq!(classify(&m), Scope::ServerOnly);
    let findings = analyze(&m);
    assert_eq!(findings.len(), 1);
    assert_eq!(findings[0].evidence, "useState");
}

#[test]
fn directive_match_is_exact_and_case_sensitive() {
    assert_eq!(classify(&module(vec![strlit("use strict", 0)])), Scope::ServerOnly);
    assert_eq!(classify(&module(vec![strlit("Use Client", 0)])), Scope::ServerOnly);
    assert_eq!(classify(&module(vec![strlit("use client ", 0)])), Scope::ServerOnly);
    assert_eq!(classify(&module(vec![directive(0)])), Scope::ClientCapable);
}

#[test]
fn hook_predicate_requires_prefix_and_uppercase_follower() {
    let m = module(vec![
        call(ident("use", 0), vec![], 0),
        call(ident("useState", 10), vec![], 10),
        call(ident("user", 20), vec![], 20),
        call(ident("useful", 30), vec![], 30),
        call(ident("usestate", 40), vec![], 40),
        call(ident("us", 50), vec![], 50),
    ]);
    let findings = analyze(&m);
    let evidence: Vec<&str> = findings.iter().map(|f| f.evidence.as_str()).collect();
    assert_eq!(evidence, vec!["use", "useState"]);
}

#[test]
fn nested_hook_call_is_reported_independently() {
    // useMemo(useState()) in server scope: both calls are violations, outer first.
    let m = module(vec![call(
        ident("useMemo", 0),
        vec![call(ident("useState", 8), vec![], 8)],
        0,
    )]);
    let findings = analyze(&m);
    let evidence: Vec<&str> = findings.iter().map(|f| f.evidence.as_str()).collect();
    assert_eq!(evidence, vec!["useMemo", "useState"]);
}

#[test]
fn member_access_callee_is_not_detected() {
    // A call whose callee is not a bare identifier is never a violation,
    // even if a hook-like identifier appears inside the callee expression.
    let m = module(vec![call(other(vec![ident("useState", 0)], 0), vec![], 0)]);
    assert_eq!(analyze(&m).len(), 0);
}

#[test]
fn every_await_in_client_scope_is_flagged_in_preorder() {
    let m = module(vec![
        directive(0),
        await_expr(await_expr(ident("p", 810), 805), 800),
        await_expr(ident("q", 1620), 1615),
    ]);
    let findings = analyze(&m);
    let lines: Vec<usize> = findings.iter().map(|f| f.line).collect();
    assert_eq!(lines, vec![11, 11, 21]);
    assert!(findings.iter().all(|f| f.category == Category::OptimizationOpportunity));
}

#[test]
fn awaits_in_server_scope_are_ignored() {
    let m = module(vec![await_expr(ident("p", 6), 0)]);
    assert_eq!(analyze(&m).len(), 0);
}

#[test]
fn hook_calls_in_client_scope_are_ignored_at_any_depth() {
    let m = module(vec![
        directive(0),
        call(ident("useState", 13), vec![], 13),
        fn_decl(vec![var_decl(vec![call(ident("useEffect", 60), vec![], 60)], 50)], 30),
    ]);
    assert_eq!(analyze(&m).len(), 0);
}

#[test]
fn line_heuristic_is_one_plus_offset_over_eighty() {
    let m = module(vec![
        call(ident("useA", 0), vec![], 0),
        call(ident("useB", 79), vec![], 79),
        call(ident("useC", 80), vec![], 80),
        call(ident("useD", 159), vec![], 159),
        call(ident("useE", 160), vec![], 160),
    ]);
    let lines: Vec<usize> = analyze(&m).iter().map(|f| f.line).collect();
    assert_eq!(lines, vec![1, 1, 2, 2, 3]);
}

#[test]
fn violation_line_comes_from_identifier_not_call() {
    // Call span starts on one line, callee identifier on a later one.
    let m = module(vec![call(ident("useThing", 240), vec![], 75)]);
    let findings = analyze(&m);
    assert_eq!(findings.len(), 1);
    assert_eq!(findings[0].line, 4);
}

#[test]
fn batch_findings_equal_per_file_concatenation() {
    let m1 = module(vec![call(ident("useState", 5), vec![], 5)]);
    let m2 = module(vec![directive(0), await_expr(ident("p", 20), 15)]);

    let solo1 = analyze_module(&"one.tsx".to_string(), &m1);
    let solo2 = analyze_module(&"two.tsx".to_string(), &m2);

    let batch = analyze_batch(&vec![
        FileInput { path: "one.tsx".to_string(), outcome: ParseOutcome::Parsed(m1) },
        FileInput { path: "two.tsx".to_string(), outcome: ParseOutcome::Parsed(m2) },
    ]);
    assert_eq!(batch.errors.len(), 0);
    assert_eq!(batch.findings.len(), solo1.len() + solo2.len());
    for (got, want) in batch.findings.iter().zip(solo1.iter().chain(solo2.iter())) {
        assert_eq!(got.file, want.file);
        assert_eq!(got.line, want.line);
        assert_eq!(got.category, want.category);
        assert_eq!(got.rule_id, want.rule_id);
        assert_eq!(got.message, want.message);
        assert_eq!(got.evidence, want.evidence);
    }
}

#[test]
fn unmatched_shapes_are_silently_skipped() {
    // Deeply nested constructs that no detector matches yield nothing and
    // never fail.
    let deep = other(
        vec![other(vec![other(vec![strlit("use client", 90), ident("x", 95)], 80)], 70)],
        60,
    );
    let m = module(vec![other(vec![], 0), deep]);
    assert_eq!(analyze(&m).len(), 0);
}
