use propchain::audit::{
    calculate_score, contains, count_advisories, count_occurrences, diagnose_value, matches_at,
    scan_advisories, scan_source, tally_clippy, ClippyTally, DependencyScanResults, Diagnostic,
    SourceFindings, StaticAnalysisResults,
};
use serde_json::{Number, Value};

fn text(s: &str) -> Value {
    Value::String(s.to_string())
}

fn object(members: Vec<(&str, Value)>) -> Value {
    let mut map = serde_json::Map::new();
    for (key, value) in members {
        map.insert(key.to_string(), value);
    }
    Value::Object(map)
}

fn diagnostic(level: &str, code: Option<&str>) -> Value {
    let message = match code {
        Some(code) => object(vec![("code", object(vec![("code", text(code))]))]),
        None => object(vec![("code", Value::Null)]),
    };
    object(vec![("level", text(level)), ("message", message)])
}

fn analysis(errors: usize, warnings: usize, complexity: usize, unsafe_blocks: usize) -> StaticAnalysisResults {
    StaticAnalysisResults {
        clippy_warnings: warnings,
        clippy_errors: errors,
        complexity_warnings: complexity,
        unsafe_blocks,
        todos_found: 1_000,
    }
}

fn scan(vulnerabilities: usize) -> DependencyScanResults {
    DependencyScanResults { vulnerabilities, warnings: 1_000 }
}

#[test]
fn score_formula() {
    assert_eq!(calculate_score(&analysis(0, 0, 0, 0), &scan(0)), 100);
    assert_eq!(calculate_score(&analysis(1, 0, 0, 0), &scan(0)), 90);
    assert_eq!(calculate_score(&analysis(0, 1, 0, 0), &scan(0)), 98);
    assert_eq!(calculate_score(&analysis(0, 0, 1, 0), &scan(0)), 95);
    assert_eq!(calculate_score(&analysis(0, 0, 0, 1), &scan(0)), 95);
    assert_eq!(calculate_score(&analysis(0, 0, 0, 0), &scan(1)), 80);
    assert_eq!(calculate_score(&analysis(2, 3, 1, 4), &scan(2)), 100 - 20 - 6 - 5 - 20 - 40);
    assert_eq!(calculate_score(&analysis(10, 0, 0, 0), &scan(0)), 0);
    assert_eq!(calculate_score(&analysis(11, 50, 0, 0), &scan(9)), 0);
    assert_eq!(calculate_score(&analysis(9, 5, 0, 0), &scan(0)), 0);
    assert_eq!(calculate_score(&analysis(9, 4, 0, 0), &scan(0)), 2);
}

#[test]
fn occurrences_do_not_overlap() {
    assert_eq!(count_occurrences(b"aaaa", b"aa"), 2);
    assert_eq!(count_occurrences(b"aaaaa", b"aa"), 2);
    assert_eq!(count_occurrences(b"abababa", b"aba"), 2);
    assert_eq!(count_occurrences(b"", b"a"), 0);
    assert_eq!(count_occurrences(b"abc", b""), 0);
    assert_eq!(count_occurrences(b"ab", b"abc"), 0);
    assert_eq!(count_occurrences(b"abc", b"abc"), 1);
    assert_eq!(count_occurrences(b"xTODOyTODO", b"TODO"), 2);
    assert!(matches_at(b"hello", b"ll", 2));
    assert!(!matches_at(b"hello", b"ll", 1));
    assert!(matches_at(b"hello", b"", 5));
    assert!(contains(b"cognitive_complexity", b"complexity"));
    assert!(contains(b"complexity", b"complexity"));
    assert!(!contains(b"complexit", b"complexity"));
    assert!(contains(b"", b""));
    assert!(contains(b"abc", b""));
    assert!(contains(b"abc", b"c"));
    assert!(!contains(b"abc", b"d"));
}

#[test]
fn source_scan_counts_markers() {
    let source = "fn f() { unsafe { g() } } // TODO: check\n// FIXME later, TODO again\nunsafe fn h() {}\nunsafe {}";
    assert_eq!(scan_source(source.as_bytes()), SourceFindings { unsafe_blocks: 2, todos_found: 3 });
    assert_eq!(scan_source(b""), SourceFindings { unsafe_blocks: 0, todos_found: 0 });
    assert_eq!(scan_source(b"TODOTODOFIXMEFIXME"), SourceFindings { unsafe_blocks: 0, todos_found: 4 });
    let counted = source.matches("unsafe {").count();
    assert_eq!(scan_source(source.as_bytes()).unsafe_blocks, counted);
}

#[test]
fn diagnostics_by_level_and_code() {
    assert_eq!(diagnose_value(&diagnostic("error", None)), Diagnostic::Error);
    assert_eq!(
        diagnose_value(&diagnostic("warning", None)),
        Diagnostic::Warning { complexity: false }
    );
    assert_eq!(
        diagnose_value(&diagnostic("warning", Some("clippy::cognitive_complexity"))),
        Diagnostic::Warning { complexity: true }
    );
    assert_eq!(
        diagnose_value(&diagnostic("warning", Some("clippy::needless_return"))),
        Diagnostic::Warning { complexity: false }
    );
    assert_eq!(
        diagnose_value(&diagnostic("error", Some("clippy::cognitive_complexity"))),
        Diagnostic::Error
    );
    assert_eq!(diagnose_value(&diagnostic("note", None)), Diagnostic::Other);
    assert_eq!(diagnose_value(&diagnostic("Warning", None)), Diagnostic::Other);
    assert_eq!(diagnose_value(&diagnostic("warnings", None)), Diagnostic::Other);
    assert_eq!(diagnose_value(&object(vec![("level", Value::Bool(true))])), Diagnostic::Other);
    assert_eq!(diagnose_value(&object(vec![("Level", text("error"))])), Diagnostic::Other);
    assert_eq!(diagnose_value(&text("error")), Diagnostic::Other);
    assert_eq!(diagnose_value(&Value::Array(vec![text("level"), text("error")])), Diagnostic::Other);
    assert_eq!(diagnose_value(&Value::Null), Diagnostic::Other);
    assert_eq!(
        diagnose_value(&object(vec![("level", text("warning")), ("message", text("complexity"))])),
        Diagnostic::Warning { complexity: false }
    );
    assert_eq!(
        diagnose_value(&object(vec![
            ("level", text("warning")),
            ("message", object(vec![("code", text("complexity"))])),
        ])),
        Diagnostic::Warning { complexity: false }
    );
}

#[test]
fn linter_output_is_tallied_by_the_line() {
    let output = concat_lines(&[
        r#"{"reason":"compiler-artifact","package_id":"x"}"#,
        r#"{"level":"warning","message":{"code":{"code":"clippy::cognitive_complexity"}}}"#,
        r#"{"level":"warning","message":{"code":null}}"#,
        "not json at all",
        r#"{"level":"error","message":{}}"#,
        "",
        r#"  {"level" : "warning", "message": {"code": {"code": "clippy::type_complexity", "explanation": null}}}  "#,
        r#"{"level":"error""#,
        r#"{"level":"help"}"#,
    ]);
    assert_eq!(
        tally_clippy(output.as_bytes()),
        ClippyTally { warnings: 3, errors: 1, complexity_warnings: 2 }
    );
    assert_eq!(
        tally_clippy(b""),
        ClippyTally { warnings: 0, errors: 0, complexity_warnings: 0 }
    );
    assert_eq!(
        tally_clippy(b"\n\n\n"),
        ClippyTally { warnings: 0, errors: 0, complexity_warnings: 0 }
    );
    assert_eq!(
        tally_clippy(b"{\"level\":\"error\"}"),
        ClippyTally { warnings: 0, errors: 1, complexity_warnings: 0 }
    );
    assert_eq!(
        tally_clippy(b"{\"level\":\"error\"}\r\n{\"level\":\"error\"}\r\n"),
        ClippyTally { warnings: 0, errors: 2, complexity_warnings: 0 }
    );
    assert_eq!(
        tally_clippy(b"{\"level\":\n\"error\"}"),
        ClippyTally { warnings: 0, errors: 0, complexity_warnings: 0 }
    );
}

fn concat_lines(lines: &[&str]) -> String {
    let mut out = String::new();
    for line in lines {
        out.push_str(line);
        out.push('\n');
    }
    out
}

#[test]
fn advisories_are_counted() {
    let report = object(vec![
        (
            "vulnerabilities",
            object(vec![
                ("found", Value::Bool(true)),
                ("count", Value::Number(Number::from(2))),
                ("list", Value::Array(vec![object(vec![]), object(vec![])])),
            ]),
        ),
        (
            "warnings",
            object(vec![
                ("unmaintained", Value::Array(vec![])),
                ("yanked", Value::Array(vec![])),
                ("unsound", Value::Array(vec![])),
            ]),
        ),
    ]);
    assert_eq!(count_advisories(&report), DependencyScanResults { vulnerabilities: 2, warnings: 3 });
    assert_eq!(
        count_advisories(&object(vec![])),
        DependencyScanResults { vulnerabilities: 0, warnings: 0 }
    );
    assert_eq!(
        count_advisories(&object(vec![
            ("vulnerabilities", Value::Array(vec![Value::Null])),
            ("warnings", Value::Array(vec![Value::Null])),
        ])),
        DependencyScanResults { vulnerabilities: 0, warnings: 0 }
    );
    assert_eq!(
        count_advisories(&object(vec![(
            "vulnerabilities",
            object(vec![("list", object(vec![("a", Value::Null)]))]),
        )])),
        DependencyScanResults { vulnerabilities: 0, warnings: 0 }
    );
    assert_eq!(
        scan_advisories(
            br#"{"vulnerabilities":{"found":true,"list":[{"advisory":{}},{"advisory":{}},{}]},"warnings":{"yanked":[1,2]}}"#
        ),
        DependencyScanResults { vulnerabilities: 3, warnings: 1 }
    );
    assert_eq!(
        scan_advisories(b"error: no such command"),
        DependencyScanResults { vulnerabilities: 0, warnings: 0 }
    );
    assert_eq!(scan_advisories(b""), DependencyScanResults { vulnerabilities: 0, warnings: 0 });
}
