use oxygen::commands::deps::{self, DependencyRecord, LicenseCount, SizeEntry};
use oxygen::document::Doc;
use oxygen::process::{CommandResult, ExecError, Outcome, Step};
use oxygen::report::Rendered;
use oxygen::DepsAction;
use serde_json::Value;

fn to_json(doc: &Doc) -> Value {
    match doc {
        Doc::Null => Value::Null,
        Doc::Bool(b) => Value::Bool(*b),
        Doc::Number(n) => Value::from(*n),
        Doc::Text(s) => Value::String(s.clone()),
        Doc::List(items) => Value::Array(items.iter().map(to_json).collect()),
        Doc::Record(fields) => {
            let mut m = serde_json::Map::new();
            for f in fields {
                m.insert(f.key.clone(), to_json(&f.value));
            }
            Value::Object(m)
        }
        Doc::Json(v) => v.clone(),
        Doc::Toml(v) => serde_json::to_value(v).unwrap(),
    }
}

fn json(text: &str) -> Value {
    serde_json::from_str(text).unwrap()
}

fn ran(stdout: &str) -> Outcome {
    Outcome::Ran(CommandResult {
        succeeded: true,
        stdout: stdout.to_string(),
        stderr: String::new(),
        elapsed: None,
    })
}

fn failed(line: &str) -> Outcome {
    Outcome::Failed(ExecError { command_line: line.to_string() })
}

fn done(step: Step<Rendered>) -> Rendered {
    match step {
        Step::Done(r) => r,
        Step::Run(c) => panic!("asked for {:?}", c),
    }
}

fn asked(step: Step<Rendered>) -> String {
    match step {
        Step::Run(c) => c.line(),
        Step::Done(r) => panic!("done with {:?}", r),
    }
}

fn record(name: &str, features: Option<&str>, depth: usize) -> DependencyRecord {
    DependencyRecord {
        name: name.to_string(),
        features: features.map(|f| f.to_string()),
        license: None,
        depth,
    }
}

#[test]
fn dependency_tree_depth_is_leading_spaces_by_four() {
    for n in 0..20usize {
        let line = format!("{}serde v1.0", " ".repeat(n));
        let records = deps::parse_dependency_tree(&line);
        assert_eq!(records.len(), 1);
        assert_eq!(records[0].depth, n / 4, "for {} spaces", n);
        assert_eq!(records[0].name, "serde");
        assert_eq!(records[0].features, Some("v1.0".to_string()));
    }
}

#[test]
fn dependency_tree_line_splits_at_its_first_space() {
    let records = deps::parse_dependency_tree("serde 1.0 default,derive");
    assert_eq!(records, vec![record("serde", Some("1.0 default,derive"), 0)]);
}

#[test]
fn dependency_tree_skips_blank_lines_and_keeps_duplicates() {
    let text = "app v0.1.0 \n\n    serde v1.0 derive\n        serde_derive v1.0 (proc-macro)\n   \n    log\n    serde v1.0 derive\n";
    let records = deps::parse_dependency_tree(text);
    assert_eq!(
        records,
        vec![
            record("app", Some("v0.1.0"), 0),
            record("serde", Some("v1.0 derive"), 1),
            record("serde_derive", Some("v1.0 (proc-macro)"), 2),
            record("log", None, 1),
            record("serde", Some("v1.0 derive"), 1),
        ]
    );
}

#[test]
fn dependency_tree_counts_only_leading_white_space() {
    let records = deps::parse_dependency_tree("    log      ");
    assert_eq!(records, vec![record("log", None, 1)]);
    assert!(deps::parse_dependency_tree("").is_empty());
    assert!(deps::parse_dependency_tree("\n  \n\t\n").is_empty());
}

#[test]
fn bloat_lines_need_a_percent_sign_a_unit_and_three_words() {
    let text = " File  .text     Size Crate\n 5.4%  19.2%  83.9KB std\n 1.1%   4.0%  17.5KB my crate name\n 0.0%   0.1%    412B [Unknown]\n12% 3KB\n100% 1.2KB x\nno percent 1KB here\n";
    let entries = deps::parse_bloat_output(text);
    assert_eq!(
        entries,
        vec![
            SizeEntry {
                percentage: "5.4%".to_string(),
                size: "19.2%".to_string(),
                name: "83.9KB std".to_string()
            },
            SizeEntry {
                percentage: "1.1%".to_string(),
                size: "4.0%".to_string(),
                name: "17.5KB my crate name".to_string()
            },
            SizeEntry {
                percentage: "100%".to_string(),
                size: "1.2KB".to_string(),
                name: "x".to_string()
            },
        ]
    );
}

#[test]
fn licenses_are_read_and_tallied_in_order_of_first_appearance() {
    let text = "app v0.1.0 MIT\n    serde v1.0 MIT OR Apache-2.0\n    log\n    weird N/A\n    other v2 MIT OR Apache-2.0\n    last MIT\n    x v1 (path) MIT\n";
    let records = deps::parse_licenses(text);
    let pairs: Vec<(String, String)> =
        records.iter().map(|r| (r.name.clone(), r.license.clone().unwrap())).collect();
    assert_eq!(
        pairs,
        vec![
            ("app".to_string(), "v0.1.0 MIT".to_string()),
            ("serde".to_string(), "v1.0 MIT OR Apache-2.0".to_string()),
            ("other".to_string(), "v2 MIT OR Apache-2.0".to_string()),
            ("last".to_string(), "MIT".to_string()),
            ("x".to_string(), "v1 (path) MIT".to_string()),
        ]
    );
    assert_eq!(records[1].depth, 1);
    let simple = deps::parse_licenses("a MIT\nb Apache-2.0\nc MIT\nd N/A\ne\nf MIT\ng Apache-2.0\n");
    let tally = deps::tally_licenses(&simple);
    assert_eq!(
        tally,
        vec![
            LicenseCount { license: "MIT".to_string(), count: 3 },
            LicenseCount { license: "Apache-2.0".to_string(), count: 2 },
        ]
    );
    let total: usize = tally.iter().map(|t| t.count).sum();
    assert_eq!(total, simple.len());
}

#[test]
fn licenses_rendered_in_both_forms() {
    let r = done(deps::show_licenses(&vec![ran("a MIT\nb Apache-2.0\nc MIT\n")]));
    assert_eq!(r.failure, None);
    assert_eq!(
        to_json(&r.document),
        json(
            r#"{"dependencies":[{"name":"a","license":"MIT"},{"name":"b","license":"Apache-2.0"},{"name":"c","license":"MIT"}],"license_summary":{"MIT":2,"Apache-2.0":1}}"#
        )
    );
    assert_eq!(
        r.lines,
        vec![
            "📜 Dependency Licenses",
            "=====================",
            "License Summary:",
            "  MIT - 2 dependencies",
            "  Apache-2.0 - 1 dependencies",
            "",
            "Individual Dependencies:",
            "  a - MIT",
            "  b - Apache-2.0",
            "  c - MIT",
        ]
    );
    let none = done(deps::show_licenses(&vec![ran("a\nb N/A\n")]));
    assert_eq!(
        none.lines,
        vec!["📜 Dependency Licenses", "=====================", "No license information found"]
    );
    assert_eq!(to_json(&none.document), json(r#"{"dependencies":[],"license_summary":{}}"#));
}

#[test]
fn tree_is_shown_raw_to_a_reader_and_parsed_for_a_machine() {
    assert_eq!(asked(deps::show_dependency_tree(&vec![])), "cargo tree --format {p} {f}");
    let out = "app v0.1.0\n    log v0.4 std\n\n";
    let r = done(deps::show_dependency_tree(&vec![ran(out)]));
    assert_eq!(r.lines, vec!["📦 Dependency Tree", "==================", out]);
    assert_eq!(
        to_json(&r.document),
        json(
            r#"{"dependency_tree":[{"name":"app","features":"v0.1.0","depth":0},{"name":"log","features":"v0.4 std","depth":1}],"raw_output":"app v0.1.0\n    log v0.4 std"}"#
        )
    );
    assert_eq!(r.failure, None);
}

#[test]
fn tree_that_cannot_be_asked_for_is_a_failure() {
    let r = done(deps::show_dependency_tree(&vec![failed("cargo tree")]));
    assert_eq!(r.failure, Some("Failed to run cargo tree".to_string()));
    assert_eq!(
        r.lines,
        vec![
            "❌ Failed to generate dependency tree",
            "💡 Make sure you're in a Rust project with dependencies"
        ]
    );
    assert_eq!(
        to_json(&r.document),
        json(
            r#"{"error":"cargo tree command failed","suggestion":"Make sure you're in a Rust project with dependencies"}"#
        )
    );
}

#[test]
fn outdated_report_is_summarized() {
    let report = json(
        r#"{"dependencies":[{"name":"serde","project":"1.0.1","compat":"1.0.9","latest":"2.0.0"},{"name":"odd","project":1,"compat":"x","latest":"y"},{"name":"log","project":"0.3","compat":"0.3","latest":"0.4"}]}"#,
    );
    assert_eq!(
        deps::outdated_summary(&report),
        vec!["  serde 1.0.1 → 1.0.9 (latest: 2.0.0)", "  log 0.3 → 0.3 (latest: 0.4)"]
    );
    assert_eq!(
        deps::outdated_summary(&json(r#"{"dependencies":[]}"#)),
        vec!["✅ All dependencies are up to date!"]
    );
    assert!(deps::outdated_summary(&json(r#"{"other":1}"#)).is_empty());
    assert!(deps::outdated_summary(&json(r#"{"dependencies":{"a":1}}"#)).is_empty());
    assert!(deps::outdated_summary(&json(r#"[1,2]"#)).is_empty());
}

#[test]
fn outdated_output_that_is_json_is_the_document() {
    assert_eq!(asked(deps::check_outdated_deps(&vec![])), "cargo outdated --format json");
    let out = r#" {"dependencies":[{"name":"a","project":"1","compat":"2","latest":"3"}]} "#;
    let r = done(deps::check_outdated_deps(&vec![ran(out)]));
    assert_eq!(to_json(&r.document), json(out));
    assert_eq!(
        r.lines,
        vec!["📊 Outdated Dependencies", "========================", "  a 1 → 2 (latest: 3)"]
    );
    assert_eq!(r.failure, None);
}

#[test]
fn outdated_output_that_is_no_json_is_kept_raw() {
    let out = "  error: something went wrong\nline two\n";
    let r = done(deps::check_outdated_deps(&vec![ran(out)]));
    assert_eq!(
        to_json(&r.document),
        json(r#"{"raw_output":"error: something went wrong\nline two"}"#)
    );
    assert_eq!(r.lines, vec!["📊 Outdated Dependencies", "========================", out]);
    assert_eq!(r.failure, None);
}

#[test]
fn outdated_tool_that_is_missing_is_a_suggestion() {
    let r = done(deps::check_outdated_deps(&vec![failed("cargo outdated")]));
    assert_eq!(r.failure, None);
    assert_eq!(
        to_json(&r.document),
        json(
            r#"{"error":"cargo outdated not available","suggestion":"Install with: cargo install cargo-outdated"}"#
        )
    );
    assert_eq!(
        r.lines,
        vec!["❌ cargo-outdated not installed", "💡 Install with: cargo install cargo-outdated"]
    );
}

#[test]
fn audit_report_is_summarized() {
    let report = json(
        r#"{"vulnerabilities":[{"package":{"name":"time"},"advisory":{"title":"Segfault","severity":"high"}},{"package":{"name":"nameless"},"advisory":{}},{"package":{},"advisory":{"title":"t"}},{"package":{"name":"noadv"}},{"package":{"name":"num"},"advisory":{"title":7,"severity":"low"}}]}"#,
    );
    assert_eq!(
        deps::audit_summary(&report),
        vec![
            "\u{26a0}\u{fe0f}  Found 5 vulnerability(ies):",
            "  time - Segfault (high)",
            "  nameless - Unknown (Unknown)",
            "  num - Unknown (low)",
        ]
    );
    assert_eq!(
        deps::audit_summary(&json(r#"{"vulnerabilities":[]}"#)),
        vec!["✅ No known security vulnerabilities found!"]
    );
    assert!(deps::audit_summary(&json(r#"{"vulnerabilities":{"count":0}}"#)).is_empty());
    assert!(deps::audit_summary(&json(r#""text""#)).is_empty());
}

#[test]
fn audit_flow_in_both_cases() {
    assert_eq!(asked(deps::audit_dependencies(&vec![])), "cargo audit --format json");
    let out = r#"{"vulnerabilities":[]}"#;
    let r = done(deps::audit_dependencies(&vec![ran(out)]));
    assert_eq!(to_json(&r.document), json(out));
    assert_eq!(
        r.lines,
        vec!["🔒 Security Audit", "================", "✅ No known security vulnerabilities found!"]
    );
    let raw = done(deps::audit_dependencies(&vec![ran("not json")]));
    assert_eq!(to_json(&raw.document), json(r#"{"raw_output":"not json"}"#));
    assert_eq!(raw.lines, vec!["🔒 Security Audit", "================", "not json"]);
    let missing = done(deps::audit_dependencies(&vec![failed("cargo audit")]));
    assert_eq!(
        missing.lines,
        vec!["❌ cargo-audit not installed", "💡 Install with: cargo install cargo-audit"]
    );
    assert_eq!(missing.failure, None);
    assert_eq!(
        to_json(&missing.document),
        json(
            r#"{"error":"cargo audit not available","suggestion":"Install with: cargo install cargo-audit"}"#
        )
    );
}

#[test]
fn sizes_flow_in_both_cases() {
    assert_eq!(asked(deps::analyze_dependency_sizes(&vec![])), "cargo bloat --release --crates");
    let out = "10.0% 20.0% 30KB std\nnoise\n";
    let r = done(deps::analyze_dependency_sizes(&vec![ran(out)]));
    assert_eq!(
        to_json(&r.document),
        json(
            r#"{"size_analysis":[{"percentage":"10.0%","size":"20.0%","crate":"30KB std"}],"raw_output":"10.0% 20.0% 30KB std\nnoise"}"#
        )
    );
    assert_eq!(r.lines, vec!["📊 Dependency Size Analysis", "===========================", out]);
    let missing = done(deps::analyze_dependency_sizes(&vec![failed("cargo bloat")]));
    assert_eq!(
        missing.lines,
        vec![
            "❌ cargo-bloat not installed",
            "💡 Install with: cargo install cargo-bloat",
            "   This tool helps identify which dependencies contribute most to binary size",
        ]
    );
    assert_eq!(missing.failure, None);
}

#[test]
fn licenses_tool_failure_is_soft() {
    assert_eq!(asked(deps::show_licenses(&vec![])), "cargo tree --format {p} {l}");
    let r = done(deps::show_licenses(&vec![failed("cargo tree")]));
    assert_eq!(r.failure, None);
    assert_eq!(
        r.lines,
        vec![
            "❌ Failed to get license information",
            "💡 Make sure you're in a Rust project with dependencies"
        ]
    );
}

#[test]
fn deps_outside_a_project_runs_nothing() {
    for action in [
        DepsAction::Tree,
        DepsAction::Outdated,
        DepsAction::Audit,
        DepsAction::Licenses,
        DepsAction::Size,
    ] {
        for outcomes in [vec![], vec![ran("x")], vec![failed("y"), ran("z")]] {
            let r = done(deps::run(&action, false, &outcomes));
            assert_eq!(r.failure, None);
            assert_eq!(r.lines, vec!["❌ Not in a Rust project (no Cargo.toml found)"]);
            assert_eq!(
                to_json(&r.document),
                json(r#"{"error":"Not in a Rust project directory","is_rust_project":false}"#)
            );
        }
    }
    assert_eq!(deps::outside_project().failure, None);
}

#[test]
fn deps_in_a_project_dispatches_on_the_action() {
    assert_eq!(asked(deps::run(&DepsAction::Tree, true, &vec![])), "cargo tree --format {p} {f}");
    assert_eq!(asked(deps::run(&DepsAction::Outdated, true, &vec![])), "cargo outdated --format json");
    assert_eq!(asked(deps::run(&DepsAction::Audit, true, &vec![])), "cargo audit --format json");
    assert_eq!(asked(deps::run(&DepsAction::Licenses, true, &vec![])), "cargo tree --format {p} {l}");
    assert_eq!(asked(deps::run(&DepsAction::Size, true, &vec![])), "cargo bloat --release --crates");
}
