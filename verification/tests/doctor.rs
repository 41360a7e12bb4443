use oxygen::commands::doctor::{self, DiagnosticCheck, DoctorReport, Surroundings};
use oxygen::document::Doc;
use oxygen::process::{Command, CommandResult, ExecError, Outcome, Step};
use oxygen::report::Status;
use serde_json::Value;

fn to_json(doc: &Doc) -> Value {
    match doc {
        Doc::Null => Value::Null,
        Doc::Bool(b) => Value::Bool(*b),
        Doc::Number(n) => Value::from(*n),
        Doc::Text(s) => Value::String(s.clone()),
        Doc::List(items) => Value::Array(items.iter().map(to_json).collect()),
        Doc::Record(fields) => {
            let mut m = serde_json::Map::new();
            for f in fields {
                m.insert(f.key.clone(), to_json(&f.value));
            }
            Value::Object(m)
        }
        Doc::Json(v) => v.clone(),
        Doc::Toml(v) => serde_json::to_value(v).unwrap(),
    }
}

fn ran(stdout: &str) -> Outcome {
    Outcome::Ran(CommandResult {
        succeeded: true,
        stdout: stdout.to_string(),
        stderr: String::new(),
        elapsed: None,
    })
}

fn failed(line: &str) -> Outcome {
    Outcome::Failed(ExecError { command_line: line.to_string() })
}

fn around(path: Option<&str>) -> Surroundings {
    Surroundings {
        cargo_home: Some("/home/u/.cargo".to_string()),
        rustup_home: None,
        path: path.map(|p| p.to_string()),
        in_project: true,
    }
}

fn all_found() -> Vec<Outcome> {
    vec![
        ran("rustc 1.80.0 (abc 2024-07-21)\n"),
        ran("cargo 1.80.0\n"),
        ran("Default host: x86_64\n\ninstalled toolchains\n--------\nstable (default)\n\nactive toolchain\n----\n  stable-x86_64 (default)\n"),
        ran("clippy 0.1.80\n"),
        ran("rustfmt 1.7.0-stable\n"),
    ]
}

fn report(outcomes: &Vec<Outcome>, around: &Surroundings) -> DoctorReport {
    match doctor::next(outcomes, around) {
        Step::Done(r) => r,
        Step::Run(c) => panic!("asked for {:?}", c),
    }
}

fn line(c: &Command) -> String {
    c.line()
}

#[test]
fn doctor_runs_its_five_commands_in_order() {
    let a = around(Some("/usr/bin"));
    let mut outcomes: Vec<Outcome> = Vec::new();
    let mut asked = Vec::new();
    loop {
        match doctor::next(&outcomes, &a) {
            Step::Run(c) => {
                asked.push(line(&c));
                assert!(!c.timed);
                // every one of them fails to start, and the next one is asked for all the same
                outcomes.push(failed(&line(&c)));
            }
            Step::Done(r) => {
                assert_eq!(r.checks.len(), 9);
                assert!(!r.healthy);
                break;
            }
        }
    }
    assert_eq!(
        asked,
        vec![
            "rustc --version",
            "cargo --version",
            "rustup show",
            "cargo clippy --version",
            "cargo fmt --version"
        ]
    );
}

#[test]
fn doctor_command_gives_each_command() {
    assert_eq!(doctor::doctor_command(0).program, "rustc");
    assert_eq!(doctor::doctor_command(2).args, vec!["show"]);
    assert_eq!(doctor::doctor_command(4).args, vec!["fmt", "--version"]);
}

#[test]
fn doctor_is_healthy_when_everything_is_found() {
    let r = report(&all_found(), &around(Some("/home/u/.cargo/bin:/usr/bin")));
    assert!(r.healthy);
    assert_eq!(
        r.checks[0],
        DiagnosticCheck {
            name: "Rust Compiler".to_string(),
            status: Status::Success,
            message: "rustc is available".to_string(),
            value: Some("rustc 1.80.0 (abc 2024-07-21)".to_string()),
        }
    );
    assert_eq!(r.checks[1].name, "Cargo");
    assert_eq!(r.checks[1].value, Some("cargo 1.80.0".to_string()));
    assert_eq!(r.checks[2].name, "Rustup");
    assert_eq!(r.checks[2].value, Some("active toolchain".to_string()));
    assert_eq!(r.checks[3].name, "Tool: clippy");
    assert_eq!(r.checks[3].message, "clippy is available");
    assert_eq!(r.checks[4].name, "Tool: rustfmt");
    assert_eq!(r.checks[5].name, "Environment: CARGO_HOME");
    assert_eq!(r.checks[5].message, "CARGO_HOME is set");
    assert_eq!(r.checks[5].status, Status::Success);
    assert_eq!(r.checks[6].name, "Environment: RUSTUP_HOME");
    assert_eq!(r.checks[6].message, "RUSTUP_HOME is not set");
    assert_eq!(r.checks[6].status, Status::Warning);
    assert_eq!(r.checks[6].value, None);
    assert_eq!(r.checks[7].name, "Environment: PATH");
    assert_eq!(r.checks[7].status, Status::Success);
    assert_eq!(r.checks[8].name, "Current Directory");
    assert_eq!(r.checks[8].message, "In a Rust project directory");
}

#[test]
fn doctor_missing_compiler_means_issues_whatever_else_is_found() {
    let mut outcomes = all_found();
    outcomes[0] = failed("rustc --version");
    let r = report(&outcomes, &around(Some("/home/u/.cargo/bin")));
    assert!(!r.healthy);
    assert_eq!(r.checks[0].status, Status::Error);
    assert_eq!(r.checks[0].message, "rustc not found in PATH");
    assert_eq!(r.checks[0].value, None);
    assert_eq!(r.checks.len(), 9);
}

#[test]
fn doctor_missing_optional_tool_leaves_it_healthy() {
    let mut outcomes = all_found();
    outcomes[2] = failed("rustup show");
    let r = report(&outcomes, &around(Some("/home/u/.cargo/bin")));
    assert!(r.healthy);
    assert_eq!(r.checks[2].status, Status::Warning);
    assert_eq!(r.checks[2].message, "rustup not found - toolchain management unavailable");
}

#[test]
fn doctor_each_required_check_flips_the_verdict() {
    for i in [0usize, 1, 3, 4] {
        let mut outcomes = all_found();
        outcomes[i] = failed("x");
        assert!(!report(&outcomes, &around(Some("cargo"))).healthy, "check {}", i);
    }
    assert!(!report(&all_found(), &around(None)).healthy);
    let r = report(&all_found(), &around(None));
    assert_eq!(r.checks[7].status, Status::Error);
    assert_eq!(r.checks[7].message, "PATH is not set");
}

#[test]
fn doctor_a_tool_that_exits_with_an_error_still_counts_as_found() {
    let mut outcomes = all_found();
    outcomes[3] = Outcome::Ran(CommandResult {
        succeeded: false,
        stdout: String::new(),
        stderr: "error: no such command".to_string(),
        elapsed: None,
    });
    let r = report(&outcomes, &around(Some("cargo")));
    assert!(r.healthy);
    assert_eq!(r.checks[3].status, Status::Success);
    assert_eq!(r.checks[3].value, Some(String::new()));
}

#[test]
fn doctor_search_path_without_cargo_draws_a_warning() {
    let r = report(&all_found(), &around(Some("/usr/bin:/bin")));
    assert_eq!(r.checks[7].status, Status::Warning);
    assert_eq!(r.checks[7].message, "PATH is set");
    assert!(r.healthy);
}

#[test]
fn doctor_rustup_without_an_active_line_is_unknown() {
    let mut outcomes = all_found();
    outcomes[2] = ran("nothing of interest\n");
    let r = report(&outcomes, &around(Some("cargo")));
    assert_eq!(r.checks[2].value, Some("unknown".to_string()));
}

#[test]
fn doctor_outside_a_project_is_told_for_information() {
    let mut a = around(Some("cargo"));
    a.in_project = false;
    let r = report(&all_found(), &a);
    assert_eq!(r.checks[8].status, Status::Info);
    assert_eq!(r.checks[8].message, "Not in a Rust project directory");
    assert!(r.healthy);
}

#[test]
fn doctor_lines_for_a_healthy_run() {
    let r = report(&all_found(), &around(Some("/home/u/.cargo/bin")));
    let lines = doctor::render(&r);
    assert_eq!(
        lines,
        vec![
            "🩺 Environment Health: ✅ Healthy",
            "",
            "✅ Rust Compiler: rustc is available (rustc 1.80.0 (abc 2024-07-21))",
            "✅ Cargo: cargo is available (cargo 1.80.0)",
            "✅ Rustup: rustup is available (active toolchain)",
            "✅ Tool: clippy: clippy is available (clippy 0.1.80)",
            "✅ Tool: rustfmt: rustfmt is available (rustfmt 1.7.0-stable)",
            "✅ Environment: CARGO_HOME: CARGO_HOME is set (/home/u/.cargo)",
            "\u{26a0}\u{fe0f}  Environment: RUSTUP_HOME: RUSTUP_HOME is not set",
            "✅ Environment: PATH: PATH is set (/home/u/.cargo/bin)",
            "✅ Current Directory: In a Rust project directory",
        ]
    );
}

#[test]
fn doctor_lines_for_issues_end_in_suggestions() {
    let mut outcomes = all_found();
    outcomes[0] = failed("rustc --version");
    let mut a = around(Some("/home/u/.cargo/bin"));
    a.in_project = false;
    let lines = doctor::render(&report(&outcomes, &a));
    assert_eq!(lines[0], "🩺 Environment Health: \u{26a0}\u{fe0f}  Issues Found");
    assert_eq!(lines[1], "");
    assert_eq!(lines[2], "❌ Rust Compiler: rustc not found in PATH");
    assert_eq!(lines[10], "\u{2139}\u{fe0f}  Current Directory: Not in a Rust project directory");
    assert_eq!(
        &lines[11..],
        &[
            "",
            "💡 Suggestions:",
            "   • Install missing tools with: rustup component add clippy rustfmt",
            "   • Ensure Rust toolchain is properly installed via rustup.rs",
            "   • Check that ~/.cargo/bin is in your PATH",
        ]
    );
}

#[test]
fn doctor_check_line_leaves_out_an_empty_value() {
    let c = DiagnosticCheck {
        name: "N".to_string(),
        status: Status::Unknown,
        message: "m".to_string(),
        value: Some(String::new()),
    };
    assert_eq!(doctor::render_check(&c), "\u{2753} N: m");
    assert_eq!(c.status_label(), "unknown");
}

#[test]
fn doctor_document_names_the_verdict_and_the_checks() {
    let mut outcomes = all_found();
    outcomes[1] = failed("cargo --version");
    let r = report(&outcomes, &around(Some("cargo")));
    let doc = to_json(&r.document());
    assert_eq!(doc["overall_status"], "issues_found");
    assert_eq!(doc["checks"].as_array().unwrap().len(), 9);
    assert_eq!(
        doc["checks"][0],
        serde_json::from_str::<Value>(
            r#"{"name":"Rust Compiler","status":"ok","value":"rustc 1.80.0 (abc 2024-07-21)","message":"rustc is available"}"#
        )
        .unwrap()
    );
    assert_eq!(
        doc["checks"][1],
        serde_json::from_str::<Value>(
            r#"{"name":"Cargo","status":"error","message":"cargo not found in PATH"}"#
        )
        .unwrap()
    );
    assert_eq!(doc["checks"][6]["status"], "warning");
    let healthy = to_json(&report(&all_found(), &around(Some("cargo"))).document());
    assert_eq!(healthy["overall_status"], "healthy");
}

#[test]
fn doctor_run_renders_both_forms_and_never_fails() {
    let mut outcomes = all_found();
    outcomes[0] = failed("rustc --version");
    match doctor::run(&outcomes, &around(None)) {
        Step::Done(r) => {
            assert_eq!(r.failure, None);
            assert_eq!(r.lines[0], "🩺 Environment Health: \u{26a0}\u{fe0f}  Issues Found");
            assert_eq!(to_json(&r.document)["overall_status"], "issues_found");
        }
        Step::Run(_) => panic!("nothing is left to run"),
    }
    assert!(doctor::no_errors(&Vec::new()));
}

#[test]
fn status_glyphs_are_fixed() {
    assert_eq!(Status::Success.glyph(), "✅");
    assert_eq!(Status::Warning.glyph(), "\u{26a0}\u{fe0f} ");
    assert_eq!(Status::Error.glyph(), "❌");
    assert_eq!(Status::Info.glyph(), "\u{2139}\u{fe0f} ");
    assert_eq!(Status::Unknown.glyph(), "❓");
}
