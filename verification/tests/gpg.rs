use oxygen::commands::gpg::{self, Facts, SetupReport, Target};
use oxygen::document::Doc;
use oxygen::process::{CommandResult, ExecError, Outcome, Step};
use oxygen::report::{Rendered, Status};
use oxygen::GpgAction;
use serde_json::Value;

fn to_json(doc: &Doc) -> Value {
    match doc {
        Doc::Null => Value::Null,
        Doc::Bool(b) => Value::Bool(*b),
        Doc::Number(n) => Value::from(*n),
        Doc::Text(s) => Value::String(s.clone()),
        Doc::List(items) => Value::Array(items.iter().map(to_json).collect()),
        Doc::Record(fields) => {
            let mut m = serde_json::Map::new();
            for f in fields {
                m.insert(f.key.clone(), to_json(&f.value));
            }
            Value::Object(m)
        }
        Doc::Json(v) => v.clone(),
        Doc::Toml(v) => serde_json::to_value(v).unwrap(),
    }
}

fn json(text: &str) -> Value {
    serde_json::from_str(text).unwrap()
}

fn ran(stdout: &str) -> Outcome {
    Outcome::Ran(CommandResult {
        succeeded: true,
        stdout: stdout.to_string(),
        stderr: String::new(),
        elapsed: None,
    })
}

fn ran_with_stderr(stderr: &str) -> Outcome {
    Outcome::Ran(CommandResult {
        succeeded: true,
        stdout: String::new(),
        stderr: stderr.to_string(),
        elapsed: None,
    })
}

fn failed(line: &str) -> Outcome {
    Outcome::Failed(ExecError { command_line: line.to_string() })
}

fn done(step: Step<Rendered>) -> Rendered {
    match step {
        Step::Done(r) => r,
        Step::Run(c) => panic!("asked for {:?}", c),
    }
}

fn asked(step: Step<Rendered>) -> Vec<String> {
    match step {
        Step::Run(c) => {
            let mut all = vec![c.program.clone()];
            all.extend(c.args.iter().cloned());
            all
        }
        Step::Done(r) => panic!("done with {:?}", r),
    }
}

fn facts(in_repository: bool, target_exists: bool, signature_exists: bool) -> Facts {
    Facts { in_repository, target_exists, signature_exists }
}

#[test]
fn targets_are_commit_tag_or_a_file() {
    assert_eq!(gpg::classify("commit"), Target::Commit);
    assert_eq!(gpg::classify("tag"), Target::Tag);
    assert_eq!(gpg::classify("Commit"), Target::File("Commit".to_string()));
    assert_eq!(gpg::classify("release.tar.gz"), Target::File("release.tar.gz".to_string()));
    assert_eq!(gpg::classify(""), Target::File(String::new()));
}

#[test]
fn sign_commit_outside_a_repository_runs_nothing() {
    for outcomes in [vec![], vec![ran("KEY")], vec![ran("KEY"), ran("")]] {
        let r = done(gpg::sign_commit(false, &outcomes));
        assert_eq!(r.failure, Some("Not in a git repository".to_string()));
        assert_eq!(r.lines, vec!["❌ Not in a git repository"]);
        assert_eq!(
            to_json(&r.document),
            json(r#"{"error":"Not in a git repository","action":"sign_commit"}"#)
        );
    }
}

#[test]
fn sign_commit_asks_for_the_key_then_signs() {
    assert_eq!(asked(gpg::sign_commit(true, &vec![])), vec!["git", "config", "user.signingkey"]);
    assert_eq!(
        asked(gpg::sign_commit(true, &vec![ran(" ABCDEF \n")])),
        vec!["git", "commit", "--amend", "--no-edit", "-S"]
    );
    let r = done(gpg::sign_commit(true, &vec![ran(" ABCDEF \n"), ran("")]));
    assert_eq!(r.failure, None);
    assert_eq!(r.lines, vec!["✅ Successfully signed the last commit", "🔑 Using key: ABCDEF"]);
    assert_eq!(
        to_json(&r.document),
        json(r#"{"action":"sign_commit","status":"success","signing_key":"ABCDEF"}"#)
    );
}

#[test]
fn sign_commit_without_a_key_command_is_not_configured() {
    let r = done(gpg::sign_commit(true, &vec![failed("git config user.signingkey")]));
    assert_eq!(r.failure, Some("GPG signing not configured".to_string()));
    assert_eq!(
        r.lines,
        vec![
            "❌ GPG signing not configured for git",
            "💡 Run 'oxy gpg setup' to configure GPG signing"
        ]
    );
    assert_eq!(
        to_json(&r.document),
        json(
            r#"{"error":"GPG signing not configured","action":"sign_commit","suggestion":"Run 'oxy gpg setup' to configure GPG signing"}"#
        )
    );
}

#[test]
fn sign_commit_that_cannot_start_is_a_failure() {
    let r = done(gpg::sign_commit(
        true,
        &vec![ran("K"), failed("git commit --amend --no-edit -S")],
    ));
    let e = "Failed to execute command: git commit --amend --no-edit -S";
    assert_eq!(r.failure, Some(format!("Failed to sign commit: {}", e)));
    assert_eq!(r.lines, vec!["❌ Failed to sign commit".to_string(), format!("Error: {}", e)]);
    let doc = to_json(&r.document);
    assert_eq!(doc["action"], "sign_commit");
    assert_eq!(doc["status"], "error");
    assert_eq!(doc["error"], e);
}

#[test]
fn sign_tag_signs_the_tag_that_was_found() {
    assert_eq!(
        asked(gpg::sign_latest_tag(true, &vec![])),
        vec!["git", "describe", "--tags", "--abbrev=0"]
    );
    assert_eq!(
        asked(gpg::sign_latest_tag(true, &vec![ran("v1.2.3\n")])),
        vec!["git", "tag", "-s", "v1.2.3", "-f", "-m", "Signed tag v1.2.3"]
    );
    let r = done(gpg::sign_latest_tag(true, &vec![ran("v1.2.3\n"), ran("")]));
    assert_eq!(r.lines, vec!["✅ Successfully signed tag: v1.2.3"]);
    assert_eq!(
        to_json(&r.document),
        json(r#"{"action":"sign_tag","status":"success","tag":"v1.2.3"}"#)
    );
    assert_eq!(r.failure, None);
}

#[test]
fn sign_tag_failures() {
    let none = done(gpg::sign_latest_tag(true, &vec![failed("git describe")]));
    assert_eq!(none.failure, Some("No tags found".to_string()));
    assert_eq!(none.lines, vec!["❌ No tags found in repository"]);
    assert_eq!(to_json(&none.document), json(r#"{"error":"No tags found","action":"sign_tag"}"#));
    let outside = done(gpg::sign_latest_tag(false, &vec![]));
    assert_eq!(
        to_json(&outside.document),
        json(r#"{"error":"Not in a git repository","action":"sign_tag"}"#)
    );
    let r = done(gpg::sign_latest_tag(true, &vec![ran("v1\n"), failed("git tag")]));
    assert_eq!(
        r.lines,
        vec![
            "❌ Failed to sign tag: v1",
            "Error: Failed to execute command: git tag"
        ]
    );
    assert_eq!(
        r.failure,
        Some("Failed to sign tag: Failed to execute command: git tag".to_string())
    );
    assert_eq!(
        to_json(&r.document),
        json(
            r#"{"action":"sign_tag","status":"error","tag":"v1","error":"Failed to execute command: git tag"}"#
        )
    );
}

#[test]
fn sign_file_in_all_cases() {
    let missing = done(gpg::sign_file("a.txt", false, &vec![ran("")]));
    assert_eq!(missing.failure, Some("File not found".to_string()));
    assert_eq!(missing.lines, vec!["❌ File not found: a.txt"]);
    assert_eq!(
        to_json(&missing.document),
        json(r#"{"error":"File not found","file":"a.txt","action":"sign_file"}"#)
    );
    assert_eq!(
        asked(gpg::sign_file("a.txt", true, &vec![])),
        vec!["gpg", "--detach-sign", "--armor", "--output", "a.txt.sig", "a.txt"]
    );
    let r = done(gpg::sign_file("a.txt", true, &vec![ran("")]));
    assert_eq!(
        r.lines,
        vec!["✅ Successfully signed file: a.txt", "📝 Signature saved to: a.txt.sig"]
    );
    assert_eq!(
        to_json(&r.document),
        json(
            r#"{"action":"sign_file","status":"success","file":"a.txt","signature":"a.txt.sig"}"#
        )
    );
    let f = done(gpg::sign_file("a.txt", true, &vec![failed("gpg --detach-sign")]));
    assert_eq!(
        f.lines,
        vec![
            "❌ Failed to sign file: a.txt",
            "Error: Failed to execute command: gpg --detach-sign"
        ]
    );
    assert_eq!(
        f.failure,
        Some("Failed to sign file: Failed to execute command: gpg --detach-sign".to_string())
    );
}

#[test]
fn verify_commits_shows_the_log() {
    assert_eq!(
        asked(gpg::verify_commit_signatures(true, &vec![])),
        vec!["git", "log", "--show-signature", "-n", "5", "--oneline"]
    );
    let r = done(gpg::verify_commit_signatures(true, &vec![ran("abc one\ndef two\n")]));
    assert_eq!(
        r.lines,
        vec!["🔍 Recent Commit Signatures", "===========================", "abc one\ndef two\n"]
    );
    assert_eq!(
        to_json(&r.document),
        json(r#"{"action":"verify_commits","status":"success","output":"abc one\ndef two"}"#)
    );
    let f = done(gpg::verify_commit_signatures(true, &vec![failed("git log")]));
    assert_eq!(
        f.failure,
        Some("Failed to verify commits: Failed to execute command: git log".to_string())
    );
    assert_eq!(f.lines[0], "❌ Failed to verify commit signatures");
    let outside = done(gpg::verify_commit_signatures(false, &vec![]));
    assert_eq!(
        to_json(&outside.document),
        json(r#"{"error":"Not in a git repository","action":"verify_commits"}"#)
    );
}

#[test]
fn verify_tags_says_when_there_are_none() {
    assert_eq!(asked(gpg::verify_tag_signatures(true, &vec![])), vec!["git", "tag", "-v"]);
    let empty = done(gpg::verify_tag_signatures(true, &vec![ran("  \n")]));
    assert_eq!(
        empty.lines,
        vec![
            "🏷\u{fe0f}  Tag Signature Verification",
            "=============================",
            "No signed tags found"
        ]
    );
    assert_eq!(
        to_json(&empty.document),
        json(r#"{"action":"verify_tags","status":"success","output":""}"#)
    );
    let some = done(gpg::verify_tag_signatures(true, &vec![ran("v1 good\n")]));
    assert_eq!(some.lines[2], "v1 good\n");
    let f = done(gpg::verify_tag_signatures(true, &vec![failed("git tag -v")]));
    assert_eq!(
        f.failure,
        Some("Failed to verify tags: Failed to execute command: git tag -v".to_string())
    );
    assert_eq!(f.lines[0], "❌ Failed to verify tag signatures");
}

#[test]
fn verify_file_checks_both_files_first() {
    let no_file = done(gpg::verify_file_signature("a", false, true, &vec![]));
    assert_eq!(
        to_json(&no_file.document),
        json(r#"{"error":"File not found","file":"a","action":"verify_file"}"#)
    );
    let no_sig = done(gpg::verify_file_signature("a", true, false, &vec![ran("")]));
    assert_eq!(no_sig.failure, Some("Signature file not found".to_string()));
    assert_eq!(no_sig.lines, vec!["❌ Signature file not found: a.sig"]);
    assert_eq!(
        to_json(&no_sig.document),
        json(
            r#"{"error":"Signature file not found","file":"a","expected_signature":"a.sig","action":"verify_file"}"#
        )
    );
    assert_eq!(
        asked(gpg::verify_file_signature("a", true, true, &vec![])),
        vec!["gpg", "--verify", "a.sig", "a"]
    );
    let r = done(gpg::verify_file_signature(
        "a",
        true,
        true,
        &vec![ran_with_stderr("gpg: Good signature\n")],
    ));
    assert_eq!(
        r.lines,
        vec!["✅ File signature verified: a", "🔍 Verification details:", "gpg: Good signature\n"]
    );
    assert_eq!(
        to_json(&r.document),
        json(
            r#"{"action":"verify_file","status":"success","file":"a","signature":"a.sig","verification_output":"gpg: Good signature"}"#
        )
    );
    let f = done(gpg::verify_file_signature("a", true, true, &vec![failed("gpg --verify")]));
    assert_eq!(f.lines[0], "❌ Failed to verify file signature: a");
    assert_eq!(
        f.failure,
        Some("Failed to verify file: Failed to execute command: gpg --verify".to_string())
    );
}

#[test]
fn sign_and_verify_dispatch_on_the_target() {
    let f = facts(true, true, true);
    assert_eq!(asked(gpg::sign_target("commit", &f, &vec![]))[1], "config");
    assert_eq!(asked(gpg::sign_target("tag", &f, &vec![]))[1], "describe");
    assert_eq!(asked(gpg::sign_target("x.bin", &f, &vec![]))[0], "gpg");
    assert_eq!(asked(gpg::verify_target("commit", &f, &vec![]))[1], "log");
    assert_eq!(asked(gpg::verify_target("tag", &f, &vec![]))[2], "-v");
    assert_eq!(asked(gpg::verify_target("x.bin", &f, &vec![]))[1], "--verify");
    let nothing = facts(false, false, false);
    for target in ["commit", "tag", "x.bin"] {
        assert!(done(gpg::sign_target(target, &nothing, &vec![])).failure.is_some());
        assert!(done(gpg::verify_target(target, &nothing, &vec![])).failure.is_some());
    }
    let action = GpgAction::Sign { target: "commit".to_string() };
    assert_eq!(asked(gpg::run(&action, &f, &vec![]))[2], "user.signingkey");
    let action = GpgAction::Verify { target: "tag".to_string() };
    assert_eq!(asked(gpg::run(&action, &f, &vec![]))[1], "tag");
}

fn setup(outcomes: &Vec<Outcome>) -> SetupReport {
    match gpg::setup_gpg_for_rust(outcomes) {
        Step::Done(r) => r,
        Step::Run(c) => panic!("asked for {:?}", c),
    }
}

#[test]
fn setup_runs_four_commands_whatever_comes() {
    let mut outcomes = Vec::new();
    let mut asked = Vec::new();
    loop {
        match gpg::setup_gpg_for_rust(&outcomes) {
            Step::Run(c) => {
                asked.push(c.line());
                outcomes.push(failed(&c.line()));
            }
            Step::Done(r) => {
                assert!(r.has_errors);
                assert_eq!(r.steps.len(), 4);
                break;
            }
        }
    }
    assert_eq!(
        asked,
        vec![
            "gpg --version",
            "gpg --list-secret-keys --keyid-format LONG",
            "git config user.signingkey",
            "git config commit.gpgsign",
        ]
    );
}

#[test]
fn setup_that_is_complete() {
    let r = setup(&vec![
        ran("gpg (GnuPG) 2.4.0\nlibgcrypt 1.10\n"),
        ran("sec   rsa4096/ABC 2020-01-01\n"),
        ran("ABC\n"),
        ran("true\n"),
    ]);
    assert!(!r.has_errors);
    let statuses: Vec<Status> = r.steps.iter().map(|s| s.status).collect();
    assert_eq!(statuses, vec![Status::Success; 4]);
    let rendered = r.render();
    assert_eq!(rendered.failure, None);
    assert_eq!(
        rendered.lines,
        vec![
            "🔑 GPG Setup for Rust Development",
            "=================================",
            "✅ GPG is installed",
            "  📋 gpg (GnuPG) 2.4.0",
            "✅ GPG keys found",
            "✅ Git signing key configured",
            "✅ Automatic commit signing enabled",
            "",
            "🎉 GPG setup looks good!",
            "",
            "💡 Quick commands:",
            "   • Sign last commit: oxy gpg sign commit",
            "   • Create signed tag: git tag -s v1.0.0 -m 'Version 1.0.0'",
            "   • Verify signatures: oxy gpg verify commit",
        ]
    );
    assert_eq!(
        to_json(&rendered.document),
        json(
            r#"{"action":"setup_gpg","status":"success","setup_steps":[
            {"step":"check_gpg","status":"success","message":"GPG is installed","details":"gpg (GnuPG) 2.4.0"},
            {"step":"check_keys","status":"success","message":"GPG keys found","keys":"sec   rsa4096/ABC 2020-01-01"},
            {"step":"check_git_config","status":"success","message":"Git signing key configured","signing_key":"ABC"},
            {"step":"check_commit_signing","status":"success","message":"Automatic commit signing enabled"}]}"#
        )
    );
}

#[test]
fn setup_with_nothing_there() {
    let r = setup(&vec![failed("gpg"), failed("gpg"), failed("git"), failed("git")]);
    assert!(r.has_errors);
    let rendered = r.render();
    assert_eq!(
        rendered.lines,
        vec![
            "🔑 GPG Setup for Rust Development",
            "=================================",
            "❌ GPG is not installed",
            "  💡 Install GPG using your system package manager",
            "❌ Failed to list GPG keys",
            "\u{26a0}\u{fe0f}  Git signing key not configured",
            "  💡 Configure with: git config --global user.signingkey <key-id>",
            "\u{2139}\u{fe0f}  Automatic commit signing disabled",
            "  💡 Enable with: git config --global commit.gpgsign true",
        ]
    );
    let doc = to_json(&rendered.document);
    assert_eq!(doc["status"], "error");
    assert_eq!(
        doc["setup_steps"][0],
        json(
            r#"{"step":"check_gpg","status":"error","message":"GPG is not installed","suggestion":"Install GPG using your system package manager"}"#
        )
    );
    assert_eq!(
        doc["setup_steps"][1],
        json(r#"{"step":"check_keys","status":"error","message":"Failed to list GPG keys"}"#)
    );
    assert_eq!(doc["setup_steps"][3]["status"], "info");
}

#[test]
fn setup_warnings_are_no_errors() {
    let r = setup(&vec![ran(""), ran(" \n"), ran("\n"), ran("false\n")]);
    assert!(!r.has_errors);
    assert_eq!(r.steps[0].detail.as_ref().unwrap().text, "unknown");
    assert_eq!(r.steps[1].status, Status::Warning);
    assert_eq!(r.steps[1].message, "No GPG keys found");
    assert_eq!(r.steps[1].suggestion, Some("Generate a new GPG key for signing".to_string()));
    assert_eq!(r.steps[2].status, Status::Warning);
    assert_eq!(r.steps[3].status, Status::Info);
    assert_eq!(r.steps[3].status_label(), "info");
    let lines = r.render().lines;
    assert_eq!(lines[lines.len() - 7], "");
    assert_eq!(lines[lines.len() - 6], "🎉 GPG setup looks good!");
}

#[test]
fn setup_through_the_dispatcher() {
    let f = facts(false, false, false);
    match gpg::run(&GpgAction::Setup, &f, &vec![]) {
        Step::Run(c) => assert_eq!(c.line(), "gpg --version"),
        Step::Done(_) => panic!("nothing ran yet"),
    }
    let r = done(gpg::run(
        &GpgAction::Setup,
        &f,
        &vec![ran("gpg 2\n"), ran("k"), ran("k"), ran("true")],
    ));
    assert_eq!(r.failure, None);
    assert_eq!(to_json(&r.document)["status"], "success");
}

#[test]
fn first_line_of_output() {
    assert_eq!(oxygen::lines::first_line("a\nb\n", "none"), "a");
    assert_eq!(oxygen::lines::first_line("", "none"), "none");
    assert_eq!(oxygen::lines::first_line("\nb", "none"), "");
}
