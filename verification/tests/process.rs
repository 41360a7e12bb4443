use oxygen::lines;
use oxygen::process::CommandResult;
use oxygen::report;
use std::time::Duration;

#[test]
fn result_succeeded_means_exit_code_zero() {
    assert!(CommandResult::from_output(Some(0), b"", b"", None).succeeded);
    assert!(!CommandResult::from_output(Some(1), b"", b"", None).succeeded);
    assert!(!CommandResult::from_output(Some(-1), b"", b"", None).succeeded);
    assert!(!CommandResult::from_output(Some(101), b"out", b"", None).succeeded);
    // ended by a signal: no code at all
    assert!(!CommandResult::from_output(None, b"", b"", None).succeeded);
}

#[test]
fn result_text_is_decoded_and_never_refused() {
    let r = CommandResult::from_output(
        Some(0),
        "héllo ✅\n".as_bytes(),
        b"bad \xff byte and half \xe2\x9c",
        Some(Duration::from_millis(5)),
    );
    assert_eq!(r.stdout, "héllo ✅\n");
    assert_eq!(r.stderr, "bad \u{fffd} byte and half \u{fffd}");
    assert_eq!(r.elapsed, Some(Duration::from_millis(5)));
    let empty = CommandResult::from_output(Some(0), b"", b"", None);
    assert_eq!(empty.stdout, "");
    assert_eq!(empty.elapsed, None);
}

#[test]
fn lines_are_found_by_what_they_hold() {
    let text = "first\n  the active toolchain is x  \nactive toolchain again\n";
    assert_eq!(
        lines::find_line_with(text, "active toolchain"),
        Some("the active toolchain is x".to_string())
    );
    assert_eq!(lines::find_line_with(text, "missing"), None);
    assert_eq!(lines::find_line_with("", "x"), None);
    assert_eq!(lines::find_line_with("a\nb", ""), Some("a".to_string()));
    assert!(lines::str_contains("/home/u/.cargo/bin", "cargo"));
    assert!(!lines::str_contains("/usr/bin", "cargo"));
}

#[test]
fn lines_are_found_by_how_they_begin() {
    let text = "binary: rustc\n host: indented\nhost: x86_64\nhost: other\n";
    let found: Option<String> =
        lines::find_line_starting(text, "host:").map(|l| l.into_iter().collect());
    assert_eq!(found, Some("host: x86_64".to_string()));
    assert!(lines::find_line_starting(text, "nothing").is_none());
}

#[test]
fn blocks_of_lines() {
    let text = "intro\ninstalled toolchains\n-----\na\nb\n\nc\n";
    assert_eq!(
        lines::block_after(text, "installed toolchains", "active toolchain"),
        vec!["-----", "a", "b"]
    );
    let text = "installed toolchains\na\nthe active toolchain\nb\n";
    assert_eq!(lines::block_after(text, "installed toolchains", "active toolchain"), vec!["a"]);
    assert!(lines::block_after("a\nb\n", "installed toolchains", "x").is_empty());
    assert!(lines::block_after("installed toolchains", "installed toolchains", "x").is_empty());
    assert_eq!(lines::block_after("h\na\nb", "h", "zzz"), vec!["a", "b"]);
}

#[test]
fn first_lines_and_counts() {
    assert_eq!(lines::take_lines("a\nb\nc\n", 2), vec!["a", "b"]);
    assert_eq!(lines::take_lines("a\nb\nc\n", 3), vec!["a", "b", "c"]);
    assert_eq!(lines::take_lines("a\nb\nc\n", 10), vec!["a", "b", "c"]);
    assert!(lines::take_lines("a\nb\n", 0).is_empty());
    assert_eq!(lines::count_lines(""), 0);
    assert_eq!(lines::count_lines("a"), 1);
    assert_eq!(lines::count_lines("a\n"), 1);
    assert_eq!(lines::count_lines("a\n\nb\n"), 3);
}

#[test]
fn report_helpers() {
    assert_eq!(report::trim_str("  x y \n"), "x y");
    let mut lines = Vec::new();
    report::push_line(&mut lines, "a");
    report::push_text(&mut lines, "b".to_string());
    assert_eq!(lines, vec!["a", "b"]);
    let failed = report::failed_action("act", Some(("file", "f")), "E", "head", "Failed: ");
    assert_eq!(failed.lines, vec!["head", "Error: E"]);
    assert_eq!(failed.failure, Some("Failed: E".to_string()));
    let hard = report::error_only("E");
    assert!(hard.lines.is_empty());
    assert_eq!(hard.failure, Some("E".to_string()));
}
