//! The summary of the environment: versions, toolchains, targets and the
//! variables that matter.

use crate::document::{Doc, DocView};
use crate::lines::{
    after_heading, block, block_after, find_line_starting, find_line_with, first_line_starting,
    first_line_with, first_lines, take_lines,
};
use crate::process::{Command, CommandView, Outcome, Step, StepView};
use crate::report::{opt_view, trim_str, Rendered, RenderedView};
use crate::text::{chars_of, lines, string_of, strip_leading, strip_prefixes, trim};
use vstd::prelude::*;

verus! {

/// The variables that the summary shows, each with its value where it is
/// set.
#[derive(Debug, PartialEq)]
pub struct Variables {
    pub cargo_home: Option<String>,
    pub rustup_home: Option<String>,
    pub rust_backtrace: Option<String>,
}

/// The commands of the summary, in the order they run.
pub open spec fn env_commands() -> Seq<CommandView> {
    seq![
        CommandView::new("rustc"@).arg("--version"@),
        CommandView::new("cargo"@).arg("--version"@),
        CommandView::new("rustup"@).arg("show"@),
        CommandView::new("rustc"@).arg("--print"@).arg("target-list"@),
        CommandView::new("rustc"@).arg("-vV"@),
    ]
}

/// What a command printed, trimmed, where it could be started.
pub open spec fn trimmed_output(outcome: Outcome) -> Option<Seq<char>> {
    match outcome {
        Outcome::Ran(r) => Some(trim(r.stdout@)),
        Outcome::Failed(_) => None,
    }
}

/// The line of the toolchain manager's summary that names the active
/// toolchain, trimmed.
pub open spec fn active_line(outcome: Outcome) -> Option<Seq<char>> {
    match outcome {
        Outcome::Ran(r) => first_line_with(lines(r.stdout@), "active toolchain"@),
        Outcome::Failed(_) => None,
    }
}

/// The installed toolchains that the toolchain manager's summary lists: the
/// lines under the heading of the installed toolchains, up to the first
/// empty line or the line of the active toolchain.
pub open spec fn installed_toolchains(outcome: Outcome) -> Option<Seq<Seq<char>>> {
    match outcome {
        Outcome::Ran(r) => Some(
            block(after_heading(lines(r.stdout@), "installed toolchains"@), "active toolchain"@),
        ),
        Outcome::Failed(_) => None,
    }
}

/// The first ten targets that the compiler lists.
pub open spec fn available_targets(outcome: Outcome) -> Option<Seq<Seq<char>>> {
    match outcome {
        Outcome::Ran(r) => Some(first_lines(lines(r.stdout@), 10)),
        Outcome::Failed(_) => None,
    }
}

/// The host target that the compiler reports: its first line that begins
/// with `host:`, without the label.
pub open spec fn host_target(outcome: Outcome) -> Option<Seq<char>> {
    match outcome {
        Outcome::Ran(r) => match first_line_starting(lines(r.stdout@), "host:"@) {
            Some(l) => Some(strip_prefixes(l, "host: "@)),
            None => None,
        },
        Outcome::Failed(_) => None,
    }
}

/// The record of the variables that are set.
pub open spec fn variables_document(vars: Variables) -> DocView {
    DocView::record().with_text("CARGO_HOME"@, opt_view(vars.cargo_home)).with_text(
        "RUSTUP_HOME"@,
        opt_view(vars.rustup_home),
    ).with_text("RUST_BACKTRACE"@, opt_view(vars.rust_backtrace))
}

/// A list of texts, where there is one.
pub open spec fn optional_texts(items: Option<Seq<Seq<char>>>) -> Option<DocView> {
    match items {
        Some(ts) => Some(DocView::texts(ts)),
        None => None,
    }
}

/// The summary in both forms. What a command that could not be started
/// would have told is left out.
pub open spec fn env_rendered(outcomes: Seq<Outcome>, vars: Variables) -> RenderedView
    recommends
        outcomes.len() >= 5,
{
    RenderedView::new(
        DocView::record().with_text("rust_version"@, trimmed_output(outcomes[0])).with_text(
            "cargo_version"@,
            trimmed_output(outcomes[1]),
        ).with_text("active_toolchain"@, active_line(outcomes[2])).with_optional(
            "installed_toolchains"@,
            optional_texts(installed_toolchains(outcomes[2])),
        ).with_optional("available_targets"@, optional_texts(available_targets(outcomes[3]))).with_text(
            "host_target"@,
            host_target(outcomes[4]),
        ).with("environment"@, variables_document(vars)),
    ).line("🦀 Rust Environment Summary"@).line("================================"@).labelled(
        "Rust: "@,
        trimmed_output(outcomes[0]),
    ).labelled("Cargo: "@, trimmed_output(outcomes[1])).labelled(
        "Active Toolchain: "@,
        active_line(outcomes[2]),
    ).labelled("Host Target: "@, host_target(outcomes[4])).line(""@).line(
        "Environment Variables:"@,
    ).labelled("  CARGO_HOME: "@, opt_view(vars.cargo_home)).labelled(
        "  RUSTUP_HOME: "@,
        opt_view(vars.rustup_home),
    ).labelled("  RUST_BACKTRACE: "@, opt_view(vars.rust_backtrace))
}

/// What the summary does after the given outcomes: it runs its five
/// commands one after another, whatever came of the earlier ones, and then
/// reports.
pub open spec fn env_step(outcomes: Seq<Outcome>, vars: Variables) -> StepView<RenderedView> {
    if outcomes.len() < 5 {
        StepView::Run(env_commands()[outcomes.len() as int])
    } else {
        StepView::Done(env_rendered(outcomes, vars))
    }
}

fn output_of(outcome: &Outcome) -> (r: Option<String>)
    ensures
        opt_view(r) == trimmed_output(*outcome),
{
    match outcome {
        Outcome::Ran(res) => Some(trim_str(res.stdout.as_str())),
        Outcome::Failed(_) => None,
    }
}

fn host_of(outcome: &Outcome) -> (r: Option<String>)
    ensures
        opt_view(r) == host_target(*outcome),
{
    match outcome {
        Outcome::Ran(res) => match find_line_starting(res.stdout.as_str(), "host:") {
            Some(l) => Some(string_of(&strip_leading(&l, &chars_of("host: ")))),
            None => None,
        },
        Outcome::Failed(_) => None,
    }
}

/// The next step of the summary after the given outcomes.
pub fn next(outcomes: &Vec<Outcome>, vars: &Variables) -> (r: Step<Rendered>)
    ensures
        r@ == env_step(outcomes@, *vars),
{
    if outcomes.len() == 0 {
        return Step::Run(Command::new("rustc").arg("--version"));
    } else if outcomes.len() == 1 {
        return Step::Run(Command::new("cargo").arg("--version"));
    } else if outcomes.len() == 2 {
        return Step::Run(Command::new("rustup").arg("show"));
    } else if outcomes.len() == 3 {
        return Step::Run(Command::new("rustc").arg("--print").arg("target-list"));
    } else if outcomes.len() == 4 {
        return Step::Run(Command::new("rustc").arg("-vV"));
    }
    let rust = output_of(&outcomes[0]);
    let cargo = output_of(&outcomes[1]);
    let (active, installed) = match &outcomes[2] {
        Outcome::Ran(res) => (
            find_line_with(res.stdout.as_str(), "active toolchain"),
            Some(
                Doc::texts(
                    &block_after(res.stdout.as_str(), "installed toolchains", "active toolchain"),
                ),
            ),
        ),
        Outcome::Failed(_) => (None, None),
    };
    let targets = match &outcomes[3] {
        Outcome::Ran(res) => Some(Doc::texts(&take_lines(res.stdout.as_str(), 10))),
        Outcome::Failed(_) => None,
    };
    let host = host_of(&outcomes[4]);
    let variables = Doc::record().with_text("CARGO_HOME", &vars.cargo_home).with_text(
        "RUSTUP_HOME",
        &vars.rustup_home,
    ).with_text("RUST_BACKTRACE", &vars.rust_backtrace);
    Step::Done(
        Rendered::new(
            Doc::record().with_text("rust_version", &rust).with_text(
                "cargo_version",
                &cargo,
            ).with_text("active_toolchain", &active).with_optional(
                "installed_toolchains",
                installed,
            ).with_optional("available_targets", targets).with_text("host_target", &host).with(
                "environment",
                variables,
            ),
        ).line("🦀 Rust Environment Summary").line("================================").labelled(
            "Rust: ",
            &rust,
        ).labelled("Cargo: ", &cargo).labelled("Active Toolchain: ", &active).labelled(
            "Host Target: ",
            &host,
        ).line("").line("Environment Variables:").labelled(
            "  CARGO_HOME: ",
            &vars.cargo_home,
        ).labelled("  RUSTUP_HOME: ", &vars.rustup_home).labelled(
            "  RUST_BACKTRACE: ",
            &vars.rust_backtrace,
        ),
    )
}

/// Every command of the summary runs, each in its place, whatever the
/// earlier ones came to; after the fifth the summary is done.
pub proof fn law_summary_runs_all(outcomes: Seq<Outcome>, vars: Variables)
    ensures
        outcomes.len() < 5 ==> env_step(outcomes, vars) == StepView::<RenderedView>::Run(
            env_commands()[outcomes.len() as int],
        ),
        outcomes.len() >= 5 ==> env_step(outcomes, vars) is Done,
{
}

} // verus!
