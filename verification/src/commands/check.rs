//! The three quality checks of a project, run one after another whatever
//! the earlier ones find.

use crate::document::{Doc, DocView};
use crate::process::{exec_error_text, Command, CommandView, Outcome, Step, StepView};
use crate::report::{Rendered, RenderedView};
use crate::text::{join3, join4, views};
use crate::utils::{duration_nanos, duration_text, format_duration};
use vstd::prelude::*;

verus! {

/// The result of a quality command outside a project: nothing was run, and
/// the subcommand still ends without an error.
pub open spec fn not_a_project() -> RenderedView {
    RenderedView::new(
        DocView::record().with(
            "error"@,
            DocView::Text("Not a Rust project (no Cargo.toml found)"@),
        ).with("success"@, DocView::Bool(false)),
    ).line("Not a Rust project (no Cargo.toml found)"@)
}

/// The result of a quality command outside a project.
pub fn outside_project() -> (r: Rendered)
    ensures
        r@ == not_a_project(),
{
    Rendered::new(
        Doc::record().with("error", Doc::text("Not a Rust project (no Cargo.toml found)")).with(
            "success",
            Doc::Bool(false),
        ),
    ).line("Not a Rust project (no Cargo.toml found)")
}

/// The three commands, in the order they run, each with its time measured:
/// the formatter check, the linter with warnings as errors, the compiler
/// check.
pub open spec fn check_commands() -> Seq<CommandView> {
    seq![
        CommandView::new("cargo"@).arg("fmt"@).arg("--check"@).timed(),
        CommandView::new("cargo"@).arg("clippy"@).arg("--"@).arg("-D"@).arg("warnings"@).timed(),
        CommandView::new("cargo"@).arg("check"@).timed(),
    ]
}

/// How the record names each command.
pub open spec fn check_label(index: int) -> Seq<char> {
    if index == 0 {
        "cargo fmt --check"@
    } else if index == 1 {
        "cargo clippy"@
    } else {
        "cargo check"@
    }
}

/// How a reader is told of each check.
pub open spec fn check_title(index: int) -> Seq<char> {
    if index == 0 {
        "Format check"@
    } else if index == 1 {
        "Clippy"@
    } else {
        "Check"@
    }
}

/// What could not be run, for a reader.
pub open spec fn check_tool(index: int) -> Seq<char> {
    if index == 0 {
        "cargo fmt"@
    } else if index == 1 {
        "cargo clippy"@
    } else {
        "cargo check"@
    }
}

/// Whether a command ran and exited with status zero.
pub open spec fn passed(outcome: Outcome) -> bool {
    outcome matches Outcome::Ran(r) && r.succeeded
}

/// The measured time in brackets after a space, or nothing where no time
/// was measured.
pub open spec fn timing(elapsed: Option<nat>) -> Seq<char> {
    match elapsed {
        Some(n) => " ("@ + duration_text(n) + ")"@,
        None => Seq::empty(),
    }
}

/// The record of one check.
pub open spec fn check_document(index: int, outcome: Outcome) -> DocView {
    match outcome {
        Outcome::Ran(r) => {
            let base = DocView::record().with("command"@, DocView::Text(check_label(index))).with(
                "success"@,
                DocView::Bool(r.succeeded),
            );
            let timed = match r.elapsed_nanos() {
                Some(n) => base.with("duration"@, DocView::Text(duration_text(n))),
                None => base,
            };
            timed.with("stdout"@, DocView::Text(r.stdout@)).with("stderr"@, DocView::Text(r.stderr@))
        },
        Outcome::Failed(e) => DocView::record().with(
            "command"@,
            DocView::Text(check_label(index)),
        ).with("success"@, DocView::Bool(false)).with(
            "error"@,
            DocView::Text(exec_error_text(e.command_line@)),
        ),
    }
}

/// The lines of one check for a reader. A check that failed is followed by
/// what it wrote: the linter's standard output, the others' standard error.
pub open spec fn check_lines(index: int, outcome: Outcome) -> Seq<Seq<char>> {
    match outcome {
        Outcome::Ran(r) => if r.succeeded {
            seq!["✅ "@ + check_title(index) + " passed"@ + timing(r.elapsed_nanos())]
        } else {
            seq![
                "❌ "@ + check_title(index) + " failed"@ + timing(r.elapsed_nanos()),
                if index == 1 {
                    r.stdout@
                } else {
                    r.stderr@
                },
            ]
        },
        Outcome::Failed(e) => seq![
            "❌ Failed to run "@ + check_tool(index) + ": "@ + exec_error_text(e.command_line@),
        ],
    }
}

/// The result of the three checks.
pub open spec fn checks_rendered(outcomes: Seq<Outcome>) -> RenderedView
    recommends
        outcomes.len() >= 3,
{
    let all = passed(outcomes[0]) && passed(outcomes[1]) && passed(outcomes[2]);
    RenderedView::new(
        DocView::record().with("success"@, DocView::Bool(all)).with(
            "results"@,
            DocView::List(
                seq![
                    check_document(0, outcomes[0]),
                    check_document(1, outcomes[1]),
                    check_document(2, outcomes[2]),
                ],
            ),
        ),
    ).more(check_lines(0, outcomes[0])).more(check_lines(1, outcomes[1])).more(
        check_lines(2, outcomes[2]),
    ).line(
        if all {
            "\n🎉 All checks passed!"@
        } else {
            "\n💥 Some checks failed!"@
        },
    )
}

/// What the quality checks do after the given outcomes. Outside a project
/// nothing is run. Otherwise each command runs in its place, whatever the
/// earlier ones came to.
pub open spec fn check_step(in_project: bool, outcomes: Seq<Outcome>) -> StepView<RenderedView> {
    if !in_project {
        StepView::Done(not_a_project())
    } else if outcomes.len() < 3 {
        StepView::Run(check_commands()[outcomes.len() as int])
    } else {
        StepView::Done(checks_rendered(outcomes))
    }
}

fn label(index: usize) -> (r: &'static str)
    ensures
        r@ == check_label(index as int),
{
    if index == 0 {
        "cargo fmt --check"
    } else if index == 1 {
        "cargo clippy"
    } else {
        "cargo check"
    }
}

fn title(index: usize) -> (r: &'static str)
    ensures
        r@ == check_title(index as int),
{
    if index == 0 {
        "Format check"
    } else if index == 1 {
        "Clippy"
    } else {
        "Check"
    }
}

fn tool(index: usize) -> (r: &'static str)
    ensures
        r@ == check_tool(index as int),
{
    if index == 0 {
        "cargo fmt"
    } else if index == 1 {
        "cargo clippy"
    } else {
        "cargo check"
    }
}

/// The measured time in brackets, for a line.
pub fn timing_text(elapsed: &Option<std::time::Duration>) -> (r: String)
    ensures
        r@ == timing(
            match *elapsed {
                Some(d) => Some(duration_nanos(d)),
                None => None,
            },
        ),
{
    match elapsed {
        Some(d) => join3(" (", format_duration(*d).as_str(), ")"),
        None => String::new(),
    }
}

fn document_of(index: usize, outcome: &Outcome) -> (r: Doc)
    ensures
        r@ == check_document(index as int, *outcome),
{
    match outcome {
        Outcome::Ran(res) => {
            let base = Doc::record().with("command", Doc::text(label(index))).with(
                "success",
                Doc::Bool(res.succeeded),
            );
            let timed = match &res.elapsed {
                Some(d) => base.with("duration", Doc::text(format_duration(*d).as_str())),
                None => base,
            };
            timed.with("stdout", Doc::text(res.stdout.as_str())).with(
                "stderr",
                Doc::text(res.stderr.as_str()),
            )
        },
        Outcome::Failed(e) => Doc::record().with("command", Doc::text(label(index))).with(
            "success",
            Doc::Bool(false),
        ).with("error", Doc::text(e.message().as_str())),
    }
}

fn lines_of(index: usize, outcome: &Outcome) -> (r: Vec<String>)
    ensures
        views(r@) == check_lines(index as int, *outcome),
{
    let mut out: Vec<String> = Vec::new();
    match outcome {
        Outcome::Ran(res) => {
            let time = timing_text(&res.elapsed);
            if res.succeeded {
                crate::report::push_text(
                    &mut out,
                    join4("✅ ", title(index), " passed", time.as_str()),
                );
            } else {
                crate::report::push_text(
                    &mut out,
                    join4("❌ ", title(index), " failed", time.as_str()),
                );
                if index == 1 {
                    crate::report::push_line(&mut out, res.stdout.as_str());
                } else {
                    crate::report::push_line(&mut out, res.stderr.as_str());
                }
            }
        },
        Outcome::Failed(e) => {
            crate::report::push_text(
                &mut out,
                join4("❌ Failed to run ", tool(index), ": ", e.message().as_str()),
            );
        },
    }
    out
}

fn did_pass(outcome: &Outcome) -> (r: bool)
    ensures
        r == passed(*outcome),
{
    match outcome {
        Outcome::Ran(res) => res.succeeded,
        Outcome::Failed(_) => false,
    }
}

/// The next step of the quality checks after the given outcomes.
pub fn next(in_project: bool, outcomes: &Vec<Outcome>) -> (r: Step<Rendered>)
    ensures
        r@ == check_step(in_project, outcomes@),
{
    if !in_project {
        return Step::Done(outside_project());
    }
    if outcomes.len() == 0 {
        return Step::Run(Command::new("cargo").arg("fmt").arg("--check").timed());
    } else if outcomes.len() == 1 {
        return Step::Run(
            Command::new("cargo").arg("clippy").arg("--").arg("-D").arg("warnings").timed(),
        );
    } else if outcomes.len() == 2 {
        return Step::Run(Command::new("cargo").arg("check").timed());
    }
    let all = did_pass(&outcomes[0]) && did_pass(&outcomes[1]) && did_pass(&outcomes[2]);
    let mut docs: Vec<Doc> = Vec::new();
    docs.push(document_of(0, &outcomes[0]));
    docs.push(document_of(1, &outcomes[1]));
    docs.push(document_of(2, &outcomes[2]));
    assert(views(docs@) =~= seq![
        check_document(0, outcomes@[0]),
        check_document(1, outcomes@[1]),
        check_document(2, outcomes@[2]),
    ]);
    let closing = if all {
        "\n🎉 All checks passed!"
    } else {
        "\n💥 Some checks failed!"
    };
    Step::Done(
        Rendered::new(
            Doc::record().with("success", Doc::Bool(all)).with("results", Doc::list(docs)),
        ).more(lines_of(0, &outcomes[0])).more(lines_of(1, &outcomes[1])).more(
            lines_of(2, &outcomes[2]),
        ).line(closing),
    )
}

/// Every check runs, each in its place, whatever the earlier ones came to.
pub proof fn law_every_check_runs(outcomes: Seq<Outcome>)
    requires
        outcomes.len() < 3,
    ensures
        check_step(true, outcomes) == StepView::<RenderedView>::Run(
            check_commands()[outcomes.len() as int],
        ),
{
}

/// Outside a project the quality checks end at once and ask for no command,
/// whatever outcomes they are shown.
pub proof fn law_outside_project_runs_nothing(outcomes: Seq<Outcome>)
    ensures
        check_step(false, outcomes) == StepView::Done(not_a_project()),
{
}

/// The quality checks are done after three commands: they never ask for a
/// fourth.
pub proof fn law_checks_end(in_project: bool, outcomes: Seq<Outcome>)
    requires
        outcomes.len() >= 3,
    ensures
        check_step(in_project, outcomes) is Done,
{
}

} // verus!
