//! The health check of the environment: a fixed list of independent checks
//! and one verdict over all of them.

use crate::document::{Doc, DocView};
use crate::lines::{find_line_with, first_line_with};
use crate::process::{Command, CommandView, Outcome, Step, StepView};
use crate::report::{
    glyph_text, opt_view, push_line, push_text, trim_str, Rendered, RenderedView, Status,
};
use crate::text::{chars_of, contains, includes, join2, lemma_views_push, lines, trim, views};
use vstd::prelude::*;

verus! {

/// One entry of a diagnostic run.
#[derive(Debug, PartialEq)]
pub struct DiagnosticCheck {
    pub name: String,
    pub status: Status,
    pub message: String,
    pub value: Option<String>,
}

/// A check as a value of specifications.
pub struct DiagnosticCheckView {
    pub name: Seq<char>,
    pub status: Status,
    pub message: Seq<char>,
    pub value: Option<Seq<char>>,
}

impl View for DiagnosticCheck {
    type V = DiagnosticCheckView;

    open spec fn view(&self) -> DiagnosticCheckView {
        DiagnosticCheckView {
            name: self.name@,
            status: self.status,
            message: self.message@,
            value: opt_view(self.value),
        }
    }
}

impl DiagnosticCheck {
    /// The status as the machine-readable report names it.
    pub fn status_label(&self) -> (r: &'static str)
        ensures
            r@ == status_label(self.status),
    {
        match self.status {
            Status::Success => "ok",
            Status::Warning => "warning",
            Status::Error => "error",
            Status::Info => "info",
            Status::Unknown => "unknown",
        }
    }
}

/// The name of a status in the machine-readable report.
pub open spec fn status_label(s: Status) -> Seq<char> {
    match s {
        Status::Success => "ok"@,
        Status::Warning => "warning"@,
        Status::Error => "error"@,
        Status::Info => "info"@,
        Status::Unknown => "unknown"@,
    }
}

/// What the health check reads besides the outcomes of its commands.
#[derive(Debug, PartialEq)]
pub struct Surroundings {
    pub cargo_home: Option<String>,
    pub rustup_home: Option<String>,
    pub path: Option<String>,
    pub in_project: bool,
}

/// The whole report: the verdict and the checks in the order they were made.
#[derive(Debug, PartialEq)]
pub struct DoctorReport {
    pub healthy: bool,
    pub checks: Vec<DiagnosticCheck>,
}

/// A report as a value of specifications.
pub struct DoctorReportView {
    pub healthy: bool,
    pub checks: Seq<DiagnosticCheckView>,
}

impl View for DoctorReport {
    type V = DoctorReportView;

    open spec fn view(&self) -> DoctorReportView {
        DoctorReportView { healthy: self.healthy, checks: views(self.checks@) }
    }
}

/// The commands of the health check, in the order they run: the compiler,
/// the package manager, the toolchain manager, the linter and the formatter.
pub open spec fn doctor_commands() -> Seq<CommandView> {
    seq![
        CommandView::new("rustc"@).arg("--version"@),
        CommandView::new("cargo"@).arg("--version"@),
        CommandView::new("rustup"@).arg("show"@),
        CommandView::new("cargo"@).arg("clippy"@).arg("--version"@),
        CommandView::new("cargo"@).arg("fmt"@).arg("--version"@),
    ]
}

/// The check for a program whose version is asked: found where the program
/// could be started, whatever its exit status.
pub open spec fn presence_check(
    name: Seq<char>,
    outcome: Outcome,
    found: Seq<char>,
    missing: Seq<char>,
    missing_status: Status,
) -> DiagnosticCheckView {
    match outcome {
        Outcome::Ran(r) => DiagnosticCheckView {
            name,
            status: Status::Success,
            message: found,
            value: Some(trim(r.stdout@)),
        },
        Outcome::Failed(_) => DiagnosticCheckView {
            name,
            status: missing_status,
            message: missing,
            value: None,
        },
    }
}

/// The line of the toolchain manager's summary that names the active
/// toolchain, or `unknown`.
pub open spec fn active_toolchain(summary: Seq<char>) -> Seq<char> {
    match first_line_with(lines(summary), "active toolchain"@) {
        Some(l) => l,
        None => "unknown"@,
    }
}

/// The check for the toolchain manager, which is optional.
pub open spec fn rustup_check(outcome: Outcome) -> DiagnosticCheckView {
    match outcome {
        Outcome::Ran(r) => DiagnosticCheckView {
            name: "Rustup"@,
            status: Status::Success,
            message: "rustup is available"@,
            value: Some(active_toolchain(r.stdout@)),
        },
        Outcome::Failed(_) => DiagnosticCheckView {
            name: "Rustup"@,
            status: Status::Warning,
            message: "rustup not found - toolchain management unavailable"@,
            value: None,
        },
    }
}

/// The check for an environment variable. Only the search path is required;
/// a search path that does not mention `cargo` draws a warning.
pub open spec fn variable_check(
    variable: Seq<char>,
    value: Option<Seq<char>>,
    is_search_path: bool,
) -> DiagnosticCheckView {
    match value {
        Some(v) => DiagnosticCheckView {
            name: "Environment: "@ + variable,
            status: if is_search_path && !contains(v, "cargo"@) {
                Status::Warning
            } else {
                Status::Success
            },
            message: variable + " is set"@,
            value: Some(v),
        },
        None => DiagnosticCheckView {
            name: "Environment: "@ + variable,
            status: if is_search_path {
                Status::Error
            } else {
                Status::Warning
            },
            message: variable + " is not set"@,
            value: None,
        },
    }
}

/// The check for the current directory, which is for information only.
pub open spec fn directory_check(in_project: bool) -> DiagnosticCheckView {
    if in_project {
        DiagnosticCheckView {
            name: "Current Directory"@,
            status: Status::Success,
            message: "In a Rust project directory"@,
            value: None,
        }
    } else {
        DiagnosticCheckView {
            name: "Current Directory"@,
            status: Status::Info,
            message: "Not in a Rust project directory"@,
            value: None,
        }
    }
}

/// The nine checks, in order, for the outcomes of the five commands.
pub open spec fn doctor_checks(outcomes: Seq<Outcome>, around: Surroundings) -> Seq<
    DiagnosticCheckView,
>
    recommends
        outcomes.len() >= 5,
{
    seq![
        presence_check(
            "Rust Compiler"@,
            outcomes[0],
            "rustc is available"@,
            "rustc not found in PATH"@,
            Status::Error,
        ),
        presence_check(
            "Cargo"@,
            outcomes[1],
            "cargo is available"@,
            "cargo not found in PATH"@,
            Status::Error,
        ),
        rustup_check(outcomes[2]),
        presence_check(
            "Tool: clippy"@,
            outcomes[3],
            "clippy is available"@,
            "clippy not available"@,
            Status::Error,
        ),
        presence_check(
            "Tool: rustfmt"@,
            outcomes[4],
            "rustfmt is available"@,
            "rustfmt not available"@,
            Status::Error,
        ),
        variable_check("CARGO_HOME"@, opt_view(around.cargo_home), false),
        variable_check("RUSTUP_HOME"@, opt_view(around.rustup_home), false),
        variable_check("PATH"@, opt_view(around.path), true),
        directory_check(around.in_project),
    ]
}

/// A run is healthy where no check ended in an error.
pub open spec fn all_clear(checks: Seq<DiagnosticCheckView>) -> bool {
    forall|i: int| 0 <= i < checks.len() ==> (#[trigger] checks[i]).status != Status::Error
}

/// The report for the outcomes of the five commands.
pub open spec fn doctor_report(outcomes: Seq<Outcome>, around: Surroundings) -> DoctorReportView
    recommends
        outcomes.len() >= 5,
{
    let checks = doctor_checks(outcomes, around);
    DoctorReportView { healthy: all_clear(checks), checks }
}

/// What the health check does after the given outcomes: it runs its five
/// commands one after another, whatever came of the earlier ones, and then
/// reports.
pub open spec fn doctor_step(outcomes: Seq<Outcome>, around: Surroundings) -> StepView<
    DoctorReportView,
> {
    if outcomes.len() < 5 {
        StepView::Run(doctor_commands()[outcomes.len() as int])
    } else {
        StepView::Done(doctor_report(outcomes, around))
    }
}

fn check_presence(
    name: &str,
    outcome: &Outcome,
    found: &str,
    missing: &str,
    missing_status: Status,
) -> (r: DiagnosticCheck)
    ensures
        r@ == presence_check(name@, *outcome, found@, missing@, missing_status),
{
    match outcome {
        Outcome::Ran(res) => DiagnosticCheck {
            name: name.to_owned(),
            status: Status::Success,
            message: found.to_owned(),
            value: Some(trim_str(res.stdout.as_str())),
        },
        Outcome::Failed(_) => DiagnosticCheck {
            name: name.to_owned(),
            status: missing_status,
            message: missing.to_owned(),
            value: None,
        },
    }
}

fn check_rustup(outcome: &Outcome) -> (r: DiagnosticCheck)
    ensures
        r@ == rustup_check(*outcome),
{
    match outcome {
        Outcome::Ran(res) => {
            let active = match find_line_with(res.stdout.as_str(), "active toolchain") {
                Some(l) => l,
                None => "unknown".to_owned(),
            };
            DiagnosticCheck {
                name: "Rustup".to_owned(),
                status: Status::Success,
                message: "rustup is available".to_owned(),
                value: Some(active),
            }
        },
        Outcome::Failed(_) => DiagnosticCheck {
            name: "Rustup".to_owned(),
            status: Status::Warning,
            message: "rustup not found - toolchain management unavailable".to_owned(),
            value: None,
        },
    }
}

fn check_variable(variable: &str, value: &Option<String>, is_search_path: bool) -> (r:
    DiagnosticCheck)
    ensures
        r@ == variable_check(variable@, opt_view(*value), is_search_path),
{
    match value {
        Some(v) => {
            let mentions = includes(&chars_of(v.as_str()), &chars_of("cargo"));
            DiagnosticCheck {
                name: join2("Environment: ", variable),
                status: if is_search_path && !mentions {
                    Status::Warning
                } else {
                    Status::Success
                },
                message: join2(variable, " is set"),
                value: Some(v.clone()),
            }
        },
        None => DiagnosticCheck {
            name: join2("Environment: ", variable),
            status: if is_search_path {
                Status::Error
            } else {
                Status::Warning
            },
            message: join2(variable, " is not set"),
            value: None,
        },
    }
}

fn check_directory(in_project: bool) -> (r: DiagnosticCheck)
    ensures
        r@ == directory_check(in_project),
{
    if in_project {
        DiagnosticCheck {
            name: "Current Directory".to_owned(),
            status: Status::Success,
            message: "In a Rust project directory".to_owned(),
            value: None,
        }
    } else {
        DiagnosticCheck {
            name: "Current Directory".to_owned(),
            status: Status::Info,
            message: "Not in a Rust project directory".to_owned(),
            value: None,
        }
    }
}

/// Whether no check ended in an error.
pub fn no_errors(checks: &Vec<DiagnosticCheck>) -> (r: bool)
    ensures
        r == all_clear(views(checks@)),
{
    let mut i: usize = 0;
    while i < checks.len()
        invariant
            i <= checks.len(),
            forall|j: int| 0 <= j < i ==> (#[trigger] views(checks@)[j]).status != Status::Error,
        decreases checks.len() - i,
    {
        if checks[i].status == Status::Error {
            assert(views(checks@)[i as int].status == Status::Error);
            return false;
        }
        i += 1;
    }
    true
}

/// The command that the health check runs as its `index`-th.
pub fn doctor_command(index: usize) -> (r: Command)
    requires
        index < 5,
    ensures
        r@ == doctor_commands()[index as int],
{
    if index == 0 {
        Command::new("rustc").arg("--version")
    } else if index == 1 {
        Command::new("cargo").arg("--version")
    } else if index == 2 {
        Command::new("rustup").arg("show")
    } else if index == 3 {
        Command::new("cargo").arg("clippy").arg("--version")
    } else {
        Command::new("cargo").arg("fmt").arg("--version")
    }
}

/// The next step of the health check after the given outcomes.
pub fn next(outcomes: &Vec<Outcome>, around: &Surroundings) -> (r: Step<DoctorReport>)
    ensures
        r@ == doctor_step(outcomes@, *around),
{
    if outcomes.len() < 5 {
        return Step::Run(doctor_command(outcomes.len()));
    }
    let mut checks: Vec<DiagnosticCheck> = Vec::new();
    checks.push(
        check_presence(
            "Rust Compiler",
            &outcomes[0],
            "rustc is available",
            "rustc not found in PATH",
            Status::Error,
        ),
    );
    checks.push(
        check_presence(
            "Cargo",
            &outcomes[1],
            "cargo is available",
            "cargo not found in PATH",
            Status::Error,
        ),
    );
    checks.push(check_rustup(&outcomes[2]));
    checks.push(
        check_presence(
            "Tool: clippy",
            &outcomes[3],
            "clippy is available",
            "clippy not available",
            Status::Error,
        ),
    );
    checks.push(
        check_presence(
            "Tool: rustfmt",
            &outcomes[4],
            "rustfmt is available",
            "rustfmt not available",
            Status::Error,
        ),
    );
    checks.push(check_variable("CARGO_HOME", &around.cargo_home, false));
    checks.push(check_variable("RUSTUP_HOME", &around.rustup_home, false));
    checks.push(check_variable("PATH", &around.path, true));
    checks.push(check_directory(around.in_project));
    assert(views(checks@) =~= doctor_checks(outcomes@, *around));
    let healthy = no_errors(&checks);
    Step::Done(DoctorReport { healthy, checks })
}

/// The first line of the report for a reader.
pub open spec fn verdict_line(healthy: bool) -> Seq<char> {
    if healthy {
        "🩺 Environment Health: ✅ Healthy"@
    } else {
        "🩺 Environment Health: \u{26a0}\u{fe0f}  Issues Found"@
    }
}

/// The line of one check: glyph, name and message, and the value in
/// brackets where there is one that is not empty.
pub open spec fn check_line(c: DiagnosticCheckView) -> Seq<char> {
    let base = glyph_text(c.status) + " "@ + c.name + ": "@ + c.message;
    match c.value {
        Some(v) => if v.len() > 0 {
            base + " ("@ + v + ")"@
        } else {
            base
        },
        None => base,
    }
}

/// What follows the checks where the verdict is not healthy.
pub open spec fn suggestion_lines() -> Seq<Seq<char>> {
    seq![
        ""@,
        "💡 Suggestions:"@,
        "   • Install missing tools with: rustup component add clippy rustfmt"@,
        "   • Ensure Rust toolchain is properly installed via rustup.rs"@,
        "   • Check that ~/.cargo/bin is in your PATH"@,
    ]
}

/// The report for a reader: the verdict, an empty line, one line for each
/// check, and the suggestions where the verdict is not healthy.
pub open spec fn doctor_lines(r: DoctorReportView) -> Seq<Seq<char>> {
    seq![verdict_line(r.healthy), ""@] + r.checks.map_values(|c: DiagnosticCheckView| check_line(c))
        + if r.healthy {
        Seq::<Seq<char>>::empty()
    } else {
        suggestion_lines()
    }
}

/// The line of one check.
pub fn render_check(c: &DiagnosticCheck) -> (r: String)
    ensures
        r@ == check_line(c@),
{
    let mut line = String::from_str(c.status.glyph());
    line.append(" ");
    line.append(c.name.as_str());
    line.append(": ");
    line.append(c.message.as_str());
    match &c.value {
        Some(v) => {
            if v.as_str().unicode_len() > 0 {
                line.append(" (");
                line.append(v.as_str());
                line.append(")");
            }
        },
        None => {},
    }
    line
}

/// The report as lines for a reader.
pub fn render(report: &DoctorReport) -> (r: Vec<String>)
    ensures
        views(r@) == doctor_lines(report@),
{
    let mut out: Vec<String> = Vec::new();
    if report.healthy {
        push_line(&mut out, "🩺 Environment Health: ✅ Healthy");
    } else {
        push_line(&mut out, "🩺 Environment Health: \u{26a0}\u{fe0f}  Issues Found");
    }
    push_line(&mut out, "");
    let ghost head = seq![verdict_line(report.healthy), ""@];
    let ghost each = views(report.checks@).map_values(|c: DiagnosticCheckView| check_line(c));
    let mut i: usize = 0;
    while i < report.checks.len()
        invariant
            i <= report.checks.len(),
            each == views(report.checks@).map_values(|c: DiagnosticCheckView| check_line(c)),
            views(out@) == head + each.take(i as int),
        decreases report.checks.len() - i,
    {
        let line = render_check(&report.checks[i]);
        push_text(&mut out, line);
        i += 1;
    }
    if !report.healthy {
        push_line(&mut out, "");
        push_line(&mut out, "💡 Suggestions:");
        push_line(
            &mut out,
            "   • Install missing tools with: rustup component add clippy rustfmt",
        );
        push_line(&mut out, "   • Ensure Rust toolchain is properly installed via rustup.rs");
        push_line(&mut out, "   • Check that ~/.cargo/bin is in your PATH");
    }
    out
}

/// Where the compiler cannot be started the verdict is not healthy, whatever
/// the other checks find.
pub proof fn law_missing_compiler_is_unhealthy(outcomes: Seq<Outcome>, around: Surroundings)
    requires
        outcomes.len() >= 5,
        outcomes[0] is Failed,
    ensures
        !doctor_report(outcomes, around).healthy,
{
}

/// The verdict is healthy exactly where the compiler, the package manager,
/// the linter and the formatter could be started and the search path is set.
/// So a toolchain manager that is missing, or one of the two home variables,
/// leaves a healthy verdict healthy.
pub proof fn law_verdict(outcomes: Seq<Outcome>, around: Surroundings)
    requires
        outcomes.len() >= 5,
    ensures
        doctor_report(outcomes, around).healthy <==> (outcomes[0] is Ran && outcomes[1] is Ran
            && outcomes[3] is Ran && outcomes[4] is Ran && around.path is Some),
{
}

/// Every command of the health check runs, each in its place, whatever the
/// earlier ones came to; the report then holds all nine checks.
pub proof fn law_no_short_circuit(outcomes: Seq<Outcome>, around: Surroundings)
    ensures
        outcomes.len() < 5 ==> doctor_step(outcomes, around) == StepView::<
            DoctorReportView,
        >::Run(doctor_commands()[outcomes.len() as int]),
        outcomes.len() >= 5 ==> doctor_step(outcomes, around) is Done && doctor_report(
            outcomes,
            around,
        ).checks.len() == 9,
{
}

/// The record of one check: its name and status, its value where it has
/// one, and its message.
pub open spec fn check_document(c: DiagnosticCheckView) -> DocView {
    DocView::record().with("name"@, DocView::Text(c.name)).with(
        "status"@,
        DocView::Text(status_label(c.status)),
    ).with_text("value"@, c.value).with("message"@, DocView::Text(c.message))
}

/// The document of the report.
pub open spec fn doctor_document(r: DoctorReportView) -> DocView {
    DocView::record().with(
        "overall_status"@,
        DocView::Text(
            if r.healthy {
                "healthy"@
            } else {
                "issues_found"@
            },
        ),
    ).with("checks"@, DocView::List(r.checks.map_values(|c: DiagnosticCheckView| check_document(c))))
}

/// The report in both forms. It is no failure, whatever it found.
pub open spec fn doctor_rendered(r: DoctorReportView) -> RenderedView {
    RenderedView::new(doctor_document(r)).more(doctor_lines(r))
}

impl DiagnosticCheck {
    /// The record of this check.
    pub fn document(&self) -> (r: Doc)
        ensures
            r@ == check_document(self@),
    {
        Doc::record().with("name", Doc::text(self.name.as_str())).with(
            "status",
            Doc::text(self.status_label()),
        ).with_text("value", &self.value).with("message", Doc::text(self.message.as_str()))
    }
}

impl DoctorReport {
    /// The document of the report.
    pub fn document(&self) -> (r: Doc)
        ensures
            r@ == doctor_document(self@),
    {
        let ghost all = views(self.checks@);
        let mut docs: Vec<Doc> = Vec::new();
        let mut i: usize = 0;
        while i < self.checks.len()
            invariant
                i <= self.checks.len(),
                all == views(self.checks@),
                views(docs@) =~= all.take(i as int).map_values(
                    |c: DiagnosticCheckView| check_document(c),
                ),
            decreases self.checks.len() - i,
        {
            let doc = self.checks[i].document();
            proof {
                lemma_views_push(docs@, doc);
            }
            docs.push(doc);
            i += 1;
        }
        assert(all.take(self.checks.len() as int) =~= all);
        Doc::record().with(
            "overall_status",
            Doc::text(
                if self.healthy {
                    "healthy"
                } else {
                    "issues_found"
                },
            ),
        ).with("checks", Doc::list(docs))
    }

    /// The report in both forms.
    pub fn rendered(&self) -> (r: Rendered)
        ensures
            r@ == doctor_rendered(self@),
    {
        Rendered::new(self.document()).more(render(self))
    }
}

/// What the health check does after the given outcomes, with its report
/// in both forms.
pub open spec fn doctor_run(outcomes: Seq<Outcome>, around: Surroundings) -> StepView<RenderedView> {
    match doctor_step(outcomes, around) {
        StepView::Run(c) => StepView::Run(c),
        StepView::Done(r) => StepView::Done(doctor_rendered(r)),
    }
}

/// The next step of the health check, with its report rendered.
pub fn run(outcomes: &Vec<Outcome>, around: &Surroundings) -> (r: Step<Rendered>)
    ensures
        r@ == doctor_run(outcomes@, *around),
{
    match next(outcomes, around) {
        Step::Run(c) => Step::Run(c),
        Step::Done(report) => Step::Done(report.rendered()),
    }
}

} // verus!
