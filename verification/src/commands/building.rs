//! The release build, with how long it took and how large the binary is.

use crate::commands::check::{not_a_project, outside_project};
use crate::document::{Doc, DocView};
use crate::manifest::{package_name, read_package_name};
use crate::process::{exec_error_text, Command, CommandView, Outcome, Step, StepView};
use crate::report::{opt_view, push_line, Rendered, RenderedView};
use crate::text::{join2, join4, views};
use crate::utils::{bytes_text, duration_nanos, duration_text, format_bytes, format_duration};
use vstd::prelude::*;

verus! {

/// The binary that a build left behind.
#[derive(Debug, PartialEq)]
pub struct Binary {
    pub path: String,
    pub size: u64,
}

impl View for Binary {
    type V = (Seq<char>, u64);

    open spec fn view(&self) -> (Seq<char>, u64) {
        (self.path@, self.size)
    }
}

/// Where the binary of a package may stand after a release build, in the
/// order in which the places are tried.
pub open spec fn candidate_paths(package: Seq<char>) -> Seq<Seq<char>> {
    seq![
        "target/release/"@ + package,
        "target/x86_64-unknown-linux-gnu/release/"@ + package,
        "target/aarch64-unknown-linux-gnu/release/"@ + package,
    ]
}

/// The places to try for the text of a manifest: none where there is no
/// text, or where the text names no package.
pub open spec fn candidates_for(manifest: Option<Seq<char>>) -> Seq<Seq<char>> {
    match manifest {
        Some(text) => match package_name(text) {
            Some(name) => candidate_paths(name),
            None => Seq::empty(),
        },
        None => Seq::empty(),
    }
}

/// The places where the binary may stand.
pub fn binary_candidates(manifest: &Option<String>) -> (r: Vec<String>)
    ensures
        views(r@) == candidates_for(opt_view(*manifest)),
{
    let mut out: Vec<String> = Vec::new();
    match manifest {
        Some(text) => match read_package_name(text.as_str()) {
            Some(name) => {
                crate::report::push_text(&mut out, join2("target/release/", name.as_str()));
                crate::report::push_text(
                    &mut out,
                    join2("target/x86_64-unknown-linux-gnu/release/", name.as_str()),
                );
                crate::report::push_text(
                    &mut out,
                    join2("target/aarch64-unknown-linux-gnu/release/", name.as_str()),
                );
                out
            },
            None => out,
        },
        None => out,
    }
}

/// The first place whose size is known, with that size. A size is known
/// where the file exists and could be measured.
pub open spec fn chosen(paths: Seq<Seq<char>>, sizes: Seq<Option<u64>>) -> Option<(Seq<char>, u64)>
    decreases paths.len(),
{
    if paths.len() == 0 || sizes.len() == 0 {
        None
    } else {
        match sizes[0] {
            Some(size) => Some((paths[0], size)),
            None => chosen(paths.drop_first(), sizes.drop_first()),
        }
    }
}

/// Picks the binary among the places that were tried.
pub fn choose_binary(paths: &Vec<String>, sizes: &Vec<Option<u64>>) -> (r: Option<Binary>)
    ensures
        match r {
            Some(b) => chosen(views(paths@), sizes@) == Some(b@),
            None => chosen(views(paths@), sizes@) is None,
        },
{
    let ghost all = views(paths@);
    assert(all.skip(0) =~= all);
    assert(sizes@.skip(0) =~= sizes@);
    let mut i: usize = 0;
    while i < paths.len() && i < sizes.len()
        invariant
            i <= paths.len(),
            i <= sizes.len(),
            all == views(paths@),
            chosen(all, sizes@) == chosen(all.skip(i as int), sizes@.skip(i as int)),
        decreases paths.len() - i,
    {
        match sizes[i] {
            Some(size) => {
                return Some(Binary { path: paths[i].clone(), size });
            },
            None => {},
        }
        assert(all.skip(i as int).drop_first() =~= all.skip(i + 1));
        assert(sizes@.skip(i as int).drop_first() =~= sizes@.skip(i + 1));
        i += 1;
    }
    None
}

/// The command of the release build, with its time measured.
pub open spec fn build_command() -> CommandView {
    CommandView::new("cargo"@).arg("build"@).arg("--release"@).timed()
}

/// The record of the binary, or `Null` where none was found.
pub open spec fn binary_document(binary: Option<(Seq<char>, u64)>) -> DocView {
    match binary {
        Some((path, size)) => DocView::record().with("path"@, DocView::Text(path)).with(
            "size_bytes"@,
            DocView::Number(size as nat),
        ).with("size_formatted"@, DocView::Text(bytes_text(size as nat))),
        None => DocView::Null,
    }
}

/// The measured time after `word`, or nothing where none was measured.
pub open spec fn timed_phrase(word: Seq<char>, elapsed: Option<nat>) -> Seq<char> {
    match elapsed {
        Some(n) => word + duration_text(n),
        None => Seq::empty(),
    }
}

/// A text as a line of its own, unless it is empty.
pub open spec fn unless_empty(text: Seq<char>) -> Seq<Seq<char>> {
    if text.len() == 0 {
        Seq::empty()
    } else {
        seq![text]
    }
}

/// The build in both forms.
pub open spec fn build_rendered(outcome: Outcome, binary: Option<(Seq<char>, u64)>) -> RenderedView {
    match outcome {
        Outcome::Ran(r) => {
            let base = DocView::record().with("success"@, DocView::Bool(r.succeeded));
            let timed = match r.elapsed_nanos() {
                Some(n) => base.with("duration"@, DocView::Text(duration_text(n))),
                None => base,
            };
            let shown = RenderedView::new(
                timed.with("binary"@, binary_document(binary)).with(
                    "stdout"@,
                    DocView::Text(r.stdout@),
                ).with("stderr"@, DocView::Text(r.stderr@)),
            );
            if r.succeeded {
                let done = shown.line(
                    "✅ Build completed successfully"@ + timed_phrase(" in "@, r.elapsed_nanos()),
                );
                let sized = match binary {
                    Some((path, size)) => done.line(
                        "📦 Binary: "@ + path + " ("@ + bytes_text(size as nat) + ")"@,
                    ),
                    None => done,
                };
                if r.stderr@.len() > 0 {
                    sized.line("\n\u{26a0}\u{fe0f}  Warnings:"@).line(r.stderr@)
                } else {
                    sized
                }
            } else {
                shown.line("❌ Build failed"@ + timed_phrase(" after "@, r.elapsed_nanos())).more(
                    unless_empty(r.stderr@),
                ).more(unless_empty(r.stdout@))
            }
        },
        Outcome::Failed(e) => RenderedView::new(
            DocView::record().with("success"@, DocView::Bool(false)).with(
                "error"@,
                DocView::Text(exec_error_text(e.command_line@)),
            ),
        ).line("❌ Failed to run cargo build: "@ + exec_error_text(e.command_line@)),
    }
}

/// What the build does after the given outcomes. Outside a project nothing
/// is run. Otherwise the build runs, and its result is reported with the
/// binary that was found. The build is no failure of the subcommand,
/// however it went.
pub open spec fn build_step(
    in_project: bool,
    outcomes: Seq<Outcome>,
    binary: Option<(Seq<char>, u64)>,
) -> StepView<RenderedView> {
    if !in_project {
        StepView::Done(not_a_project())
    } else if outcomes.len() == 0 {
        StepView::Run(build_command())
    } else {
        StepView::Done(build_rendered(outcomes[0], binary))
    }
}

fn phrase(word: &str, elapsed: &Option<std::time::Duration>) -> (r: String)
    ensures
        r@ == timed_phrase(
            word@,
            match *elapsed {
                Some(d) => Some(duration_nanos(d)),
                None => None,
            },
        ),
{
    match elapsed {
        Some(d) => join2(word, format_duration(*d).as_str()),
        None => String::new(),
    }
}

fn line_unless_empty(text: &str) -> (r: Vec<String>)
    ensures
        views(r@) == unless_empty(text@),
{
    let mut out: Vec<String> = Vec::new();
    if text.unicode_len() > 0 {
        push_line(&mut out, text);
    }
    out
}

/// The next step of the build after the given outcomes.
pub fn next(in_project: bool, outcomes: &Vec<Outcome>, binary: &Option<Binary>) -> (r: Step<
    Rendered,
>)
    ensures
        r@ == build_step(
            in_project,
            outcomes@,
            match *binary {
                Some(b) => Some(b@),
                None => None,
            },
        ),
{
    if !in_project {
        return Step::Done(outside_project());
    }
    if outcomes.len() == 0 {
        return Step::Run(Command::new("cargo").arg("build").arg("--release").timed());
    }
    match &outcomes[0] {
        Outcome::Ran(res) => {
            let base = Doc::record().with("success", Doc::Bool(res.succeeded));
            let timed = match &res.elapsed {
                Some(d) => base.with("duration", Doc::text(format_duration(*d).as_str())),
                None => base,
            };
            let found = match binary {
                Some(b) => Doc::record().with("path", Doc::text(b.path.as_str())).with(
                    "size_bytes",
                    Doc::Number(b.size),
                ).with("size_formatted", Doc::text(format_bytes(b.size).as_str())),
                None => Doc::Null,
            };
            let shown = Rendered::new(
                timed.with("binary", found).with("stdout", Doc::text(res.stdout.as_str())).with(
                    "stderr",
                    Doc::text(res.stderr.as_str()),
                ),
            );
            if res.succeeded {
                let done = shown.text(
                    join2("✅ Build completed successfully", phrase(" in ", &res.elapsed).as_str()),
                );
                let sized = match binary {
                    Some(b) => {
                        let mut line = join4(
                            "📦 Binary: ",
                            b.path.as_str(),
                            " (",
                            format_bytes(b.size).as_str(),
                        );
                        line.append(")");
                        done.text(line)
                    },
                    None => done,
                };
                if res.stderr.as_str().unicode_len() > 0 {
                    Step::Done(
                        sized.line("\n\u{26a0}\u{fe0f}  Warnings:").line(res.stderr.as_str()),
                    )
                } else {
                    Step::Done(sized)
                }
            } else {
                Step::Done(
                    shown.text(
                        join2("❌ Build failed", phrase(" after ", &res.elapsed).as_str()),
                    ).more(line_unless_empty(res.stderr.as_str())).more(
                        line_unless_empty(res.stdout.as_str()),
                    ),
                )
            }
        },
        Outcome::Failed(e) => {
            let error = e.message();
            Step::Done(
                Rendered::new(
                    Doc::record().with("success", Doc::Bool(false)).with(
                        "error",
                        Doc::text(error.as_str()),
                    ),
                ).text(join2("❌ Failed to run cargo build: ", error.as_str())),
            )
        },
    }
}

/// Outside a project the build ends at once with the report that this is
/// no project: it asks for no command, whatever outcomes it is shown.
pub proof fn law_outside_project_runs_nothing(
    outcomes: Seq<Outcome>,
    binary: Option<(Seq<char>, u64)>,
)
    ensures
        build_step(false, outcomes, binary) == StepView::Done(not_a_project()),
        !(build_step(false, outcomes, binary) is Run),
{
}

/// The build is done after one command.
pub proof fn law_build_ends(
    in_project: bool,
    outcomes: Seq<Outcome>,
    binary: Option<(Seq<char>, u64)>,
)
    requires
        outcomes.len() >= 1,
    ensures
        build_step(in_project, outcomes, binary) is Done,
{
}

} // verus!
