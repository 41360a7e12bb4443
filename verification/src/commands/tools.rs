//! The inventory of development tools: which of a fixed list can be
//! started, and what version each reports.

use crate::document::{Doc, DocView};
use crate::lines::{first_line, first_line_or};
use crate::process::{Command, CommandView, Outcome, Step, StepView};
use crate::report::{push_line, push_text, trim_str, Rendered, RenderedView};
use crate::text::{decimal, decimal_chars, join2, join4, lemma_views_push, string_of, trim, views};
use vstd::prelude::*;

verus! {

/// How many tools the inventory asks for.
pub const TOOL_COUNT: usize = 18;

/// The name of each tool of the inventory.
pub open spec fn catalog_name(index: int) -> Seq<char> {
    if index == 0 {
        "rustc"@
    } else if index == 1 {
        "cargo"@
    } else if index == 2 {
        "rustfmt"@
    } else if index == 3 {
        "clippy"@
    } else if index == 4 {
        "rustup"@
    } else if index == 5 {
        "cargo-watch"@
    } else if index == 6 {
        "cargo-edit"@
    } else if index == 7 {
        "cargo-audit"@
    } else if index == 8 {
        "cargo-outdated"@
    } else if index == 9 {
        "cargo-tree"@
    } else if index == 10 {
        "cargo-expand"@
    } else if index == 11 {
        "cargo-flamegraph"@
    } else if index == 12 {
        "cargo-criterion"@
    } else if index == 13 {
        "rust-analyzer"@
    } else if index == 14 {
        "rls"@
    } else if index == 15 {
        "gdb"@
    } else if index == 16 {
        "lldb"@
    } else {
        "valgrind"@
    }
}

/// The line of words that asks each tool for its version.
pub open spec fn catalog_line(index: int) -> Seq<char> {
    if index == 0 {
        "rustc --version"@
    } else if index == 1 {
        "cargo --version"@
    } else if index == 2 {
        "rustfmt --version"@
    } else if index == 3 {
        "cargo clippy --version"@
    } else if index == 4 {
        "rustup --version"@
    } else if index == 5 {
        "cargo watch --version"@
    } else if index == 6 {
        "cargo add --version"@
    } else if index == 7 {
        "cargo audit --version"@
    } else if index == 8 {
        "cargo outdated --version"@
    } else if index == 9 {
        "cargo tree --version"@
    } else if index == 10 {
        "cargo expand --version"@
    } else if index == 11 {
        "cargo flamegraph --version"@
    } else if index == 12 {
        "cargo criterion --version"@
    } else if index == 13 {
        "rust-analyzer --version"@
    } else if index == 14 {
        "rls --version"@
    } else if index == 15 {
        "gdb --version"@
    } else if index == 16 {
        "lldb --version"@
    } else {
        "valgrind --version"@
    }
}

/// The name of a tool of the inventory.
pub fn tool_name(index: usize) -> (r: &'static str)
    ensures
        r@ == catalog_name(index as int),
{
    if index == 0 {
        "rustc"
    } else if index == 1 {
        "cargo"
    } else if index == 2 {
        "rustfmt"
    } else if index == 3 {
        "clippy"
    } else if index == 4 {
        "rustup"
    } else if index == 5 {
        "cargo-watch"
    } else if index == 6 {
        "cargo-edit"
    } else if index == 7 {
        "cargo-audit"
    } else if index == 8 {
        "cargo-outdated"
    } else if index == 9 {
        "cargo-tree"
    } else if index == 10 {
        "cargo-expand"
    } else if index == 11 {
        "cargo-flamegraph"
    } else if index == 12 {
        "cargo-criterion"
    } else if index == 13 {
        "rust-analyzer"
    } else if index == 14 {
        "rls"
    } else if index == 15 {
        "gdb"
    } else if index == 16 {
        "lldb"
    } else {
        "valgrind"
    }
}

/// The line that asks a tool of the inventory for its version.
pub fn tool_line(index: usize) -> (r: &'static str)
    ensures
        r@ == catalog_line(index as int),
{
    if index == 0 {
        "rustc --version"
    } else if index == 1 {
        "cargo --version"
    } else if index == 2 {
        "rustfmt --version"
    } else if index == 3 {
        "cargo clippy --version"
    } else if index == 4 {
        "rustup --version"
    } else if index == 5 {
        "cargo watch --version"
    } else if index == 6 {
        "cargo add --version"
    } else if index == 7 {
        "cargo audit --version"
    } else if index == 8 {
        "cargo outdated --version"
    } else if index == 9 {
        "cargo tree --version"
    } else if index == 10 {
        "cargo expand --version"
    } else if index == 11 {
        "cargo flamegraph --version"
    } else if index == 12 {
        "cargo criterion --version"
    } else if index == 13 {
        "rust-analyzer --version"
    } else if index == 14 {
        "rls --version"
    } else if index == 15 {
        "gdb --version"
    } else if index == 16 {
        "lldb --version"
    } else {
        "valgrind --version"
    }
}

/// The version that a tool reported: the first line of what it printed,
/// trimmed.
pub open spec fn version_of(output: Seq<char>) -> Seq<char> {
    trim(first_line_or(output, "unknown version"@))
}

/// The tools among the first `n` that could be started, each with its
/// version, in order.
pub open spec fn found_tools(outcomes: Seq<Outcome>, n: nat) -> Seq<(Seq<char>, Seq<char>)>
    decreases n,
{
    if n == 0 {
        Seq::empty()
    } else {
        match outcomes[n - 1] {
            Outcome::Ran(r) => found_tools(outcomes, (n - 1) as nat).push(
                (catalog_name(n - 1), version_of(r.stdout@)),
            ),
            Outcome::Failed(_) => found_tools(outcomes, (n - 1) as nat),
        }
    }
}

/// The tools among the first `n` that could not be started, in order.
pub open spec fn missing_tools(outcomes: Seq<Outcome>, n: nat) -> Seq<Seq<char>>
    decreases n,
{
    if n == 0 {
        Seq::empty()
    } else {
        match outcomes[n - 1] {
            Outcome::Ran(_) => missing_tools(outcomes, (n - 1) as nat),
            Outcome::Failed(_) => missing_tools(outcomes, (n - 1) as nat).push(catalog_name(n - 1)),
        }
    }
}

/// Every tool is found or missing, never both.
pub proof fn law_found_or_missing(outcomes: Seq<Outcome>, n: nat)
    requires
        n <= outcomes.len(),
    ensures
        found_tools(outcomes, n).len() + missing_tools(outcomes, n).len() == n,
    decreases n,
{
    if n > 0 {
        law_found_or_missing(outcomes, (n - 1) as nat);
    }
}

/// The record of a tool that was found.
pub open spec fn found_document(t: (Seq<char>, Seq<char>)) -> DocView {
    DocView::record().with("name"@, DocView::Text(t.0)).with("version"@, DocView::Text(t.1)).with(
        "status"@,
        DocView::Text("available"@),
    )
}

/// The record of a tool that is missing.
pub open spec fn missing_document(name: Seq<char>) -> DocView {
    DocView::record().with("name"@, DocView::Text(name)).with(
        "status"@,
        DocView::Text("not_found"@),
    )
}

/// The line of a tool that was found.
pub open spec fn found_line(t: (Seq<char>, Seq<char>)) -> Seq<char> {
    "  "@ + t.0 + " - "@ + t.1
}

/// The line of a tool that is missing.
pub open spec fn missing_line(name: Seq<char>) -> Seq<char> {
    "  "@ + name
}

/// What follows the list of missing tools.
pub open spec fn install_hints() -> Seq<Seq<char>> {
    seq![
        ""@,
        "💡 Installation suggestions:"@,
        "  • cargo install cargo-watch cargo-edit cargo-audit cargo-outdated"@,
        "  • cargo install cargo-expand flamegraph cargo-criterion"@,
        "  • Install rust-analyzer via your editor or rustup component add rust-analyzer"@,
    ]
}

/// The inventory in both forms.
pub open spec fn inventory(
    found: Seq<(Seq<char>, Seq<char>)>,
    missing: Seq<Seq<char>>,
) -> RenderedView {
    RenderedView::new(
        DocView::record().with(
            "found_tools"@,
            DocView::List(found.map_values(|t: (Seq<char>, Seq<char>)| found_document(t))),
        ).with(
            "missing_tools"@,
            DocView::List(missing.map_values(|n: Seq<char>| missing_document(n))),
        ).with(
            "summary"@,
            DocView::record().with("total_found"@, DocView::Number(found.len())).with(
                "total_missing"@,
                DocView::Number(missing.len()),
            ),
        ),
    ).line("🔧 Rust Development Tools"@).line("=========================="@).line(
        "Found: "@ + decimal(found.len()) + " tools | Missing: "@ + decimal(missing.len())
            + " tools"@,
    ).line(""@).more(
        if found.len() > 0 {
            seq!["✅ Available Tools:"@] + found.map_values(
                |t: (Seq<char>, Seq<char>)| found_line(t),
            )
        } else {
            Seq::empty()
        },
    ).more(
        if missing.len() > 0 {
            seq![""@, "❌ Missing Tools:"@] + missing.map_values(|n: Seq<char>| missing_line(n))
                + install_hints()
        } else {
            Seq::empty()
        },
    )
}

/// What the inventory does after the given outcomes: it asks every tool of
/// the list, in order, and then reports.
pub open spec fn tools_step(outcomes: Seq<Outcome>) -> StepView<RenderedView> {
    if outcomes.len() < TOOL_COUNT {
        StepView::Run(CommandView::of_line(catalog_line(outcomes.len() as int)))
    } else {
        StepView::Done(
            inventory(
                found_tools(outcomes, TOOL_COUNT as nat),
                missing_tools(outcomes, TOOL_COUNT as nat),
            ),
        )
    }
}

/// The next step of the inventory after the given outcomes.
pub fn next(outcomes: &Vec<Outcome>) -> (r: Step<Rendered>)
    ensures
        r@ == tools_step(outcomes@),
{
    if outcomes.len() < TOOL_COUNT {
        return Step::Run(Command::of_line(tool_line(outcomes.len())));
    }
    let mut found_docs: Vec<Doc> = Vec::new();
    let mut found_lines: Vec<String> = Vec::new();
    let mut missing_docs: Vec<Doc> = Vec::new();
    let mut missing_lines: Vec<String> = Vec::new();
    push_line(&mut found_lines, "✅ Available Tools:");
    push_line(&mut missing_lines, "");
    push_line(&mut missing_lines, "❌ Missing Tools:");
    let mut i: usize = 0;
    while i < TOOL_COUNT
        invariant
            i <= TOOL_COUNT <= outcomes.len(),
            found_docs@.len() <= i,
            missing_docs@.len() <= i,
            views(found_docs@) =~= found_tools(outcomes@, i as nat).map_values(
                |t: (Seq<char>, Seq<char>)| found_document(t),
            ),
            views(found_lines@) =~= seq!["✅ Available Tools:"@] + found_tools(
                outcomes@,
                i as nat,
            ).map_values(|t: (Seq<char>, Seq<char>)| found_line(t)),
            views(missing_docs@) =~= missing_tools(outcomes@, i as nat).map_values(
                |n: Seq<char>| missing_document(n),
            ),
            views(missing_lines@) =~= seq![""@, "❌ Missing Tools:"@] + missing_tools(
                outcomes@,
                i as nat,
            ).map_values(|n: Seq<char>| missing_line(n)),
        decreases TOOL_COUNT - i,
    {
        let name = tool_name(i);
        match &outcomes[i] {
            Outcome::Ran(res) => {
                let version = trim_str(first_line(res.stdout.as_str(), "unknown version").as_str());
                let doc = Doc::record().with("name", Doc::text(name)).with(
                    "version",
                    Doc::text(version.as_str()),
                ).with("status", Doc::text("available"));
                proof {
                    lemma_views_push(found_docs@, doc);
                }
                found_docs.push(doc);
                push_text(&mut found_lines, join4("  ", name, " - ", version.as_str()));
            },
            Outcome::Failed(_) => {
                let doc = Doc::record().with("name", Doc::text(name)).with(
                    "status",
                    Doc::text("not_found"),
                );
                proof {
                    lemma_views_push(missing_docs@, doc);
                }
                missing_docs.push(doc);
                push_text(&mut missing_lines, join2("  ", name));
            },
        }
        i += 1;
    }
    let found_count = found_docs.len();
    let missing_count = missing_docs.len();
    let ghost found = found_tools(outcomes@, TOOL_COUNT as nat);
    let ghost missing = missing_tools(outcomes@, TOOL_COUNT as nat);
    assert(found.len() == found_count) by {}
    assert(missing.len() == missing_count) by {}
    let mut summary = String::from_str("Found: ");
    summary.append(string_of(&decimal_chars(found_count as u128)).as_str());
    summary.append(" tools | Missing: ");
    summary.append(string_of(&decimal_chars(missing_count as u128)).as_str());
    summary.append(" tools");
    if found_count == 0 {
        found_lines = Vec::new();
    }
    if missing_count == 0 {
        missing_lines = Vec::new();
    } else {
        push_line(&mut missing_lines, "");
        push_line(&mut missing_lines, "💡 Installation suggestions:");
        push_line(
            &mut missing_lines,
            "  • cargo install cargo-watch cargo-edit cargo-audit cargo-outdated",
        );
        push_line(&mut missing_lines, "  • cargo install cargo-expand flamegraph cargo-criterion");
        push_line(
            &mut missing_lines,
            "  • Install rust-analyzer via your editor or rustup component add rust-analyzer",
        );
        assert(views(missing_lines@) =~= seq![""@, "❌ Missing Tools:"@] + missing.map_values(
            |n: Seq<char>| missing_line(n),
        ) + install_hints());
    }
    Step::Done(
        Rendered::new(
            Doc::record().with("found_tools", Doc::list(found_docs)).with(
                "missing_tools",
                Doc::list(missing_docs),
            ).with(
                "summary",
                Doc::record().with("total_found", Doc::Number(found_count as u64)).with(
                    "total_missing",
                    Doc::Number(missing_count as u64),
                ),
            ),
        ).line("🔧 Rust Development Tools").line("==========================").text(summary).line(
            "",
        ).more(found_lines).more(missing_lines),
    )
}

/// Every tool of the list is asked, each in its place, whatever the
/// earlier ones answered; after the last the inventory is done.
pub proof fn law_inventory_asks_all(outcomes: Seq<Outcome>)
    ensures
        outcomes.len() < TOOL_COUNT ==> tools_step(outcomes) == StepView::<RenderedView>::Run(
            CommandView::of_line(catalog_line(outcomes.len() as int)),
        ),
        outcomes.len() >= TOOL_COUNT ==> tools_step(outcomes) is Done,
{
}

} // verus!
