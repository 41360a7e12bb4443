//! Listing, installing, choosing, showing and removing toolchains.

use crate::ToolchainAction;
use crate::document::{Doc, DocView};
use crate::process::{exec_error_text, Command, CommandView, Outcome, Step, StepView};
use crate::report::{
    action_failed, error_only, failed_action, hard_error, opt_view, push_line, push_text, trim_str,
    Rendered, RenderedView,
};
use crate::text::{
    chars_of, contains, includes, join2, join3, lemma_views_empty, lemma_views_push, lines, remove_all,
    split_lines, string_of, trim, trimmed, views, without,
};
use vstd::prelude::*;

verus! {

/// One installed toolchain.
#[derive(Debug, PartialEq)]
pub struct ToolchainEntry {
    pub name: String,
    pub is_default: bool,
}

/// An entry as a value of specifications.
pub struct ToolchainEntryView {
    pub name: Seq<char>,
    pub is_default: bool,
}

impl View for ToolchainEntry {
    type V = ToolchainEntryView;

    open spec fn view(&self) -> ToolchainEntryView {
        ToolchainEntryView { name: self.name@, is_default: self.is_default }
    }
}

/// The entry that one line of the listing stands for, if it stands for one:
/// a blank line stands for none; a line that holds the default mark is the
/// default, and its name is the line without the marks, trimmed.
pub open spec fn entry_of(line: Seq<char>) -> Option<ToolchainEntryView> {
    let t = trim(line);
    if t.len() == 0 {
        None
    } else if contains(t, "(default)"@) {
        Some(ToolchainEntryView { name: trim(without(t, "(default)"@)), is_default: true })
    } else {
        Some(ToolchainEntryView { name: t, is_default: false })
    }
}

/// The entries of the given lines, in order.
pub open spec fn entries_of(ls: Seq<Seq<char>>) -> Seq<ToolchainEntryView>
    decreases ls.len(),
{
    if ls.len() == 0 {
        Seq::empty()
    } else {
        match entry_of(ls.last()) {
            Some(e) => entries_of(ls.drop_last()).push(e),
            None => entries_of(ls.drop_last()),
        }
    }
}

/// The toolchains that a listing names.
pub open spec fn toolchain_entries(listing: Seq<char>) -> Seq<ToolchainEntryView> {
    entries_of(lines(listing))
}

/// The name of the last entry that is marked as the default.
pub open spec fn default_of(entries: Seq<ToolchainEntryView>) -> Option<Seq<char>>
    decreases entries.len(),
{
    if entries.len() == 0 {
        None
    } else if entries.last().is_default {
        Some(entries.last().name)
    } else {
        default_of(entries.drop_last())
    }
}

/// Reads the listing of installed toolchains.
pub fn parse_toolchain_list(listing: &str) -> (r: Vec<ToolchainEntry>)
    ensures
        views(r@) == toolchain_entries(listing@),
{
    let ls = split_lines(&chars_of(listing));
    let mark = chars_of("(default)");
    let mut out: Vec<ToolchainEntry> = Vec::new();
    let ghost all = views(ls@);
    let mut i: usize = 0;
    while i < ls.len()
        invariant
            i <= ls.len(),
            all == views(ls@),
            mark@ == "(default)"@,
            views(out@) == entries_of(all.take(i as int)),
        decreases ls.len() - i,
    {
        proof {
            let next = all.take(i + 1);
            assert(next.drop_last() =~= all.take(i as int));
        }
        let t = trimmed(&ls[i]);
        if t.len() > 0 {
            let entry = if includes(&t, &mark) {
                let bare = trimmed(&remove_all(&t, &mark));
                ToolchainEntry { name: string_of(&bare), is_default: true }
            } else {
                ToolchainEntry { name: string_of(&t), is_default: false }
            };
            out.push(entry);
        }
        i += 1;
    }
    assert(all.take(ls.len() as int) =~= all);
    out
}

/// Finds the default among the entries.
pub fn find_default(entries: &Vec<ToolchainEntry>) -> (r: Option<String>)
    ensures
        opt_view(r) == default_of(views(entries@)),
{
    let ghost all = views(entries@);
    let mut i: usize = entries.len();
    assert(all.take(i as int) =~= all);
    while i > 0
        invariant
            i <= entries.len(),
            all == views(entries@),
            default_of(all) == default_of(all.take(i as int)),
        decreases i,
    {
        proof {
            let here = all.take(i as int);
            assert(here.drop_last() =~= all.take(i - 1));
        }
        if entries[i - 1].is_default {
            return Some(entries[i - 1].name.clone());
        }
        i -= 1;
    }
    None
}

/// The record of one entry.
pub open spec fn entry_document(e: ToolchainEntryView) -> DocView {
    DocView::record().with("name"@, DocView::Text(e.name)).with(
        "is_default"@,
        DocView::Bool(e.is_default),
    ).with("status"@, DocView::Text("installed"@))
}

/// The line of one entry for a reader.
pub open spec fn entry_line(e: ToolchainEntryView) -> Seq<char> {
    if e.is_default {
        "  "@ + e.name + " (default) ✅"@
    } else {
        "  "@ + e.name
    }
}

/// The listing in both forms.
pub open spec fn list_rendered(entries: Seq<ToolchainEntryView>) -> RenderedView {
    RenderedView::new(
        DocView::record().with(
            "toolchains"@,
            DocView::List(entries.map_values(|e: ToolchainEntryView| entry_document(e))),
        ).with("default"@, DocView::optional_text(default_of(entries))),
    ).line("🔧 Installed Rust Toolchains"@).line("============================"@).more(
        if entries.len() == 0 {
            seq!["No toolchains installed"@]
        } else {
            entries.map_values(|e: ToolchainEntryView| entry_line(e))
        },
    ).line(""@).line("💡 Use `oxy toolchain install <name>` to install new toolchains"@).line(
        "   Use `oxy toolchain default <name>` to set default toolchain"@,
    )
}

/// Renders the listing.
pub fn render_list(entries: &Vec<ToolchainEntry>) -> (r: Rendered)
    ensures
        r@ == list_rendered(views(entries@)),
{
    let ghost all = views(entries@);
    let mut docs: Vec<Doc> = Vec::new();
    let mut body: Vec<String> = Vec::new();
    proof {
        lemma_views_empty::<String>();
    }
    let mut i: usize = 0;
    while i < entries.len()
        invariant
            i <= entries.len(),
            all == views(entries@),
            views(docs@) =~= all.take(i as int).map_values(
                |e: ToolchainEntryView| entry_document(e),
            ),
            views(body@) =~= all.take(i as int).map_values(|e: ToolchainEntryView| entry_line(e)),
        decreases entries.len() - i,
    {
        let e = &entries[i];
        let doc = Doc::record().with("name", Doc::text(e.name.as_str())).with(
            "is_default",
            Doc::Bool(e.is_default),
        ).with("status", Doc::text("installed"));
        let line = if e.is_default {
            join3("  ", e.name.as_str(), " (default) ✅")
        } else {
            join2("  ", e.name.as_str())
        };
        proof {
            lemma_views_push(docs@, doc);
        }
        docs.push(doc);
        push_text(&mut body, line);
        i += 1;
    }
    assert(all.take(entries.len() as int) =~= all);
    if entries.len() == 0 {
        body = Vec::new();
        push_line(&mut body, "No toolchains installed");
    }
    let default = find_default(entries);
    Rendered::new(
        Doc::record().with("toolchains", Doc::list(docs)).with(
            "default",
            Doc::optional_text(&default),
        ),
    ).line("🔧 Installed Rust Toolchains").line("============================").more(body).line(
        "",
    ).line("💡 Use `oxy toolchain install <name>` to install new toolchains").line(
        "   Use `oxy toolchain default <name>` to set default toolchain",
    )
}

/// The command that lists the installed toolchains.
pub open spec fn list_command() -> CommandView {
    CommandView::new("rustup"@).arg("toolchain"@).arg("list"@)
}

/// Listing the toolchains.
pub open spec fn list_step(outcomes: Seq<Outcome>) -> StepView<RenderedView> {
    if outcomes.len() == 0 {
        StepView::Run(list_command())
    } else {
        match outcomes[0] {
            Outcome::Ran(r) => StepView::Done(list_rendered(toolchain_entries(r.stdout@))),
            Outcome::Failed(e) => StepView::Done(hard_error(exec_error_text(e.command_line@))),
        }
    }
}

/// The next step of listing the toolchains.
pub fn list_toolchains(outcomes: &Vec<Outcome>) -> (r: Step<Rendered>)
    ensures
        r@ == list_step(outcomes@),
{
    if outcomes.len() == 0 {
        return Step::Run(Command::new("rustup").arg("toolchain").arg("list"));
    }
    match &outcomes[0] {
        Outcome::Ran(res) => {
            let entries = parse_toolchain_list(res.stdout.as_str());
            Step::Done(render_list(&entries))
        },
        Outcome::Failed(e) => Step::Done(error_only(e.message().as_str())),
    }
}

/// The command that installs a toolchain.
pub open spec fn install_command(toolchain: Seq<char>) -> CommandView {
    CommandView::new("rustup"@).arg("toolchain"@).arg("install"@).arg(toolchain)
}

/// The result for a toolchain that was installed; what the installer
/// printed is shown where it is not blank.
pub open spec fn installed(toolchain: Seq<char>, output: Seq<char>) -> RenderedView {
    let shown = RenderedView::new(
        DocView::record().with("action"@, DocView::Text("install"@)).with(
            "toolchain"@,
            DocView::Text(toolchain),
        ).with("status"@, DocView::Text("success"@)).with("output"@, DocView::Text(trim(output))),
    ).line("📦 Installing toolchain: "@ + toolchain).line(
        "✅ Successfully installed toolchain: "@ + toolchain,
    );
    if trim(output).len() > 0 {
        shown.line("Output: "@ + trim(output))
    } else {
        shown
    }
}

/// The result of an action on a toolchain whose command could not be
/// started.
pub open spec fn toolchain_failed(
    action: Seq<char>,
    toolchain: Seq<char>,
    error: Seq<char>,
    headline: Seq<char>,
    failure: Seq<char>,
) -> RenderedView {
    action_failed(action, Some(("toolchain"@, toolchain)), error, headline + toolchain, failure)
}

fn failed_on(action: &str, toolchain: &str, error: &str, headline: &str, failure: &str) -> (r:
    Rendered)
    ensures
        r@ == toolchain_failed(action@, toolchain@, error@, headline@, failure@),
{
    let head = join2(headline, toolchain);
    failed_action(action, Some(("toolchain", toolchain)), error, head.as_str(), failure)
}

/// Installing a toolchain.
pub open spec fn install_step(toolchain: Seq<char>, outcomes: Seq<Outcome>) -> StepView<
    RenderedView,
> {
    if outcomes.len() == 0 {
        StepView::Run(install_command(toolchain))
    } else {
        match outcomes[0] {
            Outcome::Ran(r) => StepView::Done(installed(toolchain, r.stdout@)),
            Outcome::Failed(e) => {
                let failed = toolchain_failed(
                    "install"@,
                    toolchain,
                    exec_error_text(e.command_line@),
                    "❌ Failed to install toolchain: "@,
                    "Failed to install toolchain: "@,
                );
                StepView::Done(
                    RenderedView {
                        document: failed.document,
                        lines: seq!["📦 Installing toolchain: "@ + toolchain] + failed.lines,
                        failure: failed.failure,
                    },
                )
            },
        }
    }
}

/// The next step of installing a toolchain.
pub fn install_toolchain(toolchain: &str, outcomes: &Vec<Outcome>) -> (r: Step<Rendered>)
    ensures
        r@ == install_step(toolchain@, outcomes@),
{
    if outcomes.len() == 0 {
        return Step::Run(Command::new("rustup").arg("toolchain").arg("install").arg(toolchain));
    }
    match &outcomes[0] {
        Outcome::Ran(res) => {
            let output = trim_str(res.stdout.as_str());
            let shown = Rendered::new(
                Doc::record().with("action", Doc::text("install")).with(
                    "toolchain",
                    Doc::text(toolchain),
                ).with("status", Doc::text("success")).with("output", Doc::text(output.as_str())),
            ).text(join2("📦 Installing toolchain: ", toolchain)).text(
                join2("✅ Successfully installed toolchain: ", toolchain),
            );
            if output.as_str().unicode_len() > 0 {
                Step::Done(shown.text(join2("Output: ", output.as_str())))
            } else {
                Step::Done(shown)
            }
        },
        Outcome::Failed(e) => {
            let failed = failed_on(
                "install",
                toolchain,
                e.message().as_str(),
                "❌ Failed to install toolchain: ",
                "Failed to install toolchain: ",
            );
            let mut lines: Vec<String> = Vec::new();
            proof {
                lemma_views_empty::<String>();
            }
            push_text(&mut lines, join2("📦 Installing toolchain: ", toolchain));
            let ghost first = views(lines@);
            let mut rest = failed.lines;
            let ghost tail = views(rest@);
            lines.append(&mut rest);
            assert(views(lines@) =~= first + tail);
            Step::Done(Rendered { document: failed.document, lines, failure: failed.failure })
        },
    }
}

/// The command that makes a toolchain the default.
pub open spec fn default_command(toolchain: Seq<char>) -> CommandView {
    CommandView::new("rustup"@).arg("default"@).arg(toolchain)
}

/// The result of an action on a toolchain that has nothing to show but
/// that it was done.
pub open spec fn toolchain_done(action: Seq<char>, toolchain: Seq<char>, headline: Seq<char>) -> RenderedView {
    RenderedView::new(
        DocView::record().with("action"@, DocView::Text(action)).with(
            "toolchain"@,
            DocView::Text(toolchain),
        ).with("status"@, DocView::Text("success"@)),
    ).line(headline + toolchain)
}

fn done_on(action: &str, toolchain: &str, headline: &str) -> (r: Rendered)
    ensures
        r@ == toolchain_done(action@, toolchain@, headline@),
{
    Rendered::new(
        Doc::record().with("action", Doc::text(action)).with("toolchain", Doc::text(toolchain)).with(
            "status",
            Doc::text("success"),
        ),
    ).text(join2(headline, toolchain))
}

/// Making a toolchain the default.
pub open spec fn set_default_step(toolchain: Seq<char>, outcomes: Seq<Outcome>) -> StepView<
    RenderedView,
> {
    if outcomes.len() == 0 {
        StepView::Run(default_command(toolchain))
    } else {
        match outcomes[0] {
            Outcome::Ran(_) => StepView::Done(
                toolchain_done("set_default"@, toolchain, "✅ Set default toolchain to: "@),
            ),
            Outcome::Failed(e) => StepView::Done(
                toolchain_failed(
                    "set_default"@,
                    toolchain,
                    exec_error_text(e.command_line@),
                    "❌ Failed to set default toolchain: "@,
                    "Failed to set default toolchain: "@,
                ),
            ),
        }
    }
}

/// The next step of making a toolchain the default.
pub fn set_default_toolchain(toolchain: &str, outcomes: &Vec<Outcome>) -> (r: Step<Rendered>)
    ensures
        r@ == set_default_step(toolchain@, outcomes@),
{
    if outcomes.len() == 0 {
        return Step::Run(Command::new("rustup").arg("default").arg(toolchain));
    }
    match &outcomes[0] {
        Outcome::Ran(_) => Step::Done(
            done_on("set_default", toolchain, "✅ Set default toolchain to: "),
        ),
        Outcome::Failed(e) => Step::Done(
            failed_on(
                "set_default",
                toolchain,
                e.message().as_str(),
                "❌ Failed to set default toolchain: ",
                "Failed to set default toolchain: ",
            ),
        ),
    }
}

/// The command that names the active toolchain.
pub open spec fn show_command() -> CommandView {
    CommandView::new("rustup"@).arg("show"@).arg("active-toolchain"@)
}

/// The active toolchain in both forms.
pub open spec fn active_rendered(output: Seq<char>) -> RenderedView {
    RenderedView::new(
        DocView::record().with("active_toolchain"@, DocView::Text(trim(output))),
    ).line("🔧 Active Toolchain"@).line("=================="@).line("  "@ + trim(output))
}

/// Showing the active toolchain.
pub open spec fn show_step(outcomes: Seq<Outcome>) -> StepView<RenderedView> {
    if outcomes.len() == 0 {
        StepView::Run(show_command())
    } else {
        match outcomes[0] {
            Outcome::Ran(r) => StepView::Done(active_rendered(r.stdout@)),
            Outcome::Failed(e) => StepView::Done(hard_error(exec_error_text(e.command_line@))),
        }
    }
}

/// The next step of showing the active toolchain.
pub fn show_active_toolchain(outcomes: &Vec<Outcome>) -> (r: Step<Rendered>)
    ensures
        r@ == show_step(outcomes@),
{
    if outcomes.len() == 0 {
        return Step::Run(Command::new("rustup").arg("show").arg("active-toolchain"));
    }
    match &outcomes[0] {
        Outcome::Ran(res) => {
            let active = trim_str(res.stdout.as_str());
            Step::Done(
                Rendered::new(
                    Doc::record().with("active_toolchain", Doc::text(active.as_str())),
                ).line("🔧 Active Toolchain").line("==================").text(
                    join2("  ", active.as_str()),
                ),
            )
        },
        Outcome::Failed(e) => Step::Done(error_only(e.message().as_str())),
    }
}

/// The command that removes a toolchain.
pub open spec fn remove_command(toolchain: Seq<char>) -> CommandView {
    CommandView::new("rustup"@).arg("toolchain"@).arg("uninstall"@).arg(toolchain)
}

/// Removing a toolchain.
pub open spec fn remove_step(toolchain: Seq<char>, outcomes: Seq<Outcome>) -> StepView<
    RenderedView,
> {
    if outcomes.len() == 0 {
        StepView::Run(remove_command(toolchain))
    } else {
        match outcomes[0] {
            Outcome::Ran(_) => StepView::Done(
                toolchain_done("remove"@, toolchain, "✅ Successfully removed toolchain: "@),
            ),
            Outcome::Failed(e) => StepView::Done(
                toolchain_failed(
                    "remove"@,
                    toolchain,
                    exec_error_text(e.command_line@),
                    "❌ Failed to remove toolchain: "@,
                    "Failed to remove toolchain: "@,
                ),
            ),
        }
    }
}

/// The next step of removing a toolchain.
pub fn remove_toolchain(toolchain: &str, outcomes: &Vec<Outcome>) -> (r: Step<Rendered>)
    ensures
        r@ == remove_step(toolchain@, outcomes@),
{
    if outcomes.len() == 0 {
        return Step::Run(Command::new("rustup").arg("toolchain").arg("uninstall").arg(toolchain));
    }
    match &outcomes[0] {
        Outcome::Ran(_) => Step::Done(
            done_on("remove", toolchain, "✅ Successfully removed toolchain: "),
        ),
        Outcome::Failed(e) => Step::Done(
            failed_on(
                "remove",
                toolchain,
                e.message().as_str(),
                "❌ Failed to remove toolchain: ",
                "Failed to remove toolchain: ",
            ),
        ),
    }
}

/// What an action on toolchains does after the given outcomes.
pub open spec fn toolchain_step(action: ToolchainAction, outcomes: Seq<Outcome>) -> StepView<
    RenderedView,
> {
    match action {
        ToolchainAction::List => list_step(outcomes),
        ToolchainAction::Install { toolchain } => install_step(toolchain@, outcomes),
        ToolchainAction::Default { toolchain } => set_default_step(toolchain@, outcomes),
        ToolchainAction::Show => show_step(outcomes),
        ToolchainAction::Remove { toolchain } => remove_step(toolchain@, outcomes),
    }
}

/// The next step of an action on toolchains.
pub fn run(action: &ToolchainAction, outcomes: &Vec<Outcome>) -> (r: Step<Rendered>)
    ensures
        r@ == toolchain_step(*action, outcomes@),
{
    match action {
        ToolchainAction::List => list_toolchains(outcomes),
        ToolchainAction::Install { toolchain } => install_toolchain(toolchain.as_str(), outcomes),
        ToolchainAction::Default { toolchain } => set_default_toolchain(
            toolchain.as_str(),
            outcomes,
        ),
        ToolchainAction::Show => show_active_toolchain(outcomes),
        ToolchainAction::Remove { toolchain } => remove_toolchain(toolchain.as_str(), outcomes),
    }
}

/// An action on toolchains is done after one command.
pub proof fn law_actions_end(action: ToolchainAction, outcomes: Seq<Outcome>)
    requires
        outcomes.len() >= 1,
    ensures
        toolchain_step(action, outcomes) is Done,
{
}

} // verus!
