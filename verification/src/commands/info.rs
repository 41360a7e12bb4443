//! What a project is: the package of its manifest, the state of its
//! repository, and the files that projects usually have.

use crate::commands::deps::{not_in_project, outside_project};
use crate::document::{Doc, DocView};
use crate::lines::count_lines;
use crate::manifest::{
    manifest_summary, summarize, ManifestSummary, ManifestSummaryView, PackageInfo, PackageInfoView,
};
use crate::process::{Command, CommandView, Outcome, Step, StepView};
use crate::report::{opt_view, push_line, push_text, trim_str, Rendered, RenderedView};
use crate::text::{
    chars_of, decimal, decimal_chars, join2, lines, split, split_on, string_of, trim, views,
};
use vstd::prelude::*;

verus! {

/// What is found of a project before anything is run.
#[derive(Debug, PartialEq)]
pub struct ProjectFacts {
    /// Whether the current directory holds a manifest.
    pub in_project: bool,
    /// The text of the manifest, where it could be read.
    pub manifest: Option<String>,
    /// Whether the current directory holds repository metadata.
    pub in_repository: bool,
    /// The files of `common_files` that exist, in that order.
    pub found_files: Vec<String>,
    /// Whether the build directory exists.
    pub has_target_dir: bool,
}

/// The files that projects usually have.
pub open spec fn common_file_names() -> Seq<Seq<char>> {
    seq!["README.md"@, "LICENSE"@, "CHANGELOG.md"@, ".gitignore"@, "rust-toolchain.toml"@]
}

/// The files to look for.
pub fn common_files() -> (r: Vec<String>)
    ensures
        views(r@) == common_file_names(),
{
    let mut out: Vec<String> = Vec::new();
    push_line(&mut out, "README.md");
    push_line(&mut out, "LICENSE");
    push_line(&mut out, "CHANGELOG.md");
    push_line(&mut out, ".gitignore");
    push_line(&mut out, "rust-toolchain.toml");
    out
}

/// The commands that ask the repository, in the order they run: for the
/// current branch, for the files that changed, and for the last commit.
pub open spec fn git_commands() -> Seq<CommandView> {
    seq![
        CommandView::new("git"@).arg("branch"@).arg("--show-current"@),
        CommandView::new("git"@).arg("status"@).arg("--porcelain"@),
        CommandView::new("git"@).arg("log"@).arg("-1"@).arg("--pretty=format:%H|%s|%an|%ad"@).arg(
            "--date=short"@,
        ),
    ]
}

/// The record of the package.
pub open spec fn package_document(p: PackageInfoView) -> DocView {
    DocView::record().with("name"@, DocView::optional_text(p.name)).with(
        "version"@,
        DocView::optional_text(p.version),
    ).with("edition"@, DocView::optional_text(p.edition)).with(
        "authors"@,
        match p.authors {
            Some(a) => DocView::Toml(a),
            None => DocView::Null,
        },
    ).with("description"@, DocView::optional_text(p.description))
}

/// A count as a document, where there is one.
pub open spec fn optional_count(n: Option<nat>) -> Option<DocView> {
    match n {
        Some(k) => Some(DocView::Number(k)),
        None => None,
    }
}

/// A count as text, where there is one.
pub open spec fn count_text(n: Option<nat>) -> Option<Seq<char>> {
    match n {
        Some(k) => Some(decimal(k)),
        None => None,
    }
}

/// What the manifest adds to the record.
pub open spec fn with_manifest(base: DocView, m: Option<ManifestSummaryView>) -> DocView {
    match m {
        Some(s) => base.with_optional(
            "package"@,
            match s.package {
                Some(p) => Some(package_document(p)),
                None => None,
            },
        ).with_optional("dependencies_count"@, optional_count(s.dependencies)).with_optional(
            "dev_dependencies_count"@,
            optional_count(s.dev_dependencies),
        ),
        None => base,
    }
}

/// What the manifest adds for a reader.
pub open spec fn manifest_lines(base: RenderedView, m: Option<ManifestSummaryView>) -> RenderedView {
    match m {
        Some(s) => {
            let shown = match s.package {
                Some(p) => base.labelled("Name: "@, p.name).labelled(
                    "Version: "@,
                    p.version,
                ).labelled("Edition: "@, p.edition).labelled("Description: "@, p.description),
                None => base,
            };
            shown.labelled("Dependencies: "@, count_text(s.dependencies)).labelled(
                "Dev Dependencies: "@,
                count_text(s.dev_dependencies),
            )
        },
        None => base,
    }
}

/// The four parts of what the log printed of the last commit: hash,
/// message, author and date, where it has at least four parts between bars.
pub open spec fn last_commit(outcome: Outcome) -> Option<(Seq<char>, Seq<char>, Seq<char>, Seq<char>)> {
    match outcome {
        Outcome::Ran(r) => {
            let parts = split(r.stdout@, '|');
            if parts.len() >= 4 {
                Some((parts[0], parts[1], parts[2], parts[3]))
            } else {
                None
            }
        },
        Outcome::Failed(_) => None,
    }
}

/// How many files changed, where the repository could be asked.
pub open spec fn dirty_files(outcome: Outcome) -> Option<nat> {
    match outcome {
        Outcome::Ran(r) => Some(lines(r.stdout@).len()),
        Outcome::Failed(_) => None,
    }
}

/// The current branch, where the repository could be asked.
pub open spec fn current_branch(outcome: Outcome) -> Option<Seq<char>> {
    match outcome {
        Outcome::Ran(r) => Some(trim(r.stdout@)),
        Outcome::Failed(_) => None,
    }
}

/// The record of the repository.
pub open spec fn git_document(outcomes: Seq<Outcome>) -> DocView
    recommends
        outcomes.len() >= 3,
{
    let branch = DocView::record().with_text("current_branch"@, current_branch(outcomes[0]));
    let status = match dirty_files(outcomes[1]) {
        Some(n) => branch.with("dirty_files"@, DocView::Number(n)).with(
            "is_clean"@,
            DocView::Bool(n == 0),
        ),
        None => branch,
    };
    match last_commit(outcomes[2]) {
        Some((hash, message, author, date)) => status.with(
            "last_commit"@,
            DocView::record().with("hash"@, DocView::Text(hash)).with(
                "message"@,
                DocView::Text(message),
            ).with("author"@, DocView::Text(author)).with("date"@, DocView::Text(date)),
        ),
        None => status,
    }
}

/// The lines of the repository for a reader.
pub open spec fn git_lines(base: RenderedView, outcomes: Seq<Outcome>) -> RenderedView
    recommends
        outcomes.len() >= 3,
{
    let branch = base.line("📝 Git Status:"@).labelled("  Branch: "@, current_branch(outcomes[0]));
    let status = match dirty_files(outcomes[1]) {
        Some(n) => branch.line(
            if n == 0 {
                "  Status: Clean"@
            } else {
                "  Status: Modified files present"@
            },
        ),
        None => branch,
    };
    (match last_commit(outcomes[2]) {
        Some((hash, message, author, date)) => status.line(
            "  Last Commit: "@ + message + " by "@ + author + " ("@ + date + ")"@,
        ),
        None => status,
    }).line(""@)
}

/// The lines of the files that were found.
pub open spec fn file_lines(found: Seq<Seq<char>>) -> Seq<Seq<char>> {
    if found.len() == 0 {
        Seq::empty()
    } else {
        seq!["📄 Project Files:"@] + found.map_values(|f: Seq<char>| "  ✅ "@ + f)
    }
}

/// The information in both forms.
pub open spec fn info_rendered(facts: ProjectFacts, outcomes: Seq<Outcome>) -> RenderedView {
    let manifest = match facts.manifest {
        Some(text) => manifest_summary(text@),
        None => None,
    };
    let document = with_manifest(
        DocView::record().with("is_rust_project"@, DocView::Bool(true)),
        manifest,
    ).with(
        "git"@,
        if facts.in_repository {
            git_document(outcomes)
        } else {
            DocView::record().with("is_git_repo"@, DocView::Bool(false))
        },
    ).with("common_files"@, DocView::texts(views(facts.found_files@))).with(
        "has_target_dir"@,
        DocView::Bool(facts.has_target_dir),
    );
    let head = manifest_lines(
        RenderedView::new(document).line("📦 Project Information"@).line(
            "======================"@,
        ),
        manifest,
    ).line(""@);
    let repository = if facts.in_repository {
        git_lines(head, outcomes)
    } else {
        head.line("📝 Git: Not a git repository"@).line(""@)
    };
    let files = repository.more(file_lines(views(facts.found_files@)));
    if facts.has_target_dir {
        files.line("  📁 target/ directory exists"@)
    } else {
        files
    }
}

/// What the information does after the given outcomes. Outside a project
/// nothing is run. In a repository the three commands run one after
/// another, whatever came of the earlier ones; outside one, none runs.
pub open spec fn info_step(facts: ProjectFacts, outcomes: Seq<Outcome>) -> StepView<RenderedView> {
    if !facts.in_project {
        StepView::Done(not_in_project())
    } else if facts.in_repository && outcomes.len() < 3 {
        StepView::Run(git_commands()[outcomes.len() as int])
    } else {
        StepView::Done(info_rendered(facts, outcomes))
    }
}

fn count_string(n: &Option<usize>) -> (r: Option<String>)
    ensures
        opt_view(r) == count_text(
            match *n {
                Some(k) => Some(k as nat),
                None => None,
            },
        ),
{
    match n {
        Some(k) => Some(string_of(&decimal_chars(*k as u128))),
        None => None,
    }
}

fn document_of_package(p: &PackageInfo) -> (r: Doc)
    ensures
        r@ == package_document(p@),
{
    Doc::record().with("name", Doc::optional_text(&p.name)).with(
        "version",
        Doc::optional_text(&p.version),
    ).with("edition", Doc::optional_text(&p.edition)).with(
        "authors",
        match &p.authors {
            Some(a) => Doc::Toml(a.clone()),
            None => Doc::Null,
        },
    ).with("description", Doc::optional_text(&p.description))
}

fn add_manifest(base: Doc, m: &Option<ManifestSummary>) -> (r: Doc)
    ensures
        r@ == with_manifest(
            base@,
            match *m {
                Some(s) => Some(s@),
                None => None,
            },
        ),
{
    match m {
        Some(s) => {
            let package = match &s.package {
                Some(p) => Some(document_of_package(p)),
                None => None,
            };
            let deps = match s.dependencies {
                Some(n) => Some(Doc::Number(n as u64)),
                None => None,
            };
            let dev = match s.dev_dependencies {
                Some(n) => Some(Doc::Number(n as u64)),
                None => None,
            };
            base.with_optional("package", package).with_optional(
                "dependencies_count",
                deps,
            ).with_optional("dev_dependencies_count", dev)
        },
        None => base,
    }
}

fn add_manifest_lines(base: Rendered, m: &Option<ManifestSummary>) -> (r: Rendered)
    ensures
        r@ == manifest_lines(
            base@,
            match *m {
                Some(s) => Some(s@),
                None => None,
            },
        ),
{
    match m {
        Some(s) => {
            let shown = match &s.package {
                Some(p) => base.labelled("Name: ", &p.name).labelled(
                    "Version: ",
                    &p.version,
                ).labelled("Edition: ", &p.edition).labelled("Description: ", &p.description),
                None => base,
            };
            shown.labelled("Dependencies: ", &count_string(&s.dependencies)).labelled(
                "Dev Dependencies: ",
                &count_string(&s.dev_dependencies),
            )
        },
        None => base,
    }
}

/// The four parts of the last commit.
#[derive(Debug, PartialEq)]
pub struct CommitParts {
    pub hash: String,
    pub message: String,
    pub author: String,
    pub date: String,
}

fn commit_of(outcome: &Outcome) -> (r: Option<CommitParts>)
    ensures
        match r {
            Some(c) => last_commit(*outcome) == Some((c.hash@, c.message@, c.author@, c.date@)),
            None => last_commit(*outcome) is None,
        },
{
    match outcome {
        Outcome::Ran(res) => {
            let parts = split_on(&chars_of(res.stdout.as_str()), '|');
            if parts.len() >= 4 {
                Some(
                    CommitParts {
                        hash: string_of(&parts[0]),
                        message: string_of(&parts[1]),
                        author: string_of(&parts[2]),
                        date: string_of(&parts[3]),
                    },
                )
            } else {
                None
            }
        },
        Outcome::Failed(_) => None,
    }
}

fn branch_of(outcome: &Outcome) -> (r: Option<String>)
    ensures
        opt_view(r) == current_branch(*outcome),
{
    match outcome {
        Outcome::Ran(res) => Some(trim_str(res.stdout.as_str())),
        Outcome::Failed(_) => None,
    }
}

fn dirty_of(outcome: &Outcome) -> (r: Option<usize>)
    ensures
        match r {
            Some(n) => dirty_files(*outcome) == Some(n as nat),
            None => dirty_files(*outcome) is None,
        },
{
    match outcome {
        Outcome::Ran(res) => Some(count_lines(res.stdout.as_str())),
        Outcome::Failed(_) => None,
    }
}

fn lines_of_files(found: &Vec<String>) -> (r: Vec<String>)
    ensures
        views(r@) == file_lines(views(found@)),
{
    let mut out: Vec<String> = Vec::new();
    if found.len() == 0 {
        return out;
    }
    push_line(&mut out, "📄 Project Files:");
    let ghost all = views(found@);
    let mut i: usize = 0;
    while i < found.len()
        invariant
            i <= found.len(),
            all == views(found@),
            views(out@) =~= seq!["📄 Project Files:"@] + all.take(i as int).map_values(
                |f: Seq<char>| "  ✅ "@ + f,
            ),
        decreases found.len() - i,
    {
        push_text(&mut out, join2("  ✅ ", found[i].as_str()));
        i += 1;
    }
    out
}

/// The next step of the information after the given outcomes.
pub fn next(facts: &ProjectFacts, outcomes: &Vec<Outcome>) -> (r: Step<Rendered>)
    ensures
        r@ == info_step(*facts, outcomes@),
{
    if !facts.in_project {
        return Step::Done(outside_project());
    }
    if facts.in_repository {
        if outcomes.len() == 0 {
            return Step::Run(Command::new("git").arg("branch").arg("--show-current"));
        } else if outcomes.len() == 1 {
            return Step::Run(Command::new("git").arg("status").arg("--porcelain"));
        } else if outcomes.len() == 2 {
            return Step::Run(
                Command::new("git").arg("log").arg("-1").arg("--pretty=format:%H|%s|%an|%ad").arg(
                    "--date=short",
                ),
            );
        }
    }
    let manifest = match &facts.manifest {
        Some(text) => summarize(text.as_str()),
        None => None,
    };
    let git = if facts.in_repository {
        let branch = Doc::record().with_text("current_branch", &branch_of(&outcomes[0]));
        let status = match dirty_of(&outcomes[1]) {
            Some(n) => branch.with("dirty_files", Doc::Number(n as u64)).with(
                "is_clean",
                Doc::Bool(n == 0),
            ),
            None => branch,
        };
        match commit_of(&outcomes[2]) {
            Some(c) => status.with(
                "last_commit",
                Doc::record().with("hash", Doc::text(c.hash.as_str())).with(
                    "message",
                    Doc::text(c.message.as_str()),
                ).with("author", Doc::text(c.author.as_str())).with(
                    "date",
                    Doc::text(c.date.as_str()),
                ),
            ),
            None => status,
        }
    } else {
        Doc::record().with("is_git_repo", Doc::Bool(false))
    };
    let document = add_manifest(
        Doc::record().with("is_rust_project", Doc::Bool(true)),
        &manifest,
    ).with("git", git).with("common_files", Doc::texts(&facts.found_files)).with(
        "has_target_dir",
        Doc::Bool(facts.has_target_dir),
    );
    let head = add_manifest_lines(
        Rendered::new(document).line("📦 Project Information").line("======================"),
        &manifest,
    ).line("");
    let repository = if facts.in_repository {
        let branch = head.line("📝 Git Status:").labelled("  Branch: ", &branch_of(&outcomes[0]));
        let status = match dirty_of(&outcomes[1]) {
            Some(n) => branch.line(
                if n == 0 {
                    "  Status: Clean"
                } else {
                    "  Status: Modified files present"
                },
            ),
            None => branch,
        };
        let commit = match commit_of(&outcomes[2]) {
            Some(c) => {
                let mut line = String::from_str("  Last Commit: ");
                line.append(c.message.as_str());
                line.append(" by ");
                line.append(c.author.as_str());
                line.append(" (");
                line.append(c.date.as_str());
                line.append(")");
                status.text(line)
            },
            None => status,
        };
        commit.line("")
    } else {
        head.line("📝 Git: Not a git repository").line("")
    };
    let files = repository.more(lines_of_files(&facts.found_files));
    if facts.has_target_dir {
        Step::Done(files.line("  📁 target/ directory exists"))
    } else {
        Step::Done(files)
    }
}

/// The information asks the repository three times at most, and not at
/// all outside a repository or outside a project.
pub proof fn law_information_ends(facts: ProjectFacts, outcomes: Seq<Outcome>)
    ensures
        outcomes.len() >= 3 ==> info_step(facts, outcomes) is Done,
        !facts.in_repository || !facts.in_project ==> info_step(facts, outcomes) is Done,
{
}

} // verus!
