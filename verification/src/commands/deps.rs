//! What the dependencies of a project are: their tree, their licenses,
//! their sizes, and what the outdated and audit tools say of them.

use crate::DepsAction;
use crate::document::{Doc, DocView};
use crate::json::{
    items_at, json_model, json_models, json_value_of, member, read_json, text_at, JsonModel,
};
use crate::process::{Command, CommandView, Outcome, Step, StepView};
use crate::report::{opt_view, push_line, push_text, trim_str, Rendered, RenderedView};
use crate::text::{
    chars_of, contains, count_leading_spaces, decimal, decimal_chars, filter_map, has_char,
    includes, is_space, join, join3, join4, join_from, leading_spaces, lemma_filter_map_len,
    lemma_filter_map_step, lemma_leading_spaces, lemma_trailing_spaces_is_a_run, lemma_views_push,
    lines, same, split_at_first, split_lines, split_once, split_words, string_of, trim, trim_start,
    trimmed, views, words,
};
use serde_json::Value;
use vstd::prelude::*;

verus! {

/// One dependency as a line of the tree names it.
#[derive(Debug, PartialEq)]
pub struct DependencyRecord {
    /// The first word of the line.
    pub name: String,
    /// What follows the first word on a line of the feature tree.
    pub features: Option<String>,
    /// What follows the first word on a line of the license tree.
    pub license: Option<String>,
    /// How deep the line is nested: one level for every four characters of
    /// leading white space.
    pub depth: usize,
}

/// A dependency record as a value of specifications.
pub struct DependencyRecordView {
    pub name: Seq<char>,
    pub features: Option<Seq<char>>,
    pub license: Option<Seq<char>>,
    pub depth: nat,
}

impl View for DependencyRecord {
    type V = DependencyRecordView;

    open spec fn view(&self) -> DependencyRecordView {
        DependencyRecordView {
            name: self.name@,
            features: opt_view(self.features),
            license: opt_view(self.license),
            depth: self.depth as nat,
        }
    }
}

/// The depth of a line: its leading white space, four characters a level.
pub open spec fn depth_of(line: Seq<char>) -> nat {
    leading_spaces(line) / 4
}

/// The record of one line of the feature tree. A blank line has none. The
/// name is what stands before the first space of the trimmed line, and the
/// features are all that follows that space; a line of one word has no
/// features.
pub open spec fn tree_record(line: Seq<char>) -> Option<DependencyRecordView> {
    let t = trim(line);
    if t.len() == 0 {
        None
    } else {
        match split_once(t, ' ') {
            Some((name, rest)) => Some(
                DependencyRecordView {
                    name,
                    features: Some(rest),
                    license: None,
                    depth: depth_of(line),
                },
            ),
            None => Some(
                DependencyRecordView {
                    name: t,
                    features: None,
                    license: None,
                    depth: depth_of(line),
                },
            ),
        }
    }
}

/// The records of a feature tree, one for each line that is not blank, in
/// the order of the lines. The same name may come more than once.
pub open spec fn dependency_tree(output: Seq<char>) -> Seq<DependencyRecordView> {
    filter_map(lines(output), |l: Seq<char>| tree_record(l))
}

/// A line that begins with `n` spaces and then a character that is no
/// white space has a record, and its depth is `n / 4`, rounded down.
pub proof fn law_depth_is_indentation_by_four(n: nat, rest: Seq<char>)
    requires
        rest.len() > 0,
        !is_space(rest[0]),
    ensures
        tree_record(Seq::new(n, |i: int| ' ') + rest) matches Some(r) && r.depth == n / 4,
        license_record(Seq::new(n, |i: int| ' ') + rest) matches Some(r) ==> r.depth == n / 4,
{
    let line = Seq::new(n, |i: int| ' ') + rest;
    lemma_leading_spaces(line, n as int);
    assert(trim_start(line) =~= rest);
    lemma_trailing_spaces_is_a_run(rest);
}

/// Reads the feature tree that the package manager printed.
pub fn parse_dependency_tree(tree_output: &str) -> (r: Vec<DependencyRecord>)
    ensures
        views(r@) == dependency_tree(tree_output@),
{
    let ls = split_lines(&chars_of(tree_output));
    let mut out: Vec<DependencyRecord> = Vec::new();
    let ghost all = views(ls@);
    let ghost f = |l: Seq<char>| tree_record(l);
    let mut i: usize = 0;
    while i < ls.len()
        invariant
            i <= ls.len(),
            all == views(ls@),
            f == |l: Seq<char>| tree_record(l),
            views(out@) == filter_map(all.take(i as int), f),
        decreases ls.len() - i,
    {
        proof {
            lemma_filter_map_step(all, f, i as int);
        }
        let t = trimmed(&ls[i]);
        if t.len() > 0 {
            let depth = count_leading_spaces(&ls[i]) / 4;
            let record = match split_at_first(&t, ' ') {
                Some((name, rest)) => DependencyRecord {
                    name: string_of(&name),
                    features: Some(string_of(&rest)),
                    license: None,
                    depth,
                },
                None => DependencyRecord {
                    name: string_of(&t),
                    features: None,
                    license: None,
                    depth,
                },
            };
            out.push(record);
        }
        i += 1;
    }
    assert(all.take(ls.len() as int) =~= all);
    out
}

/// The record of one line of the license tree. A line has one where a
/// license follows the first space of the trimmed line and is not `N/A`.
pub open spec fn license_record(line: Seq<char>) -> Option<DependencyRecordView> {
    match split_once(trim(line), ' ') {
        Some((name, license)) => if license.len() > 0 && license != "N/A"@ {
            Some(
                DependencyRecordView {
                    name,
                    features: None,
                    license: Some(license),
                    depth: depth_of(line),
                },
            )
        } else {
            None
        },
        None => None,
    }
}

/// The records of a license tree, in the order of the lines.
pub open spec fn licensed_dependencies(output: Seq<char>) -> Seq<DependencyRecordView> {
    filter_map(lines(output), |l: Seq<char>| license_record(l))
}

/// Reads the license tree that the package manager printed.
pub fn parse_licenses(tree_output: &str) -> (r: Vec<DependencyRecord>)
    ensures
        views(r@) == licensed_dependencies(tree_output@),
        forall|i: int| 0 <= i < r@.len() ==> (#[trigger] r@[i]).license is Some,
{
    let ls = split_lines(&chars_of(tree_output));
    let unknown = chars_of("N/A");
    let mut out: Vec<DependencyRecord> = Vec::new();
    let ghost all = views(ls@);
    let ghost f = |l: Seq<char>| license_record(l);
    let mut i: usize = 0;
    while i < ls.len()
        invariant
            i <= ls.len(),
            all == views(ls@),
            unknown@ == "N/A"@,
            f == |l: Seq<char>| license_record(l),
            views(out@) == filter_map(all.take(i as int), f),
            forall|j: int| 0 <= j < out@.len() ==> (#[trigger] out@[j]).license is Some,
        decreases ls.len() - i,
    {
        proof {
            lemma_filter_map_step(all, f, i as int);
        }
        let t = trimmed(&ls[i]);
        match split_at_first(&t, ' ') {
            Some((name, license)) => {
                if license.len() > 0 && !same(&license, &unknown) {
                    let record = DependencyRecord {
                        name: string_of(&name),
                        features: None,
                        license: Some(string_of(&license)),
                        depth: count_leading_spaces(&ls[i]) / 4,
                    };
                    out.push(record);
                }
            },
            None => {},
        }
        i += 1;
    }
    assert(all.take(ls.len() as int) =~= all);
    out
}

/// How much of the binary one crate makes up.
#[derive(Debug, PartialEq)]
pub struct SizeEntry {
    pub percentage: String,
    pub size: String,
    pub name: String,
}

/// A size entry as a value of specifications.
pub struct SizeEntryView {
    pub percentage: Seq<char>,
    pub size: Seq<char>,
    pub name: Seq<char>,
}

impl View for SizeEntry {
    type V = SizeEntryView;

    open spec fn view(&self) -> SizeEntryView {
        SizeEntryView { percentage: self.percentage@, size: self.size@, name: self.name@ }
    }
}

/// The entry of one line of the size breakdown. A line has one where it
/// holds a percent sign and `KB` and has at least three words: the first is
/// the share, the second the size, the others, a space between each two,
/// the name.
pub open spec fn size_entry(line: Seq<char>) -> Option<SizeEntryView> {
    if line.contains('%') && contains(line, "KB"@) && words(line).len() >= 3 {
        Some(
            SizeEntryView {
                percentage: words(line)[0],
                size: words(line)[1],
                name: join(words(line).skip(2), seq![' ']),
            },
        )
    } else {
        None
    }
}

/// The entries of a size breakdown, in the order of the lines; the lines
/// that have none are passed over.
pub open spec fn size_breakdown(output: Seq<char>) -> Seq<SizeEntryView> {
    filter_map(lines(output), |l: Seq<char>| size_entry(l))
}

/// Reads the size breakdown that the size tool printed.
pub fn parse_bloat_output(bloat_output: &str) -> (r: Vec<SizeEntry>)
    ensures
        views(r@) == size_breakdown(bloat_output@),
{
    let ls = split_lines(&chars_of(bloat_output));
    let unit = chars_of("KB");
    let mut space: Vec<char> = Vec::new();
    space.push(' ');
    let mut out: Vec<SizeEntry> = Vec::new();
    let ghost all = views(ls@);
    let ghost f = |l: Seq<char>| size_entry(l);
    let mut i: usize = 0;
    while i < ls.len()
        invariant
            i <= ls.len(),
            all == views(ls@),
            unit@ == "KB"@,
            space@ == seq![' '],
            f == |l: Seq<char>| size_entry(l),
            views(out@) == filter_map(all.take(i as int), f),
        decreases ls.len() - i,
    {
        proof {
            lemma_filter_map_step(all, f, i as int);
        }
        if has_char(&ls[i], '%') && includes(&ls[i], &unit) {
            let parts = split_words(&ls[i]);
            if parts.len() >= 3 {
                let entry = SizeEntry {
                    percentage: string_of(&parts[0]),
                    size: string_of(&parts[1]),
                    name: string_of(&join_from(&parts, 2, &space)),
                };
                out.push(entry);
            }
        }
        i += 1;
    }
    assert(all.take(ls.len() as int) =~= all);
    out
}

/// How many dependencies carry one license.
#[derive(Debug, PartialEq)]
pub struct LicenseCount {
    pub license: String,
    pub count: usize,
}

impl View for LicenseCount {
    type V = (Seq<char>, nat);

    open spec fn view(&self) -> (Seq<char>, nat) {
        (self.license@, self.count as nat)
    }
}

/// Where a license stands in a tally: its index, or the length of the
/// tally where the tally does not hold it.
pub open spec fn tally_index(tally: Seq<(Seq<char>, nat)>, license: Seq<char>) -> int
    decreases tally.len(),
{
    if tally.len() == 0 || tally[0].0 == license {
        0
    } else {
        1 + tally_index(tally.drop_first(), license)
    }
}

/// The tally with one more dependency under `license`.
pub open spec fn counted(tally: Seq<(Seq<char>, nat)>, license: Seq<char>) -> Seq<
    (Seq<char>, nat),
> {
    let i = tally_index(tally, license);
    if 0 <= i < tally.len() {
        tally.update(i, (license, tally[i].1 + 1))
    } else {
        tally.push((license, 1))
    }
}

/// The tally of licenses: each license once, in the order in which the
/// licenses first come, with the number of times it comes.
pub open spec fn tally_of(licenses: Seq<Seq<char>>) -> Seq<(Seq<char>, nat)>
    decreases licenses.len(),
{
    if licenses.len() == 0 {
        Seq::empty()
    } else {
        counted(tally_of(licenses.drop_last()), licenses.last())
    }
}

/// The licenses of the given records, in order.
pub open spec fn licenses_of(records: Seq<DependencyRecordView>) -> Seq<Seq<char>> {
    filter_map(records, |r: DependencyRecordView| r.license)
}

/// An index `k` that the license does not stand before, and that holds
/// the license or is the end of the tally, is the index of the license.
pub proof fn lemma_tally_index(tally: Seq<(Seq<char>, nat)>, license: Seq<char>, k: int)
    requires
        0 <= k <= tally.len(),
        forall|i: int| 0 <= i < k ==> (#[trigger] tally[i]).0 != license,
        k == tally.len() || tally[k].0 == license,
    ensures
        tally_index(tally, license) == k,
    decreases k,
{
    if k > 0 {
        let t = tally.drop_first();
        assert forall|i: int| 0 <= i < k - 1 implies (#[trigger] t[i]).0 != license by {}
        lemma_tally_index(t, license, k - 1);
    }
}

/// The index of a license is in the tally or at its end; no entry before
/// it is for the license, and the entry at it, if any, is.
pub proof fn lemma_tally_index_bound(tally: Seq<(Seq<char>, nat)>, license: Seq<char>)
    ensures
        0 <= tally_index(tally, license) <= tally.len(),
        tally_index(tally, license) < tally.len() ==> tally[tally_index(tally, license)].0
            == license,
        forall|i: int|
            0 <= i < tally_index(tally, license) ==> (#[trigger] tally[i]).0 != license,
    decreases tally.len(),
{
    if !(tally.len() == 0 || tally[0].0 == license) {
        let t = tally.drop_first();
        lemma_tally_index_bound(t, license);
        assert forall|i: int| 0 <= i < tally_index(tally, license) implies (#[trigger] tally[i]).0
            != license by {
            if i > 0 {
                assert(tally[i] == t[i - 1]);
            }
        }
    }
}

/// How often a license comes among the given ones.
pub open spec fn occurrences(licenses: Seq<Seq<char>>, license: Seq<char>) -> nat
    decreases licenses.len(),
{
    if licenses.len() == 0 {
        0
    } else {
        occurrences(licenses.drop_last(), license) + if licenses.last() == license {
            1nat
        } else {
            0nat
        }
    }
}

/// A license comes no more often than there are licenses.
pub proof fn lemma_occurrences_bound(licenses: Seq<Seq<char>>, license: Seq<char>)
    ensures
        occurrences(licenses, license) <= licenses.len(),
    decreases licenses.len(),
{
    if licenses.len() > 0 {
        lemma_occurrences_bound(licenses.drop_last(), license);
    }
}

/// What a tally is: no license stands in it twice; every entry counts how
/// often its license comes, which is at least once; and every license that
/// comes has an entry.
pub proof fn law_tally(licenses: Seq<Seq<char>>)
    ensures
        forall|i: int, j: int|
            0 <= i < j < tally_of(licenses).len() ==> (#[trigger] tally_of(licenses)[i]).0 != (
            #[trigger] tally_of(licenses)[j]).0,
        forall|i: int|
            0 <= i < tally_of(licenses).len() ==> (#[trigger] tally_of(licenses)[i]).1
                == occurrences(licenses, tally_of(licenses)[i].0) && tally_of(licenses)[i].1 >= 1,
        forall|l: Seq<char>|
            occurrences(licenses, l) > 0 ==> #[trigger] tally_index(tally_of(licenses), l)
                < tally_of(licenses).len(),
        tally_of(licenses).len() <= licenses.len(),
    decreases licenses.len(),
{
    if licenses.len() > 0 {
        let before = licenses.drop_last();
        let last = licenses.last();
        let t = tally_of(before);
        let after = tally_of(licenses);
        law_tally(before);
        lemma_tally_index_bound(t, last);
        let k = tally_index(t, last);
        assert forall|l: Seq<char>| occurrences(licenses, l) > 0 implies #[trigger] tally_index(
            after,
            l,
        ) < after.len() by {
            lemma_tally_index_bound(t, l);
            let old_index = tally_index(t, l);
            if l == last {
                if k < t.len() {
                    lemma_tally_index(after, l, k);
                } else {
                    lemma_tally_index(after, l, t.len() as int);
                }
            } else {
                lemma_tally_index(after, l, old_index);
            }
        }
        if k >= t.len() {
            assert(occurrences(before, last) == 0) by {}
        }
    }
}

/// Counts the records under each license.
pub fn tally_licenses(records: &Vec<DependencyRecord>) -> (r: Vec<LicenseCount>)
    ensures
        views(r@) == tally_of(licenses_of(views(records@))),
{
    let mut out: Vec<LicenseCount> = Vec::new();
    let ghost all = views(records@);
    let ghost f = |r: DependencyRecordView| r.license;
    let mut i: usize = 0;
    while i < records.len()
        invariant
            i <= records.len(),
            all == views(records@),
            f == |r: DependencyRecordView| r.license,
            views(out@) == tally_of(filter_map(all.take(i as int), f)),
        decreases records.len() - i,
    {
        proof {
            lemma_filter_map_step(all, f, i as int);
        }
        match &records[i].license {
            Some(license) => {
                let ghost seen = filter_map(all.take(i as int), f);
                let ghost tally = views(out@);
                proof {
                    assert(seen.push(license@).drop_last() =~= seen);
                    law_tally(seen);
                    lemma_filter_map_len(all.take(i as int), f);
                }
                let wanted = chars_of(license.as_str());
                let mut k: usize = 0;
                while k < out.len() && !same(&chars_of(out[k].license.as_str()), &wanted)
                    invariant
                        k <= out.len(),
                        wanted@ == license@,
                        tally == views(out@),
                        forall|j: int| 0 <= j < k ==> (#[trigger] tally[j]).0 != license@,
                    decreases out.len() - k,
                {
                    k += 1;
                }
                proof {
                    lemma_tally_index(tally, license@, k as int);
                }
                if k < out.len() {
                    proof {
                        lemma_occurrences_bound(seen, tally[k as int].0);
                    }
                    let entry = LicenseCount { license: license.clone(), count: out[k].count + 1 };
                    out.set(k, entry);
                } else {
                    let entry = LicenseCount { license: license.clone(), count: 1 };
                    out.push(entry);
                }
            },
            None => {},
        }
        i += 1;
    }
    assert(all.take(records.len() as int) =~= all);
    out
}

// --------------------------------------------------------------------- flows

/// The result of a request about dependencies or about the project made
/// outside a project: nothing was run, and the subcommand still ends without
/// an error.
pub open spec fn not_in_project() -> RenderedView {
    RenderedView::new(
        DocView::record().with("error"@, DocView::Text("Not in a Rust project directory"@)).with(
            "is_rust_project"@,
            DocView::Bool(false),
        ),
    ).line("❌ Not in a Rust project (no Cargo.toml found)"@)
}

/// The result of a request made outside a project.
pub fn outside_project() -> (r: Rendered)
    ensures
        r@ == not_in_project(),
{
    Rendered::new(
        Doc::record().with("error", Doc::text("Not in a Rust project directory")).with(
            "is_rust_project",
            Doc::Bool(false),
        ),
    ).line("❌ Not in a Rust project (no Cargo.toml found)")
}

/// The result where a tool could not be started: the record holds the error
/// and a suggestion, the reader sees `headline` and the lines of advice.
pub open spec fn tool_absent(
    error: Seq<char>,
    suggestion: Seq<char>,
    headline: Seq<char>,
    advice: Seq<Seq<char>>,
) -> RenderedView {
    RenderedView::new(
        DocView::record().with("error"@, DocView::Text(error)).with(
            "suggestion"@,
            DocView::Text(suggestion),
        ),
    ).line(headline).more(advice)
}

fn absent(error: &str, suggestion: &str, headline: &str, advice: Vec<String>) -> (r: Rendered)
    ensures
        r@ == tool_absent(error@, suggestion@, headline@, views(advice@)),
{
    Rendered::new(
        Doc::record().with("error", Doc::text(error)).with("suggestion", Doc::text(suggestion)),
    ).line(headline).more(advice)
}

fn one_line(line: &str) -> (r: Vec<String>)
    ensures
        views(r@) == seq![line@],
{
    let mut out: Vec<String> = Vec::new();
    push_line(&mut out, line);
    out
}

// ---------------------------------------------------------------------- tree

/// The command that prints the tree with the features of each package.
pub open spec fn tree_command() -> CommandView {
    CommandView::new("cargo"@).arg("tree"@).arg("--format"@).arg("{p} {f}"@)
}

/// The record of one dependency of the tree.
pub open spec fn tree_document(r: DependencyRecordView) -> DocView {
    let named = DocView::record().with("name"@, DocView::Text(r.name));
    let featured = match r.features {
        Some(f) => named.with("features"@, DocView::Text(f)),
        None => named,
    };
    featured.with("depth"@, DocView::Number(r.depth))
}

/// The tree in both forms: the records and the trimmed text for a machine,
/// the text as it came for a reader.
pub open spec fn tree_rendered(output: Seq<char>) -> RenderedView {
    RenderedView::new(
        DocView::record().with(
            "dependency_tree"@,
            DocView::List(
                dependency_tree(output).map_values(|r: DependencyRecordView| tree_document(r)),
            ),
        ).with("raw_output"@, DocView::Text(trim(output))),
    ).line("📦 Dependency Tree"@).line("=================="@).line(output)
}

/// The result where the tree could not be asked for, which is a failure.
pub open spec fn tree_failed() -> RenderedView {
    tool_absent(
        "cargo tree command failed"@,
        "Make sure you're in a Rust project with dependencies"@,
        "❌ Failed to generate dependency tree"@,
        seq!["💡 Make sure you're in a Rust project with dependencies"@],
    ).fail("Failed to run cargo tree"@)
}

/// Showing the dependency tree.
pub open spec fn tree_step(outcomes: Seq<Outcome>) -> StepView<RenderedView> {
    if outcomes.len() == 0 {
        StepView::Run(tree_command())
    } else {
        match outcomes[0] {
            Outcome::Ran(r) => StepView::Done(tree_rendered(r.stdout@)),
            Outcome::Failed(_) => StepView::Done(tree_failed()),
        }
    }
}

/// The next step of showing the dependency tree.
pub fn show_dependency_tree(outcomes: &Vec<Outcome>) -> (r: Step<Rendered>)
    ensures
        r@ == tree_step(outcomes@),
{
    if outcomes.len() == 0 {
        return Step::Run(Command::new("cargo").arg("tree").arg("--format").arg("{p} {f}"));
    }
    match &outcomes[0] {
        Outcome::Ran(res) => {
            let records = parse_dependency_tree(res.stdout.as_str());
            let ghost all = views(records@);
            let mut docs: Vec<Doc> = Vec::new();
            let mut i: usize = 0;
            while i < records.len()
                invariant
                    i <= records.len(),
                    all == views(records@),
                    views(docs@) =~= all.take(i as int).map_values(
                        |r: DependencyRecordView| tree_document(r),
                    ),
                decreases records.len() - i,
            {
                let r = &records[i];
                let named = Doc::record().with("name", Doc::text(r.name.as_str()));
                let featured = match &r.features {
                    Some(f) => named.with("features", Doc::text(f.as_str())),
                    None => named,
                };
                let doc = featured.with("depth", Doc::Number(r.depth as u64));
                proof {
                    lemma_views_push(docs@, doc);
                }
                docs.push(doc);
                i += 1;
            }
            assert(all.take(records.len() as int) =~= all);
            Step::Done(
                Rendered::new(
                    Doc::record().with("dependency_tree", Doc::list(docs)).with(
                        "raw_output",
                        Doc::text(trim_str(res.stdout.as_str()).as_str()),
                    ),
                ).line("📦 Dependency Tree").line("==================").line(res.stdout.as_str()),
            )
        },
        Outcome::Failed(_) => Step::Done(
            absent(
                "cargo tree command failed",
                "Make sure you're in a Rust project with dependencies",
                "❌ Failed to generate dependency tree",
                one_line("💡 Make sure you're in a Rust project with dependencies"),
            ).fail("Failed to run cargo tree"),
        ),
    }
}

// ------------------------------------------------------------------ outdated

/// The command that asks the outdated tool for its report as JSON.
pub open spec fn outdated_command() -> CommandView {
    CommandView::new("cargo"@).arg("outdated"@).arg("--format"@).arg("json"@)
}

/// The line of one outdated dependency, where the report names its name,
/// its version in the project, the compatible and the latest version, each
/// as a text.
pub open spec fn outdated_line(dep: JsonModel) -> Option<Seq<char>> {
    match (
        dep.text_member("name"@),
        dep.text_member("project"@),
        dep.text_member("compat"@),
        dep.text_member("latest"@),
    ) {
        (Some(name), Some(project), Some(compat), Some(latest)) => Some(
            "  "@ + name + " "@ + project + " → "@ + compat + " (latest: "@ + latest + ")"@,
        ),
        _ => None,
    }
}

/// What a reader is told of a report of the outdated tool: that all is up to
/// date where its list of dependencies is empty, else one line for each
/// dependency that has one; nothing where the report holds no such list.
pub open spec fn outdated_lines(report: JsonModel) -> Seq<Seq<char>> {
    match report.items_member("dependencies"@) {
        Some(deps) => if deps.len() == 0 {
            seq!["✅ All dependencies are up to date!"@]
        } else {
            filter_map(deps, |d: JsonModel| outdated_line(d))
        },
        None => Seq::empty(),
    }
}

/// The lines for a report of the outdated tool.
pub fn outdated_summary(report: &Value) -> (r: Vec<String>)
    ensures
        views(r@) == outdated_lines(json_model(*report)),
{
    let mut out: Vec<String> = Vec::new();
    match items_at(report, "dependencies") {
        Some(deps) => {
            if deps.len() == 0 {
                return one_line("✅ All dependencies are up to date!");
            }
            let ghost f = |d: JsonModel| outdated_line(d);
            let ghost all = json_models(deps@);
            let mut i: usize = 0;
            while i < deps.len()
                invariant
                    i <= deps.len(),
                    all == json_models(deps@),
                    f == |d: JsonModel| outdated_line(d),
                    views(out@) == filter_map(all.take(i as int), f),
                decreases deps.len() - i,
            {
                proof {
                    lemma_filter_map_step(all, f, i as int);
                }
                let dep = &deps[i];
                let name = text_at(dep, "name");
                let project = text_at(dep, "project");
                let compat = text_at(dep, "compat");
                let latest = text_at(dep, "latest");
                match (name, project, compat, latest) {
                    (Some(name), Some(project), Some(compat), Some(latest)) => {
                        let mut line = String::from_str("  ");
                        line.append(name);
                        line.append(" ");
                        line.append(project);
                        line.append(" → ");
                        line.append(compat);
                        line.append(" (latest: ");
                        line.append(latest);
                        line.append(")");
                        push_text(&mut out, line);
                    },
                    _ => {},
                }
                i += 1;
            }
            assert(all.take(deps.len() as int) =~= all);
            out
        },
        None => out,
    }
}

/// The result for what a JSON-speaking tool printed: where it is JSON, the
/// value itself is the document and the reader gets the summary of it;
/// where it is not, the document holds the trimmed text as raw output and
/// the reader gets the text as it came.
pub open spec fn json_or_raw(
    output: Seq<char>,
    title: Seq<char>,
    rule: Seq<char>,
    summary: spec_fn(JsonModel) -> Seq<Seq<char>>,
) -> RenderedView {
    match json_value_of(output) {
        Some(report) => RenderedView::new(DocView::Json(report)).line(title).line(rule).more(
            summary(report),
        ),
        None => RenderedView::new(
            DocView::record().with("raw_output"@, DocView::Text(trim(output))),
        ).line(title).line(rule).line(output),
    }
}

fn raw_fallback(output: &str, title: &str, rule: &str) -> (r: Rendered)
    ensures
        r@ == RenderedView::new(
            DocView::record().with("raw_output"@, DocView::Text(trim(output@))),
        ).line(title@).line(rule@).line(output@),
{
    Rendered::new(
        Doc::record().with("raw_output", Doc::text(trim_str(output).as_str())),
    ).line(title).line(rule).line(output)
}

/// The result where the outdated tool could not be started: a suggestion,
/// no failure.
pub open spec fn outdated_absent() -> RenderedView {
    tool_absent(
        "cargo outdated not available"@,
        "Install with: cargo install cargo-outdated"@,
        "❌ cargo-outdated not installed"@,
        seq!["💡 Install with: cargo install cargo-outdated"@],
    )
}

/// The result for what the outdated tool printed.
pub open spec fn outdated_rendered(output: Seq<char>) -> RenderedView {
    json_or_raw(
        output,
        "📊 Outdated Dependencies"@,
        "========================"@,
        |v: JsonModel| outdated_lines(v),
    )
}

/// Checking for outdated dependencies.
pub open spec fn outdated_step(outcomes: Seq<Outcome>) -> StepView<RenderedView> {
    if outcomes.len() == 0 {
        StepView::Run(outdated_command())
    } else {
        match outcomes[0] {
            Outcome::Ran(r) => StepView::Done(outdated_rendered(r.stdout@)),
            Outcome::Failed(_) => StepView::Done(outdated_absent()),
        }
    }
}

/// The next step of checking for outdated dependencies.
pub fn check_outdated_deps(outcomes: &Vec<Outcome>) -> (r: Step<Rendered>)
    ensures
        r@ == outdated_step(outcomes@),
{
    if outcomes.len() == 0 {
        return Step::Run(Command::new("cargo").arg("outdated").arg("--format").arg("json"));
    }
    match &outcomes[0] {
        Outcome::Ran(res) => {
            match read_json(res.stdout.as_str()) {
                Ok(report) => {
                    let summary = outdated_summary(&report);
                    Step::Done(
                        Rendered::new(Doc::Json(report)).line("📊 Outdated Dependencies").line(
                            "========================",
                        ).more(summary),
                    )
                },
                Err(_) => Step::Done(
                    raw_fallback(
                        res.stdout.as_str(),
                        "📊 Outdated Dependencies",
                        "========================",
                    ),
                ),
            }
        },
        Outcome::Failed(_) => Step::Done(
            absent(
                "cargo outdated not available",
                "Install with: cargo install cargo-outdated",
                "❌ cargo-outdated not installed",
                one_line("💡 Install with: cargo install cargo-outdated"),
            ),
        ),
    }
}

// --------------------------------------------------------------------- audit

/// The command that asks the audit tool for its report as JSON.
pub open spec fn audit_command() -> CommandView {
    CommandView::new("cargo"@).arg("audit"@).arg("--format"@).arg("json"@)
}

/// A text of an advisory, or `Unknown` where the advisory does not hold it.
pub open spec fn advisory_text(advisory: JsonModel, key: Seq<char>) -> Seq<char> {
    match advisory.text_member(key) {
        Some(t) => t,
        None => "Unknown"@,
    }
}

/// The name of the package that a vulnerability is about.
pub open spec fn vulnerable_package(vulnerability: JsonModel) -> Option<Seq<char>> {
    match vulnerability.member("package"@) {
        Some(p) => p.text_member("name"@),
        None => None,
    }
}

/// The line of one vulnerability, where the report names its package and
/// holds an advisory for it.
pub open spec fn vulnerability_line(vulnerability: JsonModel) -> Option<Seq<char>> {
    match (vulnerable_package(vulnerability), vulnerability.member("advisory"@)) {
        (Some(package), Some(advisory)) => Some(
            "  "@ + package + " - "@ + advisory_text(advisory, "title"@) + " ("@ + advisory_text(
                advisory,
                "severity"@,
            ) + ")"@,
        ),
        _ => None,
    }
}

/// What a reader is told of a report of the audit tool: that nothing is
/// known where its list of vulnerabilities is empty, else how many there
/// are and one line for each that has one; nothing where the report holds no
/// such list.
pub open spec fn audit_lines(report: JsonModel) -> Seq<Seq<char>> {
    match report.items_member("vulnerabilities"@) {
        Some(found) => if found.len() == 0 {
            seq!["✅ No known security vulnerabilities found!"@]
        } else {
            seq!["\u{26a0}\u{fe0f}  Found "@ + decimal(found.len()) + " vulnerability(ies):"@]
                + filter_map(found, |v: JsonModel| vulnerability_line(v))
        },
        None => Seq::empty(),
    }
}

fn text_or_unknown(advisory: &Value, key: &str) -> (r: String)
    ensures
        r@ == advisory_text(json_model(*advisory), key@),
{
    match text_at(advisory, key) {
        Some(t) => t.to_owned(),
        None => "Unknown".to_owned(),
    }
}

/// The lines for a report of the audit tool.
pub fn audit_summary(report: &Value) -> (r: Vec<String>)
    ensures
        views(r@) == audit_lines(json_model(*report)),
{
    let mut out: Vec<String> = Vec::new();
    match items_at(report, "vulnerabilities") {
        Some(found) => {
            if found.len() == 0 {
                return one_line("✅ No known security vulnerabilities found!");
            }
            let count = string_of(&decimal_chars(found.len() as u128));
            push_text(
                &mut out,
                join3("\u{26a0}\u{fe0f}  Found ", count.as_str(), " vulnerability(ies):"),
            );
            let ghost head = views(out@);
            let ghost f = |v: JsonModel| vulnerability_line(v);
            let ghost all = json_models(found@);
            let mut i: usize = 0;
            while i < found.len()
                invariant
                    i <= found.len(),
                    all == json_models(found@),
                    f == |v: JsonModel| vulnerability_line(v),
                    views(out@) == head + filter_map(all.take(i as int), f),
                decreases found.len() - i,
            {
                proof {
                    lemma_filter_map_step(all, f, i as int);
                }
                let vulnerability = &found[i];
                let package = match member(vulnerability, "package") {
                    Some(p) => text_at(p, "name"),
                    None => None,
                };
                match (package, member(vulnerability, "advisory")) {
                    (Some(package), Some(advisory)) => {
                        let mut line = String::from_str("  ");
                        line.append(package);
                        line.append(" - ");
                        line.append(text_or_unknown(advisory, "title").as_str());
                        line.append(" (");
                        line.append(text_or_unknown(advisory, "severity").as_str());
                        line.append(")");
                        push_text(&mut out, line);
                    },
                    _ => {},
                }
                i += 1;
            }
            assert(all.take(found.len() as int) =~= all);
            out
        },
        None => out,
    }
}

/// The result where the audit tool could not be started: a suggestion, no
/// failure.
pub open spec fn audit_absent() -> RenderedView {
    tool_absent(
        "cargo audit not available"@,
        "Install with: cargo install cargo-audit"@,
        "❌ cargo-audit not installed"@,
        seq!["💡 Install with: cargo install cargo-audit"@],
    )
}

/// The result for what the audit tool printed.
pub open spec fn audit_rendered(output: Seq<char>) -> RenderedView {
    json_or_raw(output, "🔒 Security Audit"@, "================"@, |v: JsonModel| audit_lines(v))
}

/// Auditing the dependencies.
pub open spec fn audit_step(outcomes: Seq<Outcome>) -> StepView<RenderedView> {
    if outcomes.len() == 0 {
        StepView::Run(audit_command())
    } else {
        match outcomes[0] {
            Outcome::Ran(r) => StepView::Done(audit_rendered(r.stdout@)),
            Outcome::Failed(_) => StepView::Done(audit_absent()),
        }
    }
}

/// The next step of auditing the dependencies.
pub fn audit_dependencies(outcomes: &Vec<Outcome>) -> (r: Step<Rendered>)
    ensures
        r@ == audit_step(outcomes@),
{
    if outcomes.len() == 0 {
        return Step::Run(Command::new("cargo").arg("audit").arg("--format").arg("json"));
    }
    match &outcomes[0] {
        Outcome::Ran(res) => {
            match read_json(res.stdout.as_str()) {
                Ok(report) => {
                    let summary = audit_summary(&report);
                    Step::Done(
                        Rendered::new(Doc::Json(report)).line("🔒 Security Audit").line(
                            "================",
                        ).more(summary),
                    )
                },
                Err(_) => Step::Done(
                    raw_fallback(res.stdout.as_str(), "🔒 Security Audit", "================"),
                ),
            }
        },
        Outcome::Failed(_) => Step::Done(
            absent(
                "cargo audit not available",
                "Install with: cargo install cargo-audit",
                "❌ cargo-audit not installed",
                one_line("💡 Install with: cargo install cargo-audit"),
            ),
        ),
    }
}

/// What a tool printed is never lost: where it is no JSON, the document
/// holds it, trimmed, as raw output, and the reader is shown it as it came.
pub proof fn law_unreadable_output_is_kept(
    output: Seq<char>,
    title: Seq<char>,
    rule: Seq<char>,
    summary: spec_fn(JsonModel) -> Seq<Seq<char>>,
)
    requires
        json_value_of(output) is None,
    ensures
        json_or_raw(output, title, rule, summary).document == DocView::record().with(
            "raw_output"@,
            DocView::Text(trim(output)),
        ),
        json_or_raw(output, title, rule, summary).lines.last() == output,
        json_or_raw(output, title, rule, summary).failure is None,
{
}

// ------------------------------------------------------------------ licenses

/// The command that prints the tree with the license of each package.
pub open spec fn licenses_command() -> CommandView {
    CommandView::new("cargo"@).arg("tree"@).arg("--format"@).arg("{p} {l}"@)
}

/// The license of a record, or nothing as text where it has none.
pub open spec fn license_text(r: DependencyRecordView) -> Seq<char> {
    match r.license {
        Some(l) => l,
        None => Seq::empty(),
    }
}

/// The record of one licensed dependency.
pub open spec fn licensed_document(r: DependencyRecordView) -> DocView {
    DocView::record().with("name"@, DocView::Text(r.name)).with(
        "license"@,
        DocView::Text(license_text(r)),
    )
}

/// The line of one licensed dependency.
pub open spec fn licensed_line(r: DependencyRecordView) -> Seq<char> {
    "  "@ + r.name + " - "@ + license_text(r)
}

/// The line of one entry of the tally.
pub open spec fn tally_line(entry: (Seq<char>, nat)) -> Seq<char> {
    "  "@ + entry.0 + " - "@ + decimal(entry.1) + " dependencies"@
}

/// The tally as a record: one member for each license, which holds its
/// count.
pub open spec fn tally_document(tally: Seq<(Seq<char>, nat)>) -> DocView {
    DocView::Record(tally.map_values(|e: (Seq<char>, nat)| (e.0, DocView::Number(e.1))))
}

/// The licenses in both forms.
pub open spec fn licenses_rendered(records: Seq<DependencyRecordView>) -> RenderedView {
    let tally = tally_of(licenses_of(records));
    RenderedView::new(
        DocView::record().with(
            "dependencies"@,
            DocView::List(records.map_values(|r: DependencyRecordView| licensed_document(r))),
        ).with("license_summary"@, tally_document(tally)),
    ).line("📜 Dependency Licenses"@).line("====================="@).more(
        if tally.len() == 0 {
            seq!["No license information found"@]
        } else {
            seq!["License Summary:"@] + tally.map_values(|e: (Seq<char>, nat)| tally_line(e))
                + seq![""@, "Individual Dependencies:"@] + records.map_values(
                |r: DependencyRecordView| licensed_line(r),
            )
        },
    )
}

/// The result where the license tree could not be asked for: a suggestion,
/// no failure.
pub open spec fn licenses_absent() -> RenderedView {
    tool_absent(
        "Failed to get license information"@,
        "Make sure you're in a Rust project with dependencies"@,
        "❌ Failed to get license information"@,
        seq!["💡 Make sure you're in a Rust project with dependencies"@],
    )
}

/// Showing the licenses.
pub open spec fn licenses_step(outcomes: Seq<Outcome>) -> StepView<RenderedView> {
    if outcomes.len() == 0 {
        StepView::Run(licenses_command())
    } else {
        match outcomes[0] {
            Outcome::Ran(r) => StepView::Done(licenses_rendered(licensed_dependencies(r.stdout@))),
            Outcome::Failed(_) => StepView::Done(licenses_absent()),
        }
    }
}

fn license_of(r: &DependencyRecord) -> (l: String)
    ensures
        l@ == license_text(r@),
{
    match &r.license {
        Some(l) => l.clone(),
        None => String::new(),
    }
}

/// Renders the licenses of the given records.
pub fn render_licenses(records: &Vec<DependencyRecord>) -> (r: Rendered)
    ensures
        r@ == licenses_rendered(views(records@)),
{
    let ghost all = views(records@);
    let tally = tally_licenses(records);
    let ghost counts = views(tally@);
    let mut docs: Vec<Doc> = Vec::new();
    let mut body: Vec<String> = Vec::new();
    let mut summary: Vec<crate::document::Field> = Vec::new();
    push_line(&mut body, "License Summary:");
    let mut k: usize = 0;
    while k < tally.len()
        invariant
            k <= tally.len(),
            counts == views(tally@),
            views(body@) =~= seq!["License Summary:"@] + counts.take(k as int).map_values(
                |e: (Seq<char>, nat)| tally_line(e),
            ),
            crate::document::fields_view(summary@) =~= counts.take(k as int).map_values(
                |e: (Seq<char>, nat)| (e.0, DocView::Number(e.1)),
            ),
        decreases tally.len() - k,
    {
        let entry = &tally[k];
        let count = string_of(&decimal_chars(entry.count as u128));
        let mut line = join4("  ", entry.license.as_str(), " - ", count.as_str());
        line.append(" dependencies");
        push_text(&mut body, line);
        let ghost before = summary@;
        let field = crate::document::Field {
            key: entry.license.clone(),
            value: Doc::Number(entry.count as u64),
        };
        assert(field@ == (entry@.0, DocView::Number(entry@.1)));
        summary.push(field);
        assert(summary@.drop_last() =~= before);
        k += 1;
    }
    assert(counts.take(tally.len() as int) =~= counts);
    push_line(&mut body, "");
    push_line(&mut body, "Individual Dependencies:");
    let ghost head = views(body@);
    assert(head =~= seq!["License Summary:"@] + counts.map_values(
        |e: (Seq<char>, nat)| tally_line(e),
    ) + seq![""@, "Individual Dependencies:"@]);
    let mut i: usize = 0;
    while i < records.len()
        invariant
            i <= records.len(),
            all == views(records@),
            views(docs@) =~= all.take(i as int).map_values(
                |r: DependencyRecordView| licensed_document(r),
            ),
            views(body@) =~= head + all.take(i as int).map_values(
                |r: DependencyRecordView| licensed_line(r),
            ),
        decreases records.len() - i,
    {
        let r = &records[i];
        let license = license_of(r);
        let doc = Doc::record().with("name", Doc::text(r.name.as_str())).with(
            "license",
            Doc::text(license.as_str()),
        );
        proof {
            lemma_views_push(docs@, doc);
        }
        docs.push(doc);
        push_text(&mut body, join4("  ", r.name.as_str(), " - ", license.as_str()));
        i += 1;
    }
    assert(all.take(records.len() as int) =~= all);
    if tally.len() == 0 {
        body = one_line("No license information found");
    }
    let counted = Doc::Record(summary);
    let r = Rendered::new(
        Doc::record().with("dependencies", Doc::list(docs)).with("license_summary", counted),
    ).line("📜 Dependency Licenses").line("=====================").more(body);
    r
}

/// The next step of showing the licenses.
pub fn show_licenses(outcomes: &Vec<Outcome>) -> (r: Step<Rendered>)
    ensures
        r@ == licenses_step(outcomes@),
{
    if outcomes.len() == 0 {
        return Step::Run(Command::new("cargo").arg("tree").arg("--format").arg("{p} {l}"));
    }
    match &outcomes[0] {
        Outcome::Ran(res) => {
            let records = parse_licenses(res.stdout.as_str());
            Step::Done(render_licenses(&records))
        },
        Outcome::Failed(_) => Step::Done(
            absent(
                "Failed to get license information",
                "Make sure you're in a Rust project with dependencies",
                "❌ Failed to get license information",
                one_line("💡 Make sure you're in a Rust project with dependencies"),
            ),
        ),
    }
}

// --------------------------------------------------------------------- sizes

/// The command that asks the size tool for the share of each crate.
pub open spec fn sizes_command() -> CommandView {
    CommandView::new("cargo"@).arg("bloat"@).arg("--release"@).arg("--crates"@)
}

/// The record of one entry of the size breakdown.
pub open spec fn size_document(e: SizeEntryView) -> DocView {
    DocView::record().with("percentage"@, DocView::Text(e.percentage)).with(
        "size"@,
        DocView::Text(e.size),
    ).with("crate"@, DocView::Text(e.name))
}

/// The size breakdown in both forms: the entries and the trimmed text for
/// a machine, the text as it came for a reader.
pub open spec fn sizes_rendered(output: Seq<char>) -> RenderedView {
    RenderedView::new(
        DocView::record().with(
            "size_analysis"@,
            DocView::List(size_breakdown(output).map_values(|e: SizeEntryView| size_document(e))),
        ).with("raw_output"@, DocView::Text(trim(output))),
    ).line("📊 Dependency Size Analysis"@).line("==========================="@).line(output)
}

/// The result where the size tool could not be started: a suggestion, no
/// failure.
pub open spec fn sizes_absent() -> RenderedView {
    tool_absent(
        "cargo bloat not available"@,
        "Install with: cargo install cargo-bloat"@,
        "❌ cargo-bloat not installed"@,
        seq![
            "💡 Install with: cargo install cargo-bloat"@,
            "   This tool helps identify which dependencies contribute most to binary size"@,
        ],
    )
}

/// Analyzing the sizes.
pub open spec fn sizes_step(outcomes: Seq<Outcome>) -> StepView<RenderedView> {
    if outcomes.len() == 0 {
        StepView::Run(sizes_command())
    } else {
        match outcomes[0] {
            Outcome::Ran(r) => StepView::Done(sizes_rendered(r.stdout@)),
            Outcome::Failed(_) => StepView::Done(sizes_absent()),
        }
    }
}

/// The next step of analyzing the sizes.
pub fn analyze_dependency_sizes(outcomes: &Vec<Outcome>) -> (r: Step<Rendered>)
    ensures
        r@ == sizes_step(outcomes@),
{
    if outcomes.len() == 0 {
        return Step::Run(Command::new("cargo").arg("bloat").arg("--release").arg("--crates"));
    }
    match &outcomes[0] {
        Outcome::Ran(res) => {
            let entries = parse_bloat_output(res.stdout.as_str());
            let ghost all = views(entries@);
            let mut docs: Vec<Doc> = Vec::new();
            let mut i: usize = 0;
            while i < entries.len()
                invariant
                    i <= entries.len(),
                    all == views(entries@),
                    views(docs@) =~= all.take(i as int).map_values(
                        |e: SizeEntryView| size_document(e),
                    ),
                decreases entries.len() - i,
            {
                let e = &entries[i];
                let doc = Doc::record().with("percentage", Doc::text(e.percentage.as_str())).with(
                    "size",
                    Doc::text(e.size.as_str()),
                ).with("crate", Doc::text(e.name.as_str()));
                proof {
                    lemma_views_push(docs@, doc);
                }
                docs.push(doc);
                i += 1;
            }
            assert(all.take(entries.len() as int) =~= all);
            Step::Done(
                Rendered::new(
                    Doc::record().with("size_analysis", Doc::list(docs)).with(
                        "raw_output",
                        Doc::text(trim_str(res.stdout.as_str()).as_str()),
                    ),
                ).line("📊 Dependency Size Analysis").line("===========================").line(
                    res.stdout.as_str(),
                ),
            )
        },
        Outcome::Failed(_) => {
            let mut advice: Vec<String> = Vec::new();
            push_line(&mut advice, "💡 Install with: cargo install cargo-bloat");
            push_line(
                &mut advice,
                "   This tool helps identify which dependencies contribute most to binary size",
            );
            assert(views(advice@) =~= seq![
                "💡 Install with: cargo install cargo-bloat"@,
                "   This tool helps identify which dependencies contribute most to binary size"@,
            ]);
            Step::Done(
                absent(
                    "cargo bloat not available",
                    "Install with: cargo install cargo-bloat",
                    "❌ cargo-bloat not installed",
                    advice,
                ),
            )
        },
    }
}

// ------------------------------------------------------------------ dispatch

/// What a request about dependencies does after the given outcomes.
/// Outside a project nothing is run.
pub open spec fn deps_step(action: DepsAction, in_project: bool, outcomes: Seq<Outcome>) -> StepView<
    RenderedView,
> {
    if !in_project {
        StepView::Done(not_in_project())
    } else {
        match action {
            DepsAction::Tree => tree_step(outcomes),
            DepsAction::Outdated => outdated_step(outcomes),
            DepsAction::Audit => audit_step(outcomes),
            DepsAction::Licenses => licenses_step(outcomes),
            DepsAction::Size => sizes_step(outcomes),
        }
    }
}

/// The next step of a request about dependencies.
pub fn run(action: &DepsAction, in_project: bool, outcomes: &Vec<Outcome>) -> (r: Step<Rendered>)
    ensures
        r@ == deps_step(*action, in_project, outcomes@),
{
    if !in_project {
        return Step::Done(outside_project());
    }
    match action {
        DepsAction::Tree => show_dependency_tree(outcomes),
        DepsAction::Outdated => check_outdated_deps(outcomes),
        DepsAction::Audit => audit_dependencies(outcomes),
        DepsAction::Licenses => show_licenses(outcomes),
        DepsAction::Size => analyze_dependency_sizes(outcomes),
    }
}

/// A tool that is not installed is no error: whatever the request, a first
/// command that cannot be started ends it with a suggestion, and only the
/// tree counts that as a failure.
pub proof fn law_missing_tool_is_soft(action: DepsAction, outcomes: Seq<Outcome>)
    requires
        outcomes.len() > 0,
        outcomes[0] is Failed,
    ensures
        deps_step(action, true, outcomes) matches StepView::Done(r) && (r.failure is Some
            <==> action is Tree),
{
}

/// A request about dependencies is done after one command.
pub proof fn law_requests_end(action: DepsAction, in_project: bool, outcomes: Seq<Outcome>)
    requires
        outcomes.len() >= 1,
    ensures
        deps_step(action, in_project, outcomes) is Done,
{
}

} // verus!
