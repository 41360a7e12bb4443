//! What every report of this crate shares: the status of an entry and the
//! glyph that opens its line.

use crate::document::{Doc, DocView};
use crate::text::{chars_of, join2, lemma_views_empty, string_of, trimmed, views};
use vstd::prelude::*;

verus! {

/// How one entry of a report came out.
#[derive(Clone, Copy, Debug, PartialEq, Eq, Structural)]
pub enum Status {
    Success,
    Warning,
    Error,
    Info,
    Unknown,
}

/// The glyph of a status. Those of `Warning` and `Info` end in a space.
pub open spec fn glyph_text(s: Status) -> Seq<char> {
    match s {
        Status::Success => "\u{2705}"@,
        Status::Warning => "\u{26a0}\u{fe0f} "@,
        Status::Error => "\u{274c}"@,
        Status::Info => "\u{2139}\u{fe0f} "@,
        Status::Unknown => "\u{2753}"@,
    }
}

impl Status {
    /// The glyph that opens a line of this status.
    pub fn glyph(&self) -> (r: &'static str)
        ensures
            r@ == glyph_text(*self),
    {
        match self {
            Status::Success => "\u{2705}",
            Status::Warning => "\u{26a0}\u{fe0f} ",
            Status::Error => "\u{274c}",
            Status::Info => "\u{2139}\u{fe0f} ",
            Status::Unknown => "\u{2753}",
        }
    }
}

/// The view of a text that may be absent.
pub open spec fn opt_view(s: Option<String>) -> Option<Seq<char>> {
    match s {
        Some(t) => Some(t@),
        None => None,
    }
}

/// `s` without leading and trailing white space.
pub fn trim_str(s: &str) -> (r: String)
    ensures
        r@ == crate::text::trim(s@),
{
    let chars = chars_of(s);
    let t = trimmed(&chars);
    string_of(&t)
}

/// Appends a copy of `line` to `lines`.
pub fn push_line(lines: &mut Vec<String>, line: &str)
    ensures
        views(final(lines)@) == views(old(lines)@).push(line@),
{
    let owned = line.to_owned();
    lines.push(owned);
}

/// Appends `line` to `lines`.
pub fn push_text(lines: &mut Vec<String>, line: String)
    ensures
        views(final(lines)@) == views(old(lines)@).push(line@),
{
    lines.push(line);
}

/// What a subcommand shows when it is done: the document for a machine, the
/// lines for a reader, and the error that it hands up where it failed.
#[derive(Debug, PartialEq)]
pub struct Rendered {
    pub document: Doc,
    pub lines: Vec<String>,
    pub failure: Option<String>,
}

/// A result as a value of specifications.
pub struct RenderedView {
    pub document: DocView,
    pub lines: Seq<Seq<char>>,
    pub failure: Option<Seq<char>>,
}

impl View for Rendered {
    type V = RenderedView;

    open spec fn view(&self) -> RenderedView {
        RenderedView {
            document: self.document@,
            lines: views(self.lines@),
            failure: opt_view(self.failure),
        }
    }
}

impl RenderedView {
    /// A result with the given document, no lines yet, and no failure.
    pub open spec fn new(document: DocView) -> RenderedView {
        RenderedView { document, lines: Seq::empty(), failure: None }
    }

    /// The result with one more line at its end.
    pub open spec fn line(self, l: Seq<char>) -> RenderedView {
        RenderedView { document: self.document, lines: self.lines.push(l), failure: self.failure }
    }

    /// The result with more lines at its end.
    pub open spec fn more(self, ls: Seq<Seq<char>>) -> RenderedView {
        RenderedView { document: self.document, lines: self.lines + ls, failure: self.failure }
    }

    /// The result with one more line, made of a label and a text, where
    /// there is a text.
    pub open spec fn labelled(self, label: Seq<char>, value: Option<Seq<char>>) -> RenderedView {
        match value {
            Some(t) => self.line(label + t),
            None => self,
        }
    }

    /// The result as a failure with the given error.
    pub open spec fn fail(self, error: Seq<char>) -> RenderedView {
        RenderedView { document: self.document, lines: self.lines, failure: Some(error) }
    }
}

impl Rendered {
    /// A result with the given document, no lines yet, and no failure.
    pub fn new(document: Doc) -> (r: Rendered)
        ensures
            r@ == RenderedView::new(document@),
    {
        proof {
            lemma_views_empty::<String>();
        }
        Rendered { document, lines: Vec::new(), failure: None }
    }

    /// Adds a line at the end.
    pub fn line(self, l: &str) -> (r: Rendered)
        ensures
            r@ == self@.line(l@),
    {
        let mut lines = self.lines;
        push_line(&mut lines, l);
        Rendered { document: self.document, lines, failure: self.failure }
    }

    /// Adds a line at the end.
    pub fn text(self, l: String) -> (r: Rendered)
        ensures
            r@ == self@.line(l@),
    {
        let mut lines = self.lines;
        push_text(&mut lines, l);
        Rendered { document: self.document, lines, failure: self.failure }
    }

    /// Adds lines at the end.
    pub fn more(self, ls: Vec<String>) -> (r: Rendered)
        ensures
            r@ == self@.more(views(ls@)),
    {
        let mut lines = self.lines;
        let ghost before = views(lines@);
        let mut ls = ls;
        let ghost added = ls@;
        lines.append(&mut ls);
        assert(views(lines@) =~= before + views(added));
        Rendered { document: self.document, lines, failure: self.failure }
    }

    /// Adds a line made of a label and a text, where there is a text.
    pub fn labelled(self, label: &str, value: &Option<String>) -> (r: Rendered)
        ensures
            r@ == self@.labelled(label@, opt_view(*value)),
    {
        match value {
            Some(t) => self.text(join2(label, t.as_str())),
            None => self,
        }
    }

    /// Marks the result as a failure with the given error.
    pub fn fail(self, error: &str) -> (r: Rendered)
        ensures
            r@ == self@.fail(error@),
    {
        Rendered { document: self.document, lines: self.lines, failure: Some(error.to_owned()) }
    }
}

/// The result of an action whose command could not be started: the record
/// names the action and the error, the reader sees `headline` and the error.
pub open spec fn action_failed(
    action: Seq<char>,
    subject: Option<(Seq<char>, Seq<char>)>,
    error: Seq<char>,
    headline: Seq<char>,
    failure: Seq<char>,
) -> RenderedView {
    let base = DocView::record().with("action"@, DocView::Text(action)).with(
        "status"@,
        DocView::Text("error"@),
    );
    let named = match subject {
        Some((key, value)) => base.with(key, DocView::Text(value)),
        None => base,
    };
    RenderedView::new(named.with("error"@, DocView::Text(error))).line(headline).line(
        "Error: "@ + error,
    ).fail(failure + error)
}

/// The result of an action whose command could not be started.
pub fn failed_action(
    action: &str,
    subject: Option<(&str, &str)>,
    error: &str,
    headline: &str,
    failure: &str,
) -> (r: Rendered)
    ensures
        r@ == action_failed(
            action@,
            match subject {
                Some((k, v)) => Some((k@, v@)),
                None => None,
            },
            error@,
            headline@,
            failure@,
        ),
{
    let base = Doc::record().with("action", Doc::text(action)).with("status", Doc::text("error"));
    let named = match subject {
        Some((key, value)) => base.with(key, Doc::text(value)),
        None => base,
    };
    let message = join2(failure, error);
    Rendered::new(named.with("error", Doc::text(error))).line(headline).text(
        join2("Error: ", error),
    ).fail(message.as_str())
}

/// The result of a subcommand whose one command could not be started and
/// that has nothing of its own to say of it: the record holds the error, and
/// the error is handed up.
pub open spec fn hard_error(error: Seq<char>) -> RenderedView {
    RenderedView::new(DocView::record().with("error"@, DocView::Text(error))).fail(error)
}

/// The result for a command that could not be started.
pub fn error_only(error: &str) -> (r: Rendered)
    ensures
        r@ == hard_error(error@),
{
    Rendered::new(Doc::record().with("error", Doc::text(error))).fail(error)
}

} // verus!
