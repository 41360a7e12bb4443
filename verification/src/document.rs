//! The structured document that a subcommand emits for a machine: a tree of
//! records, lists, texts, numbers and flags.

use crate::json::{json_model, JsonModel};
use crate::manifest::{toml_model, TomlModel};
use crate::report::opt_view;
use crate::text::views;
use serde_json::Value;
use vstd::prelude::*;

verus! {

/// A structured document.
#[derive(Debug, PartialEq)]
pub enum Doc {
    Null,
    Bool(bool),
    Number(u64),
    Text(String),
    List(Vec<Doc>),
    Record(Vec<Field>),
    /// A value that the JSON library read, carried as it is.
    Json(Value),
    /// A value that the TOML library read, carried as it is.
    Toml(toml::Value),
}

/// One named member of a record.
#[derive(Debug, PartialEq)]
pub struct Field {
    pub key: String,
    pub value: Doc,
}

/// A document as a value of specifications.
pub enum DocView {
    Null,
    Bool(bool),
    Number(nat),
    Text(Seq<char>),
    List(Seq<DocView>),
    Record(Seq<(Seq<char>, DocView)>),
    Json(JsonModel),
    Toml(TomlModel),
}

/// The document as a value of specifications.
pub open spec fn doc_view(d: Doc) -> DocView
    decreases d,
{
    match d {
        Doc::Null => DocView::Null,
        Doc::Bool(b) => DocView::Bool(b),
        Doc::Number(n) => DocView::Number(n as nat),
        Doc::Text(s) => DocView::Text(s@),
        Doc::List(items) => DocView::List(docs_view(items@)),
        Doc::Record(fields) => DocView::Record(fields_view(fields@)),
        Doc::Json(v) => DocView::Json(json_model(v)),
        Doc::Toml(v) => DocView::Toml(toml_model(v)),
    }
}

/// The views of the items of a list, in order.
pub open spec fn docs_view(items: Seq<Doc>) -> Seq<DocView>
    decreases items,
{
    if items.len() == 0 {
        Seq::empty()
    } else {
        docs_view(items.drop_last()).push(doc_view(items.last()))
    }
}

/// The views of the members of a record, in order.
pub open spec fn fields_view(fields: Seq<Field>) -> Seq<(Seq<char>, DocView)>
    decreases fields,
{
    if fields.len() == 0 {
        Seq::empty()
    } else {
        fields_view(fields.drop_last()).push((fields.last().key@, doc_view(fields.last().value)))
    }
}

impl View for Doc {
    type V = DocView;

    open spec fn view(&self) -> DocView {
        doc_view(*self)
    }
}

impl View for Field {
    type V = (Seq<char>, DocView);

    open spec fn view(&self) -> (Seq<char>, DocView) {
        (self.key@, doc_view(self.value))
    }
}

/// The view of a list holds the view of each item in its place.
pub proof fn lemma_docs_view(items: Seq<Doc>)
    ensures
        docs_view(items) == views(items),
    decreases items.len(),
{
    if items.len() > 0 {
        lemma_docs_view(items.drop_last());
    }
}

impl DocView {
    /// The record without members.
    pub open spec fn record() -> DocView {
        DocView::Record(Seq::empty())
    }

    /// The record with one more member where there is a value for it, and
    /// as it is where there is none.
    pub open spec fn with_optional(self, key: Seq<char>, value: Option<DocView>) -> DocView {
        match value {
            Some(v) => self.with(key, v),
            None => self,
        }
    }

    /// The record with one more member that holds a text, where there is one.
    pub open spec fn with_text(self, key: Seq<char>, value: Option<Seq<char>>) -> DocView {
        match value {
            Some(t) => self.with(key, DocView::Text(t)),
            None => self,
        }
    }

    /// A text that may be absent: `Null` stands for the absent one.
    pub open spec fn optional_text(s: Option<Seq<char>>) -> DocView {
        match s {
            Some(t) => DocView::Text(t),
            None => DocView::Null,
        }
    }

    /// The list of the given texts.
    pub open spec fn texts(items: Seq<Seq<char>>) -> DocView {
        DocView::List(items.map_values(|t: Seq<char>| DocView::Text(t)))
    }

    /// The record with one more member at its end. Anything but a record is
    /// left as it is.
    pub open spec fn with(self, key: Seq<char>, value: DocView) -> DocView {
        match self {
            DocView::Record(fields) => DocView::Record(fields.push((key, value))),
            other => other,
        }
    }
}

impl Doc {
    /// The record without members.
    pub fn record() -> (r: Doc)
        ensures
            r@ == DocView::record(),
    {
        let r = Doc::Record(Vec::new());
        r
    }

    /// Adds a member at the end of a record.
    pub fn with(self, key: &str, value: Doc) -> (r: Doc)
        ensures
            r@ == self@.with(key@, value@),
    {
        match self {
            Doc::Record(fields) => {
                let mut fields = fields;
                let ghost before = fields@;
                fields.push(Field { key: key.to_owned(), value });
                assert(fields@.drop_last() =~= before);
                Doc::Record(fields)
            },
            other => other,
        }
    }

    /// Adds a member where there is a value for it.
    pub fn with_optional(self, key: &str, value: Option<Doc>) -> (r: Doc)
        ensures
            r@ == self@.with_optional(
                key@,
                match value {
                    Some(v) => Some(v@),
                    None => None,
                },
            ),
    {
        match value {
            Some(v) => self.with(key, v),
            None => self,
        }
    }

    /// Adds a member that holds a text, where there is one.
    pub fn with_text(self, key: &str, value: &Option<String>) -> (r: Doc)
        ensures
            r@ == self@.with_text(key@, opt_view(*value)),
    {
        match value {
            Some(t) => self.with(key, Doc::text(t.as_str())),
            None => self,
        }
    }

    /// A text.
    pub fn text(s: &str) -> (r: Doc)
        ensures
            r@ == DocView::Text(s@),
    {
        Doc::Text(s.to_owned())
    }

    /// A text that may be absent: `Null` stands for the absent one.
    pub fn optional_text(s: &Option<String>) -> (r: Doc)
        ensures
            r@ == DocView::optional_text(opt_view(*s)),
    {
        match s {
            Some(t) => Doc::Text(t.clone()),
            None => Doc::Null,
        }
    }

    /// The list of the given texts.
    pub fn texts(items: &Vec<String>) -> (r: Doc)
        ensures
            r@ == DocView::texts(views(items@)),
    {
        let mut out: Vec<Doc> = Vec::new();
        let mut i: usize = 0;
        while i < items.len()
            invariant
                i <= items.len(),
                out@.len() == i,
                forall|j: int| 0 <= j < i ==> (#[trigger] out@[j])@ == DocView::Text(items@[j]@),
            decreases items.len() - i,
        {
            out.push(Doc::Text(items[i].clone()));
            i += 1;
        }
        proof {
            lemma_docs_view(out@);
            assert(views(out@) =~= views(items@).map_values(|t: Seq<char>| DocView::Text(t)));
        }
        Doc::List(out)
    }

    /// A number that may be absent: `Null` stands for the absent one.
    pub fn optional_number(n: Option<usize>) -> (r: Doc)
        ensures
            r@ == (match n {
                Some(k) => DocView::Number(k as nat),
                None => DocView::Null,
            }),
    {
        match n {
            Some(k) => Doc::Number(k as u64),
            None => Doc::Null,
        }
    }

    /// The list of the given items.
    pub fn list(items: Vec<Doc>) -> (r: Doc)
        ensures
            r@ == DocView::List(views(items@)),
    {
        proof {
            lemma_docs_view(items@);
        }
        Doc::List(items)
    }
}

} // verus!
