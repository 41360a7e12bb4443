//! The project manifest as the TOML library reads it, and what the
//! subcommands take from it. A TOML value is opaque here: what it holds is
//! known through the library's own accessors, whose results are named below.

use crate::report::opt_view;
use toml::Table;
use toml::Value;
use vstd::prelude::*;

verus! {

/// `toml::Value`, any TOML value.
#[verifier::external_type_specification]
#[verifier::external_body]
pub struct ExTomlValue(Value);

/// `toml::de::Error`, why a text is no TOML document.
#[verifier::external_type_specification]
#[verifier::external_body]
pub struct ExTomlError(toml::de::Error);

/// `toml::map::Map`, the table of a TOML document.
#[verifier::external_type_specification]
#[verifier::external_body]
#[verifier::reject_recursive_types(K)]
#[verifier::reject_recursive_types(V)]
pub struct ExTomlMap<K, V>(toml::map::Map<K, V>);

/// A TOML value as a value of specifications. A float and a date are held
/// as the text that stands for them.
pub enum TomlModel {
    Text(Seq<char>),
    Integer(int),
    Float(Seq<char>),
    Boolean(bool),
    Datetime(Seq<char>),
    Array(Seq<TomlModel>),
    Table(Map<Seq<char>, TomlModel>),
}

/// What a TOML value holds.
pub uninterp spec fn toml_model(v: Value) -> TomlModel;

/// What a table holds: its entries by their keys.
pub uninterp spec fn toml_entries(t: Table) -> Map<Seq<char>, TomlModel>;

/// The document that `toml::Value` reads from a text through `FromStr`,
/// where it reads one.
pub uninterp spec fn toml_document_of(text: Seq<char>) -> Option<TomlModel>;

impl TomlModel {
    /// The entry of a table under a key; nothing for a key that the table
    /// does not have, and for a value that is no table.
    pub open spec fn entry(self, key: Seq<char>) -> Option<TomlModel> {
        match self {
            TomlModel::Table(entries) => if entries.contains_key(key) {
                Some(entries[key])
            } else {
                None
            },
            _ => None,
        }
    }

    /// The text of a string; nothing for any other value.
    pub open spec fn text(self) -> Option<Seq<char>> {
        match self {
            TomlModel::Text(t) => Some(t),
            _ => None,
        }
    }

    /// The entries of a table; nothing for any other value.
    pub open spec fn table(self) -> Option<Map<Seq<char>, TomlModel>> {
        match self {
            TomlModel::Table(entries) => Some(entries),
            _ => None,
        }
    }

    /// The text under a key of a table.
    pub open spec fn text_entry(self, key: Seq<char>) -> Option<Seq<char>> {
        match self.entry(key) {
            Some(e) => e.text(),
            None => None,
        }
    }

    /// How many entries the table under a key has, where the key is there;
    /// a value under the key that is no table counts as none.
    pub open spec fn entry_count(self, key: Seq<char>) -> Option<nat> {
        match self.entry(key) {
            Some(e) => Some(
                match e.table() {
                    Some(entries) => entries.dom().len(),
                    None => 0,
                },
            ),
            None => None,
        }
    }
}

/// `<toml::Value as FromStr>::from_str` reads a document from a text, or
/// says why the text is none. What it reads depends on the text alone.
#[verifier::external_body]
pub(crate) fn read_toml(text: &str) -> (r: Result<Value, toml::de::Error>)
    ensures
        match r {
            Ok(v) => toml_document_of(text@) == Some(toml_model(v)),
            Err(_) => toml_document_of(text@) is None,
        },
{
    text.parse::<Value>()
}

/// `Value::get` with a string index returns the entry of a table under that
/// key, and nothing for a missing key or for a value that is no table.
#[verifier::external_body]
pub(crate) fn entry<'a>(v: &'a Value, key: &str) -> (r: Option<&'a Value>)
    ensures
        match r {
            Some(e) => toml_model(*v).entry(key@) == Some(toml_model(*e)),
            None => toml_model(*v).entry(key@) is None,
        },
{
    v.get(key)
}

/// `Value::as_str` returns the text of a string, and nothing for any other
/// value.
pub assume_specification[ Value::as_str ](v: &Value) -> (r: Option<&str>)
    ensures
        match r {
            Some(t) => toml_model(*v).text() == Some(t@),
            None => toml_model(*v).text() is None,
        },
;

/// `Value::as_table` returns the table of a table value, and nothing for
/// any other value.
pub assume_specification[ Value::as_table ](v: &Value) -> (r: Option<&Table>)
    ensures
        match r {
            Some(t) => toml_model(*v).table() == Some(toml_entries(*t)),
            None => toml_model(*v).table() is None,
        },
;

/// `Map::len` returns the number of entries of the table.
pub assume_specification[ toml::map::Map::<String, Value>::len ](t: &Table) -> (r: usize)
    ensures
        r == toml_entries(*t).dom().len(),
;

/// `<toml::Value as Clone>::clone` returns a value that holds what the
/// given one holds.
pub assume_specification[ <Value as Clone>::clone ](v: &Value) -> (r: Value)
    ensures
        toml_model(r) == toml_model(*v),
;

/// What the manifest says of the package.
#[derive(Debug, PartialEq)]
pub struct PackageInfo {
    pub name: Option<String>,
    pub version: Option<String>,
    pub edition: Option<String>,
    /// The authors as the manifest holds them.
    pub authors: Option<Value>,
    pub description: Option<String>,
}

/// What the manifest says of the package, as a value of specifications.
pub struct PackageInfoView {
    pub name: Option<Seq<char>>,
    pub version: Option<Seq<char>>,
    pub edition: Option<Seq<char>>,
    pub authors: Option<TomlModel>,
    pub description: Option<Seq<char>>,
}

impl View for PackageInfo {
    type V = PackageInfoView;

    open spec fn view(&self) -> PackageInfoView {
        PackageInfoView {
            name: opt_view(self.name),
            version: opt_view(self.version),
            edition: opt_view(self.edition),
            authors: match self.authors {
                Some(a) => Some(toml_model(a)),
                None => None,
            },
            description: opt_view(self.description),
        }
    }
}

/// What the subcommands take from a manifest.
#[derive(Debug, PartialEq)]
pub struct ManifestSummary {
    pub package: Option<PackageInfo>,
    pub dependencies: Option<usize>,
    pub dev_dependencies: Option<usize>,
}

/// A summary as a value of specifications.
pub struct ManifestSummaryView {
    pub package: Option<PackageInfoView>,
    pub dependencies: Option<nat>,
    pub dev_dependencies: Option<nat>,
}

impl View for ManifestSummary {
    type V = ManifestSummaryView;

    open spec fn view(&self) -> ManifestSummaryView {
        ManifestSummaryView {
            package: match self.package {
                Some(p) => Some(p@),
                None => None,
            },
            dependencies: match self.dependencies {
                Some(n) => Some(n as nat),
                None => None,
            },
            dev_dependencies: match self.dev_dependencies {
                Some(n) => Some(n as nat),
                None => None,
            },
        }
    }
}

/// What a package table says.
pub open spec fn package_of(package: TomlModel) -> PackageInfoView {
    PackageInfoView {
        name: package.text_entry("name"@),
        version: package.text_entry("version"@),
        edition: package.text_entry("edition"@),
        authors: package.entry("authors"@),
        description: package.text_entry("description"@),
    }
}

/// What a document says: the package where it has a package table, and the
/// numbers of dependencies and of development dependencies where it has
/// those tables.
pub open spec fn summary_of(document: TomlModel) -> ManifestSummaryView {
    ManifestSummaryView {
        package: match document.entry("package"@) {
            Some(p) => Some(package_of(p)),
            None => None,
        },
        dependencies: document.entry_count("dependencies"@),
        dev_dependencies: document.entry_count("dev-dependencies"@),
    }
}

/// What the text of a manifest says, where it is a TOML document.
pub open spec fn manifest_summary(text: Seq<char>) -> Option<ManifestSummaryView> {
    match toml_document_of(text) {
        Some(document) => Some(summary_of(document)),
        None => None,
    }
}

fn text_of(v: &Value, key: &str) -> (r: Option<String>)
    ensures
        opt_view(r) == toml_model(*v).text_entry(key@),
{
    match entry(v, key) {
        Some(e) => match e.as_str() {
            Some(t) => Some(t.to_owned()),
            None => None,
        },
        None => None,
    }
}

fn count_of(v: &Value, key: &str) -> (r: Option<usize>)
    ensures
        match r {
            Some(n) => toml_model(*v).entry_count(key@) == Some(n as nat),
            None => toml_model(*v).entry_count(key@) is None,
        },
{
    match entry(v, key) {
        Some(e) => match e.as_table() {
            Some(t) => Some(t.len()),
            None => Some(0),
        },
        None => None,
    }
}

/// Takes from a document what the subcommands need.
pub fn summarize_document(document: &Value) -> (r: ManifestSummary)
    ensures
        r@ == summary_of(toml_model(*document)),
{
    let package = match entry(document, "package") {
        Some(p) => Some(
            PackageInfo {
                name: text_of(p, "name"),
                version: text_of(p, "version"),
                edition: text_of(p, "edition"),
                authors: match entry(p, "authors") {
                    Some(a) => Some(a.clone()),
                    None => None,
                },
                description: text_of(p, "description"),
            },
        ),
        None => None,
    };
    ManifestSummary {
        package,
        dependencies: count_of(document, "dependencies"),
        dev_dependencies: count_of(document, "dev-dependencies"),
    }
}

/// Reads the text of a manifest.
pub fn summarize(text: &str) -> (r: Option<ManifestSummary>)
    ensures
        match r {
            Some(s) => manifest_summary(text@) == Some(s@),
            None => manifest_summary(text@) is None,
        },
{
    match read_toml(text) {
        Ok(document) => Some(summarize_document(&document)),
        Err(_) => None,
    }
}

/// The name of the package, where the manifest is a document that gives
/// one.
pub open spec fn package_name(text: Seq<char>) -> Option<Seq<char>> {
    match manifest_summary(text) {
        Some(s) => match s.package {
            Some(p) => p.name,
            None => None,
        },
        None => None,
    }
}

/// Reads the name of the package from the text of a manifest.
pub fn read_package_name(text: &str) -> (r: Option<String>)
    ensures
        opt_view(r) == package_name(text@),
{
    match summarize(text) {
        Some(s) => match s.package {
            Some(p) => p.name,
            None => None,
        },
        None => None,
    }
}

} // verus!
