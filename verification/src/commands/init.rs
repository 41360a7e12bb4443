//! Starting a new project from one of the built-in templates: what is
//! refused, and what is done in which order.

use crate::document::{Doc, DocView};
use crate::process::{Command, CommandView};
use crate::report::{error_only, hard_error, opt_view, push_line, push_text, Rendered, RenderedView};
use crate::text::{join2, join3, str_eq, views};
use vstd::prelude::*;

verus! {

/// The kinds of project that can be made.
#[derive(Clone, Copy, Debug, PartialEq, Eq, Structural)]
pub enum TemplateKind {
    Basic,
    Library,
    Cli,
    WebApi,
    Workspace,
}

/// How many templates there are.
pub const TEMPLATE_COUNT: usize = 6;

/// The names of the templates.
pub open spec fn template_names() -> Seq<Seq<char>> {
    seq!["basic"@, "binary"@, "library"@, "cli"@, "web-api"@, "workspace"@]
}

/// The kind that a template name stands for; `binary` is another name for
/// `basic`. A name that is none of the six stands for nothing.
pub open spec fn template_kind(name: Seq<char>) -> Option<TemplateKind> {
    if name == "basic"@ || name == "binary"@ {
        Some(TemplateKind::Basic)
    } else if name == "library"@ {
        Some(TemplateKind::Library)
    } else if name == "cli"@ {
        Some(TemplateKind::Cli)
    } else if name == "web-api"@ {
        Some(TemplateKind::WebApi)
    } else if name == "workspace"@ {
        Some(TemplateKind::Workspace)
    } else {
        None
    }
}

/// Looks a template up by its name.
pub fn find_template(name: &str) -> (r: Option<TemplateKind>)
    ensures
        r == template_kind(name@),
{
    if str_eq(name, "basic") || str_eq(name, "binary") {
        Some(TemplateKind::Basic)
    } else if str_eq(name, "library") {
        Some(TemplateKind::Library)
    } else if str_eq(name, "cli") {
        Some(TemplateKind::Cli)
    } else if str_eq(name, "web-api") {
        Some(TemplateKind::WebApi)
    } else if str_eq(name, "workspace") {
        Some(TemplateKind::Workspace)
    } else {
        None
    }
}

/// What the catalog says of the template at `index`: its description and
/// the type of project that it makes.
pub open spec fn template_entry(index: int) -> (Seq<char>, Seq<char>) {
    if index == 0 {
        ("Basic Rust binary project with enhanced Cargo.toml"@, "binary"@)
    } else if index == 1 {
        ("Alias for basic template"@, "binary"@)
    } else if index == 2 {
        ("Rust library with documentation and tests"@, "library"@)
    } else if index == 3 {
        ("Command-line application with clap and tracing"@, "binary"@)
    } else if index == 4 {
        ("Web API server using Axum framework"@, "binary"@)
    } else {
        ("Multi-crate workspace with core library and CLI"@, "workspace"@)
    }
}

/// The crates that the template at `index` depends on, where the catalog
/// names them.
pub open spec fn template_dependencies(index: int) -> Option<Seq<Seq<char>>> {
    if index == 3 {
        Some(seq!["clap"@, "anyhow"@, "tracing"@])
    } else if index == 4 {
        Some(seq!["axum"@, "tokio"@, "tower"@, "serde"@])
    } else {
        None
    }
}

/// The record of the template at `index`.
pub open spec fn template_document(index: int) -> DocView {
    DocView::record().with("description"@, DocView::Text(template_entry(index).0)).with(
        "type"@,
        DocView::Text(template_entry(index).1),
    ).with_optional(
        "dependencies"@,
        match template_dependencies(index) {
            Some(d) => Some(DocView::texts(d)),
            None => None,
        },
    )
}

/// The line of the template at `index`.
pub open spec fn template_line(index: int) -> Seq<char> {
    "🔹 "@ + template_names()[index] + " - "@ + template_entry(index).0
}

/// The built-in templates as a record, one member for each.
pub open spec fn templates_document() -> DocView {
    DocView::record().with("basic"@, template_document(0)).with(
        "binary"@,
        template_document(1),
    ).with("library"@, template_document(2)).with("cli"@, template_document(3)).with(
        "web-api"@,
        template_document(4),
    ).with("workspace"@, template_document(5))
}

/// The catalog in both forms.
pub open spec fn catalog_rendered() -> RenderedView {
    RenderedView::new(DocView::record().with("templates"@, templates_document())).line("📋 Available Project Templates"@).line("=============================="@).line(
        template_line(0),
    ).line(template_line(1)).line(template_line(2)).line(template_line(3)).line(
        template_line(4),
    ).line(template_line(5)).line(""@).line(
        "💡 Usage: oxy init <project_name> --template <template_name>"@,
    )
}

fn name_at(index: usize) -> (r: &'static str)
    requires
        index < TEMPLATE_COUNT,
    ensures
        r@ == template_names()[index as int],
{
    if index == 0 {
        "basic"
    } else if index == 1 {
        "binary"
    } else if index == 2 {
        "library"
    } else if index == 3 {
        "cli"
    } else if index == 4 {
        "web-api"
    } else {
        "workspace"
    }
}

fn description_at(index: usize) -> (r: &'static str)
    ensures
        r@ == template_entry(index as int).0,
{
    if index == 0 {
        "Basic Rust binary project with enhanced Cargo.toml"
    } else if index == 1 {
        "Alias for basic template"
    } else if index == 2 {
        "Rust library with documentation and tests"
    } else if index == 3 {
        "Command-line application with clap and tracing"
    } else if index == 4 {
        "Web API server using Axum framework"
    } else {
        "Multi-crate workspace with core library and CLI"
    }
}

fn type_at(index: usize) -> (r: &'static str)
    ensures
        r@ == template_entry(index as int).1,
{
    if index == 2 {
        "library"
    } else if index >= 5 {
        "workspace"
    } else {
        "binary"
    }
}

fn texts3(a: &str, b: &str, c: &str) -> (r: Vec<String>)
    ensures
        views(r@) == seq![a@, b@, c@],
{
    let mut out: Vec<String> = Vec::new();
    push_line(&mut out, a);
    push_line(&mut out, b);
    push_line(&mut out, c);
    out
}

fn document_at(index: usize) -> (r: Doc)
    ensures
        r@ == template_document(index as int),
{
    let dependencies = if index == 3 {
        Some(Doc::texts(&texts3("clap", "anyhow", "tracing")))
    } else if index == 4 {
        let mut four = texts3("axum", "tokio", "tower");
        push_line(&mut four, "serde");
        assert(views(four@) =~= seq!["axum"@, "tokio"@, "tower"@, "serde"@]);
        Some(Doc::texts(&four))
    } else {
        None
    };
    Doc::record().with("description", Doc::text(description_at(index))).with(
        "type",
        Doc::text(type_at(index)),
    ).with_optional("dependencies", dependencies)
}

fn line_at(index: usize) -> (r: String)
    requires
        index < TEMPLATE_COUNT,
    ensures
        r@ == template_line(index as int),
{
    let mut line = join3("🔹 ", name_at(index), " - ");
    line.append(description_at(index));
    line
}

/// The built-in templates as a record, one member for each.
pub fn get_builtin_templates() -> (r: Doc)
    ensures
        r@ == templates_document(),
{
    Doc::record().with("basic", document_at(0)).with("binary", document_at(1)).with(
        "library",
        document_at(2),
    ).with("cli", document_at(3)).with("web-api", document_at(4)).with("workspace", document_at(5))
}

/// The catalog of templates, rendered.
pub fn list_available_templates() -> (r: Rendered)
    ensures
        r@ == catalog_rendered(),
{
    Rendered::new(Doc::record().with("templates", get_builtin_templates())).line("📋 Available Project Templates").line("==============================").text(
        line_at(0),
    ).text(line_at(1)).text(line_at(2)).text(line_at(3)).text(line_at(4)).text(line_at(5)).line(
        "",
    ).line("💡 Usage: oxy init <project_name> --template <template_name>")
}

/// The refusal of a request without a project name.
pub open spec fn name_required() -> RenderedView {
    RenderedView::new(
        DocView::record().with("error"@, DocView::Text("Project name is required"@)).with(
            "usage"@,
            DocView::Text("oxy init <project_name> [--template <template>]"@),
        ),
    ).line("❌ Project name is required"@).line(
        "Usage: oxy init <project_name> [--template <template>]"@,
    ).fail("Project name is required"@)
}

/// The refusal of a request for a directory that is there already.
pub open spec fn already_exists(project: Seq<char>) -> RenderedView {
    RenderedView::new(
        DocView::record().with("error"@, DocView::Text("Directory already exists"@)).with(
            "project_name"@,
            DocView::Text(project),
        ),
    ).line("❌ Directory '"@ + project + "' already exists"@).fail("Directory already exists"@)
}

/// The refusal of a request for a template that is not in the catalog.
pub open spec fn template_not_found(template: Seq<char>) -> RenderedView {
    RenderedView::new(
        DocView::record().with("error"@, DocView::Text("Template not found"@)).with(
            "template"@,
            DocView::Text(template),
        ).with("available_templates"@, DocView::texts(template_names())),
    ).line("❌ Template '"@ + template + "' not found"@).line("Available templates:"@).more(
        template_names().map_values(|n: Seq<char>| "  - "@ + n),
    ).fail("Template not found"@)
}

/// What comes of a request.
#[derive(Debug, PartialEq)]
pub enum InitPlan {
    /// Nothing is made: the catalog is shown, or the request is refused.
    Show(Rendered),
    /// The project is to be made.
    Create { kind: TemplateKind, project: String },
}

/// A plan as a value of specifications.
pub enum InitPlanView {
    Show(RenderedView),
    Create { kind: TemplateKind, project: Seq<char> },
}

impl View for InitPlan {
    type V = InitPlanView;

    open spec fn view(&self) -> InitPlanView {
        match self {
            InitPlan::Show(r) => InitPlanView::Show(r@),
            InitPlan::Create { kind, project } => InitPlanView::Create {
                kind: *kind,
                project: project@,
            },
        }
    }
}

/// The template that is meant where none is named.
pub open spec fn template_or_default(template: Option<Seq<char>>) -> Seq<char> {
    match template {
        Some(t) => t,
        None => "basic"@,
    }
}

/// What comes of a request. The catalog is shown where it is asked for.
/// Otherwise the request is refused where it names no project, where the
/// project's directory exists already, or where its template is not in the
/// catalog, in this order; and the project is made in every other case.
pub open spec fn init_plan(
    name: Option<Seq<char>>,
    template: Option<Seq<char>>,
    list_templates: bool,
    directory_exists: bool,
) -> InitPlanView {
    if list_templates {
        InitPlanView::Show(catalog_rendered())
    } else {
        match name {
            None => InitPlanView::Show(name_required()),
            Some(project) => if directory_exists {
                InitPlanView::Show(already_exists(project))
            } else {
                match template_kind(template_or_default(template)) {
                    None => InitPlanView::Show(template_not_found(template_or_default(template))),
                    Some(kind) => InitPlanView::Create { kind, project },
                }
            },
        }
    }
}

fn all_names() -> (r: Vec<String>)
    ensures
        views(r@) == template_names(),
{
    let mut out = texts3("basic", "binary", "library");
    push_line(&mut out, "cli");
    push_line(&mut out, "web-api");
    push_line(&mut out, "workspace");
    out
}

/// Decides what comes of a request.
pub fn run(
    name: &Option<String>,
    template: &Option<String>,
    list_templates: bool,
    directory_exists: bool,
) -> (r: InitPlan)
    ensures
        r@ == init_plan(opt_view(*name), opt_view(*template), list_templates, directory_exists),
{
    if list_templates {
        return InitPlan::Show(list_available_templates());
    }
    let project = match name {
        None => {
            return InitPlan::Show(
                Rendered::new(
                    Doc::record().with("error", Doc::text("Project name is required")).with(
                        "usage",
                        Doc::text("oxy init <project_name> [--template <template>]"),
                    ),
                ).line("❌ Project name is required").line(
                    "Usage: oxy init <project_name> [--template <template>]",
                ).fail("Project name is required"),
            );
        },
        Some(project) => project,
    };
    let wanted = match template {
        Some(t) => t.clone(),
        None => "basic".to_owned(),
    };
    initialize_project(project.as_str(), wanted.as_str(), directory_exists)
}

/// Decides what comes of a request that names its project and template.
pub fn initialize_project(project: &str, template: &str, directory_exists: bool) -> (r: InitPlan)
    ensures
        r@ == init_plan(Some(project@), Some(template@), false, directory_exists),
{
    if directory_exists {
        return InitPlan::Show(
            Rendered::new(
                Doc::record().with("error", Doc::text("Directory already exists")).with(
                    "project_name",
                    Doc::text(project),
                ),
            ).text(join3("❌ Directory '", project, "' already exists")).fail(
                "Directory already exists",
            ),
        );
    }
    match find_template(template) {
        Some(kind) => InitPlan::Create { kind, project: project.to_owned() },
        None => {
            let names = all_names();
            let mut listed: Vec<String> = Vec::new();
            let ghost all = views(names@);
            let mut i: usize = 0;
            while i < names.len()
                invariant
                    i <= names.len(),
                    all == views(names@),
                    views(listed@) =~= all.take(i as int).map_values(|n: Seq<char>| "  - "@ + n),
                decreases names.len() - i,
            {
                push_text(&mut listed, join2("  - ", names[i].as_str()));
                i += 1;
            }
            assert(all.take(names.len() as int) =~= all);
            InitPlan::Show(
                Rendered::new(
                    Doc::record().with("error", Doc::text("Template not found")).with(
                        "template",
                        Doc::text(template),
                    ).with("available_templates", Doc::texts(&names)),
                ).text(join3("❌ Template '", template, "' not found")).line(
                    "Available templates:",
                ).more(listed).fail("Template not found"),
            )
        },
    }
}

/// A request for a template that is not in the catalog is refused as a
/// failure, and nothing is made for it.
pub proof fn law_unknown_template_makes_nothing(
    name: Option<Seq<char>>,
    template: Seq<char>,
    directory_exists: bool,
)
    requires
        template != "basic"@,
        template != "binary"@,
        template != "library"@,
        template != "cli"@,
        template != "web-api"@,
        template != "workspace"@,
    ensures
        init_plan(name, Some(template), false, directory_exists) matches InitPlanView::Show(r)
            && r.failure is Some,
{
}

/// Only a request that names a project, for a directory that does not
/// exist, with a template of the catalog, has a project made.
pub proof fn law_when_a_project_is_made(
    name: Option<Seq<char>>,
    template: Option<Seq<char>>,
    list_templates: bool,
    directory_exists: bool,
)
    ensures
        init_plan(name, template, list_templates, directory_exists) is Create <==> (!list_templates
            && name is Some && !directory_exists && template_kind(template_or_default(template))
            is Some),
{
}

// ------------------------------------------------------------------- making

/// The texts that the templates are made of. What each holds is the
/// caller's.
#[derive(Clone, Copy, Debug, PartialEq, Eq, Structural)]
pub enum Content {
    BasicMain,
    ReleaseProfiles,
    Readme,
    LibrarySource,
    CliManifest,
    CliMain,
    WebManifest,
    WebMain,
    WorkspaceManifest,
}

/// One thing to do while a project is made.
#[derive(Debug, PartialEq)]
pub enum Action {
    /// Make the directory, and those above it.
    CreateDir(String),
    /// Run the command.
    Run(Command),
    /// Write the text to the file, in place of what the file holds.
    Write(String, Content),
    /// Add the text to the end of the file.
    Append(String, Content),
}

/// An action as a value of specifications.
pub enum ActionView {
    CreateDir(Seq<char>),
    Run(CommandView),
    Write(Seq<char>, Content),
    Append(Seq<char>, Content),
}

impl View for Action {
    type V = ActionView;

    open spec fn view(&self) -> ActionView {
        match self {
            Action::CreateDir(p) => ActionView::CreateDir(p@),
            Action::Run(c) => ActionView::Run(c@),
            Action::Write(p, c) => ActionView::Write(p@, *c),
            Action::Append(p, c) => ActionView::Append(p@, *c),
        }
    }
}

/// The command that has the package manager start a package at `path`.
pub open spec fn package_command(path: Seq<char>, name: Seq<char>, library: bool) -> CommandView {
    if library {
        CommandView::new("cargo"@).arg("init"@).arg(path).arg("--lib"@).arg("--name"@).arg(name)
    } else {
        CommandView::new("cargo"@).arg("init"@).arg(path).arg("--name"@).arg(name)
    }
}

/// What is done, in order, to make a project of a kind.
pub open spec fn script_of(kind: TemplateKind, project: Seq<char>) -> Seq<ActionView> {
    match kind {
        TemplateKind::Basic => seq![
            ActionView::CreateDir(project),
            ActionView::Run(package_command(project, project, false)),
            ActionView::Write(project + "/src/main.rs"@, Content::BasicMain),
            ActionView::Append(project + "/Cargo.toml"@, Content::ReleaseProfiles),
            ActionView::Write(project + "/README.md"@, Content::Readme),
        ],
        TemplateKind::Library => seq![
            ActionView::CreateDir(project),
            ActionView::Run(package_command(project, project, true)),
            ActionView::Write(project + "/src/lib.rs"@, Content::LibrarySource),
        ],
        TemplateKind::Cli => seq![
            ActionView::CreateDir(project),
            ActionView::Run(package_command(project, project, false)),
            ActionView::Write(project + "/Cargo.toml"@, Content::CliManifest),
            ActionView::Write(project + "/src/main.rs"@, Content::CliMain),
        ],
        TemplateKind::WebApi => seq![
            ActionView::CreateDir(project),
            ActionView::Run(package_command(project, project, false)),
            ActionView::Write(project + "/Cargo.toml"@, Content::WebManifest),
            ActionView::Write(project + "/src/main.rs"@, Content::WebMain),
        ],
        TemplateKind::Workspace => seq![
            ActionView::CreateDir(project),
            ActionView::CreateDir(project + "/crates"@),
            ActionView::Write(project + "/Cargo.toml"@, Content::WorkspaceManifest),
            ActionView::Run(
                package_command(project + "/crates/core"@, project + "-core"@, true),
            ),
            ActionView::Run(package_command(project + "/crates/cli"@, project + "-cli"@, false)),
        ],
    }
}

fn start_package(path: &str, name: &str, library: bool) -> (r: Action)
    ensures
        r@ == ActionView::Run(package_command(path@, name@, library)),
{
    if library {
        Action::Run(
            Command::new("cargo").arg("init").arg(path).arg("--lib").arg("--name").arg(name),
        )
    } else {
        Action::Run(Command::new("cargo").arg("init").arg(path).arg("--name").arg(name))
    }
}

/// What is done to make a basic project.
pub fn create_basic_project(project: &str) -> (r: Vec<Action>)
    ensures
        views(r@) == script_of(TemplateKind::Basic, project@),
{
    let mut out: Vec<Action> = Vec::new();
    out.push(Action::CreateDir(project.to_owned()));
    out.push(start_package(project, project, false));
    out.push(Action::Write(join2(project, "/src/main.rs"), Content::BasicMain));
    out.push(Action::Append(join2(project, "/Cargo.toml"), Content::ReleaseProfiles));
    out.push(Action::Write(join2(project, "/README.md"), Content::Readme));
    out
}

/// What is done to make a library.
pub fn create_library_project(project: &str) -> (r: Vec<Action>)
    ensures
        views(r@) == script_of(TemplateKind::Library, project@),
{
    let mut out: Vec<Action> = Vec::new();
    out.push(Action::CreateDir(project.to_owned()));
    out.push(start_package(project, project, true));
    out.push(Action::Write(join2(project, "/src/lib.rs"), Content::LibrarySource));
    out
}

/// What is done to make a command-line application.
pub fn create_cli_project(project: &str) -> (r: Vec<Action>)
    ensures
        views(r@) == script_of(TemplateKind::Cli, project@),
{
    let mut out: Vec<Action> = Vec::new();
    out.push(Action::CreateDir(project.to_owned()));
    out.push(start_package(project, project, false));
    out.push(Action::Write(join2(project, "/Cargo.toml"), Content::CliManifest));
    out.push(Action::Write(join2(project, "/src/main.rs"), Content::CliMain));
    out
}

/// What is done to make a networked service.
pub fn create_web_api_project(project: &str) -> (r: Vec<Action>)
    ensures
        views(r@) == script_of(TemplateKind::WebApi, project@),
{
    let mut out: Vec<Action> = Vec::new();
    out.push(Action::CreateDir(project.to_owned()));
    out.push(start_package(project, project, false));
    out.push(Action::Write(join2(project, "/Cargo.toml"), Content::WebManifest));
    out.push(Action::Write(join2(project, "/src/main.rs"), Content::WebMain));
    out
}

/// What is done to make a workspace of a library and a binary.
pub fn create_workspace_project(project: &str) -> (r: Vec<Action>)
    ensures
        views(r@) == script_of(TemplateKind::Workspace, project@),
{
    let mut out: Vec<Action> = Vec::new();
    out.push(Action::CreateDir(project.to_owned()));
    out.push(Action::CreateDir(join2(project, "/crates")));
    out.push(Action::Write(join2(project, "/Cargo.toml"), Content::WorkspaceManifest));
    out.push(
        start_package(
            join2(project, "/crates/core").as_str(),
            join2(project, "-core").as_str(),
            true,
        ),
    );
    out.push(
        start_package(
            join2(project, "/crates/cli").as_str(),
            join2(project, "-cli").as_str(),
            false,
        ),
    );
    out
}

/// What is done to make a project of the given kind.
pub fn script(kind: TemplateKind, project: &str) -> (r: Vec<Action>)
    ensures
        views(r@) == script_of(kind, project@),
{
    match kind {
        TemplateKind::Basic => create_basic_project(project),
        TemplateKind::Library => create_library_project(project),
        TemplateKind::Cli => create_cli_project(project),
        TemplateKind::WebApi => create_web_api_project(project),
        TemplateKind::Workspace => create_workspace_project(project),
    }
}

/// Every script begins with the directory of the project, so nothing is
/// written or run before that directory is there.
pub proof fn law_directory_comes_first(kind: TemplateKind, project: Seq<char>)
    ensures
        script_of(kind, project).len() >= 3,
        script_of(kind, project)[0] == ActionView::CreateDir(project),
{
}

/// The name of a kind in a report.
pub open spec fn kind_name(kind: TemplateKind) -> Seq<char> {
    match kind {
        TemplateKind::Basic => "basic"@,
        TemplateKind::Library => "library"@,
        TemplateKind::Cli => "cli"@,
        TemplateKind::WebApi => "web-api"@,
        TemplateKind::Workspace => "workspace"@,
    }
}

/// The start of every report of a project that was made.
pub open spec fn made(kind: TemplateKind, project: Seq<char>) -> DocView {
    DocView::record().with("status"@, DocView::Text("success"@)).with(
        "project_name"@,
        DocView::Text(project),
    ).with("template"@, DocView::Text(kind_name(kind)))
}

/// The report of a project that was made.
pub open spec fn created(kind: TemplateKind, project: Seq<char>) -> RenderedView {
    match kind {
        TemplateKind::Basic => RenderedView::new(
            made(kind, project).with(
                "files_created"@,
                DocView::texts(seq!["src/main.rs"@, "Cargo.toml"@, "README.md"@]),
            ),
        ).line("✅ Created basic Rust project: "@ + project).line("📁 Project structure:"@).line(
            "  "@ + project + "/"@,
        ).line("    ├── src/main.rs"@).line("    ├── Cargo.toml"@).line("    └── README.md"@).line(
            ""@,
        ).line("💡 Next steps: cd "@ + project + " && cargo run"@),
        TemplateKind::Library => RenderedView::new(
            made(kind, project).with(
                "files_created"@,
                DocView::texts(seq!["src/lib.rs"@, "Cargo.toml"@]),
            ),
        ).line("✅ Created library project: "@ + project).line("💡 Next steps:"@).line(
            "  cd "@ + project + " && cargo test"@,
        ).line("  cargo doc --open"@),
        TemplateKind::Cli => RenderedView::new(
            made(kind, project).with(
                "dependencies"@,
                DocView::texts(seq!["clap"@, "anyhow"@, "tracing"@, "tracing-subscriber"@]),
            ),
        ).line("✅ Created CLI project: "@ + project).line(
            "💡 Try: cargo run -- hello --name YourName"@,
        ),
        TemplateKind::WebApi => RenderedView::new(
            made(kind, project).with("server_url"@, DocView::Text("http://localhost:3000"@)),
        ).line("✅ Created web API project: "@ + project).line("💡 Start with: cargo run"@).line(
            "   API will be available at http://localhost:3000"@,
        ),
        TemplateKind::Workspace => RenderedView::new(
            made(kind, project).with(
                "crates"@,
                DocView::texts(seq![project + "-core"@, project + "-cli"@]),
            ),
        ).line("✅ Created workspace project: "@ + project).line("📁 Workspace structure:"@).line(
            "  "@ + project + "/"@,
        ).line("    ├── Cargo.toml (workspace)"@).line("    └── crates/"@).line(
            "        ├── core/ (library)"@,
        ).line("        └── cli/ (binary)"@).line(""@).line(
            "💡 Build all: cd "@ + project + " && cargo build"@,
        ),
    }
}

fn kind_text(kind: TemplateKind) -> (r: &'static str)
    ensures
        r@ == kind_name(kind),
{
    match kind {
        TemplateKind::Basic => "basic",
        TemplateKind::Library => "library",
        TemplateKind::Cli => "cli",
        TemplateKind::WebApi => "web-api",
        TemplateKind::Workspace => "workspace",
    }
}

fn texts2(a: &str, b: &str) -> (r: Vec<String>)
    ensures
        views(r@) == seq![a@, b@],
{
    let mut out: Vec<String> = Vec::new();
    push_line(&mut out, a);
    push_line(&mut out, b);
    out
}

/// Reports a project that was made.
pub fn report_created(kind: TemplateKind, project: &str) -> (r: Rendered)
    ensures
        r@ == created(kind, project@),
{
    let base = Doc::record().with("status", Doc::text("success")).with(
        "project_name",
        Doc::text(project),
    ).with("template", Doc::text(kind_text(kind)));
    match kind {
        TemplateKind::Basic => Rendered::new(
            base.with(
                "files_created",
                Doc::texts(&texts3("src/main.rs", "Cargo.toml", "README.md")),
            ),
        ).text(join2("✅ Created basic Rust project: ", project)).line(
            "📁 Project structure:",
        ).text(join3("  ", project, "/")).line("    ├── src/main.rs").line(
            "    ├── Cargo.toml",
        ).line("    └── README.md").line("").text(
            join3("💡 Next steps: cd ", project, " && cargo run"),
        ),
        TemplateKind::Library => Rendered::new(
            base.with("files_created", Doc::texts(&texts2("src/lib.rs", "Cargo.toml"))),
        ).text(join2("✅ Created library project: ", project)).line("💡 Next steps:").text(
            join3("  cd ", project, " && cargo test"),
        ).line("  cargo doc --open"),
        TemplateKind::Cli => {
            let mut four = texts3("clap", "anyhow", "tracing");
            push_line(&mut four, "tracing-subscriber");
            assert(views(four@) =~= seq!["clap"@, "anyhow"@, "tracing"@, "tracing-subscriber"@]);
            Rendered::new(base.with("dependencies", Doc::texts(&four))).text(
                join2("✅ Created CLI project: ", project),
            ).line("💡 Try: cargo run -- hello --name YourName")
        },
        TemplateKind::WebApi => Rendered::new(
            base.with("server_url", Doc::text("http://localhost:3000")),
        ).text(join2("✅ Created web API project: ", project)).line(
            "💡 Start with: cargo run",
        ).line("   API will be available at http://localhost:3000"),
        TemplateKind::Workspace => {
            let core = join2(project, "-core");
            let cli = join2(project, "-cli");
            Rendered::new(
                base.with("crates", Doc::texts(&texts2(core.as_str(), cli.as_str()))),
            ).text(join2("✅ Created workspace project: ", project)).line(
                "📁 Workspace structure:",
            ).text(join3("  ", project, "/")).line("    ├── Cargo.toml (workspace)").line(
                "    └── crates/",
            ).line("        ├── core/ (library)").line("        └── cli/ (binary)").line("").text(
                join3("💡 Build all: cd ", project, " && cargo build"),
            )
        },
    }
}

/// Whether the action at `index` of the script of a kind starts a package.
pub open spec fn starts_package(kind: TemplateKind, index: int) -> bool {
    match kind {
        TemplateKind::Workspace => index == 3 || index == 4,
        _ => index == 1,
    }
}

/// The report of a project that could not be made because the action at
/// `index` failed with `error`. Where the package of a basic project could
/// not be started, the report says so in both forms. In every other case
/// the error is handed up: with the kind of project named, where a command
/// of a library, a command-line application or a networked service could
/// not be started; as it is otherwise.
pub open spec fn creation_failed(kind: TemplateKind, index: int, error: Seq<char>) -> RenderedView {
    if starts_package(kind, index) {
        match kind {
            TemplateKind::Basic => RenderedView::new(
                DocView::record().with("status"@, DocView::Text("error"@)).with(
                    "error"@,
                    DocView::Text(error),
                ),
            ).line("❌ Failed to create project: "@ + error).fail(
                "Failed to create project: "@ + error,
            ),
            TemplateKind::Library => hard_error("Failed to create library project: "@ + error),
            TemplateKind::Cli => hard_error("Failed to create CLI project: "@ + error),
            TemplateKind::WebApi => hard_error("Failed to create web API project: "@ + error),
            TemplateKind::Workspace => hard_error(error),
        }
    } else {
        hard_error(error)
    }
}

/// Reports a project that could not be made.
pub fn report_failed(kind: TemplateKind, index: usize, error: &str) -> (r: Rendered)
    ensures
        r@ == creation_failed(kind, index as int, error@),
{
    let command = match kind {
        TemplateKind::Workspace => index == 3 || index == 4,
        _ => index == 1,
    };
    if !command {
        return error_only(error);
    }
    match kind {
        TemplateKind::Basic => {
            let message = join2("Failed to create project: ", error);
            Rendered::new(
                Doc::record().with("status", Doc::text("error")).with("error", Doc::text(error)),
            ).text(join2("❌ Failed to create project: ", error)).fail(message.as_str())
        },
        TemplateKind::Library => error_only(
            join2("Failed to create library project: ", error).as_str(),
        ),
        TemplateKind::Cli => error_only(join2("Failed to create CLI project: ", error).as_str()),
        TemplateKind::WebApi => error_only(
            join2("Failed to create web API project: ", error).as_str(),
        ),
        TemplateKind::Workspace => error_only(error),
    }
}

/// The actions that `starts_package` names are the commands of the script,
/// and no other action is a command.
pub proof fn law_commands_of_script(kind: TemplateKind, project: Seq<char>, index: int)
    requires
        0 <= index < script_of(kind, project).len(),
    ensures
        script_of(kind, project)[index] is Run <==> starts_package(kind, index),
{
}

} // verus!
