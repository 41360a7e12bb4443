use oxygen::cli::{Cli, Commands};
use oxygen::commands::info::{self, ProjectFacts};
use oxygen::commands::init::{self, Action, Content, InitPlan, TemplateKind};
use oxygen::config::Config;
use oxygen::document::Doc;
use oxygen::manifest;
use oxygen::process::{Command, CommandResult, ExecError, Outcome, Step};
use oxygen::report::Rendered;
use oxygen::DepsAction;
use serde_json::Value;

fn to_json(doc: &Doc) -> Value {
    match doc {
        Doc::Null => Value::Null,
        Doc::Bool(b) => Value::Bool(*b),
        Doc::Number(n) => Value::from(*n),
        Doc::Text(s) => Value::String(s.clone()),
        Doc::List(items) => Value::Array(items.iter().map(to_json).collect()),
        Doc::Record(fields) => {
            let mut m = serde_json::Map::new();
            for f in fields {
                m.insert(f.key.clone(), to_json(&f.value));
            }
            Value::Object(m)
        }
        Doc::Json(v) => v.clone(),
        Doc::Toml(v) => serde_json::to_value(v).unwrap(),
    }
}

fn json(text: &str) -> Value {
    serde_json::from_str(text).unwrap()
}

fn ran(stdout: &str) -> Outcome {
    Outcome::Ran(CommandResult {
        succeeded: true,
        stdout: stdout.to_string(),
        stderr: String::new(),
        elapsed: None,
    })
}

fn failed(line: &str) -> Outcome {
    Outcome::Failed(ExecError { command_line: line.to_string() })
}

fn done(step: Step<Rendered>) -> Rendered {
    match step {
        Step::Done(r) => r,
        Step::Run(c) => panic!("asked for {:?}", c),
    }
}

const MANIFEST: &str = r#"
[package]
name = "demo"
version = "1.2.3"
edition = "2021"
authors = ["A <a@x.org>", "B"]
description = "A demo"

[dependencies]
serde = "1"
log = { version = "0.4" }

[dev-dependencies]
tempfile = "3"
"#;

// ------------------------------------------------------------------- manifest

#[test]
fn manifest_summary_of_a_full_manifest() {
    let s = manifest::summarize(MANIFEST).unwrap();
    let p = s.package.unwrap();
    assert_eq!(p.name, Some("demo".to_string()));
    assert_eq!(p.version, Some("1.2.3".to_string()));
    assert_eq!(p.edition, Some("2021".to_string()));
    assert_eq!(p.description, Some("A demo".to_string()));
    assert_eq!(serde_json::to_value(p.authors.unwrap()).unwrap(), json(r#"["A <a@x.org>","B"]"#));
    assert_eq!(s.dependencies, Some(2));
    assert_eq!(s.dev_dependencies, Some(1));
    assert_eq!(manifest::read_package_name(MANIFEST), Some("demo".to_string()));
}

#[test]
fn manifest_summary_of_partial_manifests() {
    let s = manifest::summarize("[package]\nname = \"x\"\n").unwrap();
    let p = s.package.unwrap();
    assert_eq!(p.name, Some("x".to_string()));
    assert_eq!(p.version, None);
    assert!(p.authors.is_none());
    assert_eq!(s.dependencies, None);
    assert_eq!(s.dev_dependencies, None);
    let w = manifest::summarize("dependencies = 3\n[workspace]\nmembers = [\"a\"]\n").unwrap();
    assert!(w.package.is_none());
    assert_eq!(w.dependencies, Some(0));
    let odd = manifest::summarize("[package]\nname = 1\nversion = true\n[dependencies]\n").unwrap();
    let p = odd.package.unwrap();
    assert_eq!(p.name, None);
    assert_eq!(p.version, None);
    assert_eq!(odd.dependencies, Some(0));
    assert!(manifest::summarize("this is = not [ toml").is_none());
    assert_eq!(manifest::read_package_name("this is = not [ toml"), None);
    let empty = manifest::summarize("").unwrap();
    assert!(empty.package.is_none());
}

// ----------------------------------------------------------------------- info

fn facts(in_repository: bool) -> ProjectFacts {
    ProjectFacts {
        in_project: true,
        manifest: Some(MANIFEST.to_string()),
        in_repository,
        found_files: vec!["README.md".to_string(), ".gitignore".to_string()],
        has_target_dir: true,
    }
}

#[test]
fn info_names_the_files_to_look_for() {
    assert_eq!(
        info::common_files(),
        vec!["README.md", "LICENSE", "CHANGELOG.md", ".gitignore", "rust-toolchain.toml"]
    );
}

#[test]
fn info_outside_a_project_runs_nothing() {
    let mut f = facts(true);
    f.in_project = false;
    for outcomes in [vec![], vec![ran("main")]] {
        let r = done(info::next(&f, &outcomes));
        assert_eq!(r.lines, vec!["❌ Not in a Rust project (no Cargo.toml found)"]);
        assert_eq!(
            to_json(&r.document),
            json(r#"{"error":"Not in a Rust project directory","is_rust_project":false}"#)
        );
        assert_eq!(r.failure, None);
    }
}

#[test]
fn info_in_a_repository() {
    let f = facts(true);
    let mut outcomes = Vec::new();
    let mut asked = Vec::new();
    let answers = [" main\n", " M src/lib.rs\n?? new.txt\n", "abc123|Fix the thing|Ann|2024-05-01"];
    let r = loop {
        match info::next(&f, &outcomes) {
            Step::Run(c) => {
                asked.push(c.line());
                outcomes.push(ran(answers[outcomes.len()]));
            }
            Step::Done(r) => break r,
        }
    };
    assert_eq!(
        asked,
        vec![
            "git branch --show-current",
            "git status --porcelain",
            "git log -1 --pretty=format:%H|%s|%an|%ad --date=short",
        ]
    );
    assert_eq!(
        to_json(&r.document),
        json(
            r#"{"is_rust_project":true,
            "package":{"name":"demo","version":"1.2.3","edition":"2021","authors":["A <a@x.org>","B"],"description":"A demo"},
            "dependencies_count":2,"dev_dependencies_count":1,
            "git":{"current_branch":"main","dirty_files":2,"is_clean":false,
                   "last_commit":{"hash":"abc123","message":"Fix the thing","author":"Ann","date":"2024-05-01"}},
            "common_files":["README.md",".gitignore"],"has_target_dir":true}"#
        )
    );
    assert_eq!(
        r.lines,
        vec![
            "📦 Project Information",
            "======================",
            "Name: demo",
            "Version: 1.2.3",
            "Edition: 2021",
            "Description: A demo",
            "Dependencies: 2",
            "Dev Dependencies: 1",
            "",
            "📝 Git Status:",
            "  Branch: main",
            "  Status: Modified files present",
            "  Last Commit: Fix the thing by Ann (2024-05-01)",
            "",
            "📄 Project Files:",
            "  ✅ README.md",
            "  ✅ .gitignore",
            "  📁 target/ directory exists",
        ]
    );
    assert_eq!(r.failure, None);
}

#[test]
fn info_outside_a_repository_asks_nothing() {
    let mut f = facts(false);
    f.manifest = None;
    f.found_files = Vec::new();
    f.has_target_dir = false;
    let r = done(info::next(&f, &vec![]));
    assert_eq!(
        to_json(&r.document),
        json(
            r#"{"is_rust_project":true,"git":{"is_git_repo":false},"common_files":[],"has_target_dir":false}"#
        )
    );
    assert_eq!(
        r.lines,
        vec![
            "📦 Project Information",
            "======================",
            "",
            "📝 Git: Not a git repository",
            ""
        ]
    );
}

#[test]
fn info_with_a_repository_that_says_little() {
    let mut f = facts(true);
    f.manifest = Some("[package]\nname = \"x\"\nauthors = \"me\"\n".to_string());
    let r = done(info::next(&f, &vec![failed("git"), ran(""), ran("too|few|parts")]));
    let doc = to_json(&r.document);
    assert_eq!(doc["git"], json(r#"{"dirty_files":0,"is_clean":true}"#));
    assert_eq!(
        doc["package"],
        json(r#"{"name":"x","version":null,"edition":null,"authors":"me","description":null}"#)
    );
    assert_eq!(doc.get("dependencies_count"), None);
    assert_eq!(
        &r.lines[..6],
        &["📦 Project Information", "======================", "Name: x", "", "📝 Git Status:", "  Status: Clean"]
    );
    assert_eq!(r.lines[6], "");
}

// ----------------------------------------------------------------------- init

fn shown(plan: InitPlan) -> Rendered {
    match plan {
        InitPlan::Show(r) => r,
        InitPlan::Create { kind, project } => panic!("would make {:?} {}", kind, project),
    }
}

#[test]
fn init_unknown_template_is_refused_and_nothing_is_made() {
    for template in ["", "Basic", "webapi", "web_api", "bin", "workspaces", "cli "] {
        let r = shown(init::run(&Some("p".to_string()), &Some(template.to_string()), false, false));
        assert_eq!(r.failure, Some("Template not found".to_string()), "for {:?}", template);
        assert_eq!(r.lines[0], format!("❌ Template '{}' not found", template));
        assert_eq!(
            &r.lines[1..],
            &[
                "Available templates:",
                "  - basic",
                "  - binary",
                "  - library",
                "  - cli",
                "  - web-api",
                "  - workspace",
            ]
        );
        let doc = to_json(&r.document);
        assert_eq!(doc["error"], "Template not found");
        assert_eq!(doc["template"], template);
        assert_eq!(
            doc["available_templates"],
            json(r#"["basic","binary","library","cli","web-api","workspace"]"#)
        );
    }
}

#[test]
fn init_known_templates() {
    let cases = [
        ("basic", TemplateKind::Basic),
        ("binary", TemplateKind::Basic),
        ("library", TemplateKind::Library),
        ("cli", TemplateKind::Cli),
        ("web-api", TemplateKind::WebApi),
        ("workspace", TemplateKind::Workspace),
    ];
    for (name, kind) in cases {
        assert_eq!(init::find_template(name), Some(kind));
        assert_eq!(
            init::run(&Some("p".to_string()), &Some(name.to_string()), false, false),
            InitPlan::Create { kind, project: "p".to_string() }
        );
    }
    assert_eq!(init::find_template("nothing"), None);
    assert_eq!(
        init::run(&Some("p".to_string()), &None, false, false),
        InitPlan::Create { kind: TemplateKind::Basic, project: "p".to_string() }
    );
}

#[test]
fn init_refusals_come_in_order() {
    let none = shown(init::run(&None, &Some("nothing".to_string()), false, true));
    assert_eq!(none.failure, Some("Project name is required".to_string()));
    assert_eq!(
        none.lines,
        vec![
            "❌ Project name is required",
            "Usage: oxy init <project_name> [--template <template>]"
        ]
    );
    assert_eq!(
        to_json(&none.document),
        json(
            r#"{"error":"Project name is required","usage":"oxy init <project_name> [--template <template>]"}"#
        )
    );
    let exists = shown(init::run(&Some("p".to_string()), &Some("nothing".to_string()), false, true));
    assert_eq!(exists.failure, Some("Directory already exists".to_string()));
    assert_eq!(exists.lines, vec!["❌ Directory 'p' already exists"]);
    assert_eq!(
        to_json(&exists.document),
        json(r#"{"error":"Directory already exists","project_name":"p"}"#)
    );
    let same = shown(init::initialize_project("p", "cli", true));
    assert_eq!(same.failure, Some("Directory already exists".to_string()));
}

#[test]
fn init_lists_the_templates() {
    let r = shown(init::run(&None, &None, true, true));
    assert_eq!(r.failure, None);
    assert_eq!(
        r.lines,
        vec![
            "📋 Available Project Templates",
            "==============================",
            "🔹 basic - Basic Rust binary project with enhanced Cargo.toml",
            "🔹 binary - Alias for basic template",
            "🔹 library - Rust library with documentation and tests",
            "🔹 cli - Command-line application with clap and tracing",
            "🔹 web-api - Web API server using Axum framework",
            "🔹 workspace - Multi-crate workspace with core library and CLI",
            "",
            "💡 Usage: oxy init <project_name> --template <template_name>",
        ]
    );
    assert_eq!(
        to_json(&r.document),
        json(
            r#"{"templates":{
            "basic":{"description":"Basic Rust binary project with enhanced Cargo.toml","type":"binary"},
            "binary":{"description":"Alias for basic template","type":"binary"},
            "library":{"description":"Rust library with documentation and tests","type":"library"},
            "cli":{"description":"Command-line application with clap and tracing","type":"binary","dependencies":["clap","anyhow","tracing"]},
            "web-api":{"description":"Web API server using Axum framework","type":"binary","dependencies":["axum","tokio","tower","serde"]},
            "workspace":{"description":"Multi-crate workspace with core library and CLI","type":"workspace"}}}"#
        )
    );
    assert_eq!(to_json(&init::get_builtin_templates()), to_json(&r.document)["templates"]);
    assert_eq!(init::list_available_templates(), r);
}

fn run_of(action: &Action) -> Option<String> {
    match action {
        Action::Run(c) => Some(c.line()),
        _ => None,
    }
}

#[test]
fn init_scripts() {
    let basic = init::script(TemplateKind::Basic, "p");
    assert_eq!(basic.len(), 5);
    assert_eq!(basic[0], Action::CreateDir("p".to_string()));
    assert_eq!(run_of(&basic[1]), Some("cargo init p --name p".to_string()));
    assert_eq!(basic[2], Action::Write("p/src/main.rs".to_string(), Content::BasicMain));
    assert_eq!(basic[3], Action::Append("p/Cargo.toml".to_string(), Content::ReleaseProfiles));
    assert_eq!(basic[4], Action::Write("p/README.md".to_string(), Content::Readme));
    assert_eq!(basic, init::create_basic_project("p"));

    let library = init::script(TemplateKind::Library, "p");
    assert_eq!(library.len(), 3);
    assert_eq!(run_of(&library[1]), Some("cargo init p --lib --name p".to_string()));
    assert_eq!(library[2], Action::Write("p/src/lib.rs".to_string(), Content::LibrarySource));
    assert_eq!(library, init::create_library_project("p"));

    let cli = init::script(TemplateKind::Cli, "p");
    assert_eq!(cli[2], Action::Write("p/Cargo.toml".to_string(), Content::CliManifest));
    assert_eq!(cli[3], Action::Write("p/src/main.rs".to_string(), Content::CliMain));
    assert_eq!(cli, init::create_cli_project("p"));

    let web = init::script(TemplateKind::WebApi, "p");
    assert_eq!(web[2], Action::Write("p/Cargo.toml".to_string(), Content::WebManifest));
    assert_eq!(web[3], Action::Write("p/src/main.rs".to_string(), Content::WebMain));
    assert_eq!(web, init::create_web_api_project("p"));

    let ws = init::script(TemplateKind::Workspace, "p");
    assert_eq!(ws.len(), 5);
    assert_eq!(ws[0], Action::CreateDir("p".to_string()));
    assert_eq!(ws[1], Action::CreateDir("p/crates".to_string()));
    assert_eq!(ws[2], Action::Write("p/Cargo.toml".to_string(), Content::WorkspaceManifest));
    assert_eq!(run_of(&ws[3]), Some("cargo init p/crates/core --lib --name p-core".to_string()));
    assert_eq!(run_of(&ws[4]), Some("cargo init p/crates/cli --name p-cli".to_string()));
    assert_eq!(ws, init::create_workspace_project("p"));
}

#[test]
fn init_reports_what_was_made() {
    let basic = init::report_created(TemplateKind::Basic, "p");
    assert_eq!(
        basic.lines,
        vec![
            "✅ Created basic Rust project: p",
            "📁 Project structure:",
            "  p/",
            "    ├── src/main.rs",
            "    ├── Cargo.toml",
            "    └── README.md",
            "",
            "💡 Next steps: cd p && cargo run",
        ]
    );
    assert_eq!(
        to_json(&basic.document),
        json(
            r#"{"status":"success","project_name":"p","template":"basic","files_created":["src/main.rs","Cargo.toml","README.md"]}"#
        )
    );
    let library = init::report_created(TemplateKind::Library, "p");
    assert_eq!(
        library.lines,
        vec![
            "✅ Created library project: p",
            "💡 Next steps:",
            "  cd p && cargo test",
            "  cargo doc --open"
        ]
    );
    assert_eq!(
        to_json(&library.document),
        json(
            r#"{"status":"success","project_name":"p","template":"library","files_created":["src/lib.rs","Cargo.toml"]}"#
        )
    );
    let cli = init::report_created(TemplateKind::Cli, "p");
    assert_eq!(
        cli.lines,
        vec!["✅ Created CLI project: p", "💡 Try: cargo run -- hello --name YourName"]
    );
    assert_eq!(
        to_json(&cli.document),
        json(
            r#"{"status":"success","project_name":"p","template":"cli","dependencies":["clap","anyhow","tracing","tracing-subscriber"]}"#
        )
    );
    let web = init::report_created(TemplateKind::WebApi, "p");
    assert_eq!(
        web.lines,
        vec![
            "✅ Created web API project: p",
            "💡 Start with: cargo run",
            "   API will be available at http://localhost:3000"
        ]
    );
    assert_eq!(
        to_json(&web.document),
        json(
            r#"{"status":"success","project_name":"p","template":"web-api","server_url":"http://localhost:3000"}"#
        )
    );
    let ws = init::report_created(TemplateKind::Workspace, "p");
    assert_eq!(
        ws.lines,
        vec![
            "✅ Created workspace project: p",
            "📁 Workspace structure:",
            "  p/",
            "    ├── Cargo.toml (workspace)",
            "    └── crates/",
            "        ├── core/ (library)",
            "        └── cli/ (binary)",
            "",
            "💡 Build all: cd p && cargo build",
        ]
    );
    assert_eq!(
        to_json(&ws.document),
        json(
            r#"{"status":"success","project_name":"p","template":"workspace","crates":["p-core","p-cli"]}"#
        )
    );
    assert_eq!(ws.failure, None);
}

#[test]
fn init_reports_what_could_not_be_made() {
    let basic = init::report_failed(TemplateKind::Basic, 1, "E");
    assert_eq!(basic.lines, vec!["❌ Failed to create project: E"]);
    assert_eq!(basic.failure, Some("Failed to create project: E".to_string()));
    assert_eq!(to_json(&basic.document), json(r#"{"status":"error","error":"E"}"#));
    let io = init::report_failed(TemplateKind::Basic, 2, "disk full");
    assert!(io.lines.is_empty());
    assert_eq!(io.failure, Some("disk full".to_string()));
    assert_eq!(to_json(&io.document), json(r#"{"error":"disk full"}"#));
    assert_eq!(
        init::report_failed(TemplateKind::Library, 1, "E").failure,
        Some("Failed to create library project: E".to_string())
    );
    assert_eq!(
        init::report_failed(TemplateKind::Cli, 1, "E").failure,
        Some("Failed to create CLI project: E".to_string())
    );
    assert_eq!(
        init::report_failed(TemplateKind::WebApi, 1, "E").failure,
        Some("Failed to create web API project: E".to_string())
    );
    assert_eq!(init::report_failed(TemplateKind::Workspace, 3, "E").failure, Some("E".to_string()));
    assert_eq!(init::report_failed(TemplateKind::Workspace, 1, "E").failure, Some("E".to_string()));
    assert_eq!(init::report_failed(TemplateKind::Cli, 0, "E").failure, Some("E".to_string()));
}

// -------------------------------------------------------------------- process

#[test]
fn commands_are_built_and_shown() {
    let c = Command::new("git").arg("commit").arg("-m").arg("two words");
    assert_eq!(c.program, "git");
    assert_eq!(c.args, vec!["commit", "-m", "two words"]);
    assert!(!c.timed);
    assert_eq!(c.line(), "git commit -m two words");
    assert_eq!(Command::new("ls").line(), "ls ");
    assert!(Command::new("ls").timed().timed);
    let e = ExecError::for_command(&Command::new("nope").arg("x"));
    assert_eq!(e.command_line, "nope x");
    assert_eq!(e.message(), "Failed to execute command: nope x");
}

#[test]
fn commands_are_read_from_lines_of_words() {
    let c = Command::of_line("  cargo   clippy --version ");
    assert_eq!(c.program, "cargo");
    assert_eq!(c.args, vec!["clippy", "--version"]);
    let one = Command::of_line("gdb");
    assert_eq!(one.program, "gdb");
    assert!(one.args.is_empty());
    let none = Command::of_line("   ");
    assert_eq!(none.program, "");
    assert!(none.args.is_empty());
}

// ------------------------------------------------------------- configuration

#[test]
fn configuration_defaults() {
    let c = Config::default();
    assert!(c.tools.custom_tools.is_empty());
    assert!(c.tools.check_paths.is_empty());
    assert!(!c.build.release_by_default);
    assert!(!c.build.show_warnings);
    assert!(c.build.target_dir.is_none());
    assert!(!c.output.json_by_default);
    assert!(!c.output.color);
}

#[test]
fn command_line_values() {
    let cli = Cli { command: Commands::Deps { action: DepsAction::Tree }, json: true, verbose: false };
    assert!(cli.json);
    assert_eq!(cli.command, Commands::Deps { action: DepsAction::Tree });
}
