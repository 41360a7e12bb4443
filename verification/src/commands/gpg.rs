//! Signing and verifying commits, tags and files, and the check of the
//! signing setup.

use crate::GpgAction;
use crate::document::{Doc, DocView};
use crate::lines::{first_line, first_line_or};
use crate::process::{exec_error_text, Command, CommandView, Outcome, Step, StepView};
use crate::report::{
    action_failed, failed_action, glyph_text, opt_view, push_line, push_text, trim_str, Rendered,
    RenderedView, Status,
};
use crate::text::{join2, join3, lemma_views_push, lines, str_eq, trim, views};
use vstd::prelude::*;

verus! {

/// What the target of a signing or verifying request names.
#[derive(Debug, PartialEq)]
pub enum Target {
    /// The last commit, or the recent commits.
    Commit,
    /// The latest tag, or all tags.
    Tag,
    /// The file at this path.
    File(String),
}

/// A target as a value of specifications.
pub enum TargetView {
    Commit,
    Tag,
    File(Seq<char>),
}

impl View for Target {
    type V = TargetView;

    open spec fn view(&self) -> TargetView {
        match self {
            Target::Commit => TargetView::Commit,
            Target::Tag => TargetView::Tag,
            Target::File(path) => TargetView::File(path@),
        }
    }
}

/// `commit` names the commits, `tag` the tags, anything else a file.
pub open spec fn target_of(target: Seq<char>) -> TargetView {
    if target == "commit"@ {
        TargetView::Commit
    } else if target == "tag"@ {
        TargetView::Tag
    } else {
        TargetView::File(target)
    }
}

/// Reads a target.
pub fn classify(target: &str) -> (r: Target)
    ensures
        r@ == target_of(target@),
{
    if str_eq(target, "commit") {
        Target::Commit
    } else if str_eq(target, "tag") {
        Target::Tag
    } else {
        Target::File(target.to_owned())
    }
}

/// What a request finds before it runs anything.
#[derive(Debug, PartialEq)]
pub struct Facts {
    /// Whether the current directory holds repository metadata.
    pub in_repository: bool,
    /// Whether the target, taken as a path, exists.
    pub target_exists: bool,
    /// Whether the file that would hold the target's signature exists.
    pub signature_exists: bool,
}

/// The path of the detached signature of a file.
pub open spec fn signature_path(file: Seq<char>) -> Seq<char> {
    file + ".sig"@
}

/// The result of a request made outside a repository.
pub open spec fn not_a_repository(action: Seq<char>) -> RenderedView {
    RenderedView::new(
        DocView::record().with("error"@, DocView::Text("Not in a git repository"@)).with(
            "action"@,
            DocView::Text(action),
        ),
    ).line("❌ Not in a git repository"@).fail("Not in a git repository"@)
}

fn outside_repository(action: &str) -> (r: Rendered)
    ensures
        r@ == not_a_repository(action@),
{
    Rendered::new(
        Doc::record().with("error", Doc::text("Not in a git repository")).with(
            "action",
            Doc::text(action),
        ),
    ).line("❌ Not in a git repository").fail("Not in a git repository")
}

// ---------------------------------------------------------------- sign commit

/// The command that asks for the configured signing key.
pub open spec fn signing_key_command() -> CommandView {
    CommandView::new("git"@).arg("config"@).arg("user.signingkey"@)
}

/// The command that signs the last commit again.
pub open spec fn amend_command() -> CommandView {
    CommandView::new("git"@).arg("commit"@).arg("--amend"@).arg("--no-edit"@).arg("-S"@)
}

/// The result where no signing key can be asked for.
pub open spec fn signing_not_configured() -> RenderedView {
    RenderedView::new(
        DocView::record().with("error"@, DocView::Text("GPG signing not configured"@)).with(
            "action"@,
            DocView::Text("sign_commit"@),
        ).with("suggestion"@, DocView::Text("Run 'oxy gpg setup' to configure GPG signing"@)),
    ).line("❌ GPG signing not configured for git"@).line(
        "💡 Run 'oxy gpg setup' to configure GPG signing"@,
    ).fail("GPG signing not configured"@)
}

/// The result for a commit that was signed with `key`.
pub open spec fn commit_signed(key: Seq<char>) -> RenderedView {
    RenderedView::new(
        DocView::record().with("action"@, DocView::Text("sign_commit"@)).with(
            "status"@,
            DocView::Text("success"@),
        ).with("signing_key"@, DocView::Text(key)),
    ).line("✅ Successfully signed the last commit"@).line("🔑 Using key: "@ + key)
}

/// Signing the last commit. Outside a repository nothing is run. Otherwise
/// the signing key is asked for, and where that command can be started the
/// commit is signed again.
pub open spec fn sign_commit_step(in_repository: bool, outcomes: Seq<Outcome>) -> StepView<
    RenderedView,
> {
    if !in_repository {
        StepView::Done(not_a_repository("sign_commit"@))
    } else if outcomes.len() == 0 {
        StepView::Run(signing_key_command())
    } else {
        match outcomes[0] {
            Outcome::Failed(_) => StepView::Done(signing_not_configured()),
            Outcome::Ran(key) => if outcomes.len() == 1 {
                StepView::Run(amend_command())
            } else {
                match outcomes[1] {
                    Outcome::Ran(_) => StepView::Done(commit_signed(trim(key.stdout@))),
                    Outcome::Failed(e) => StepView::Done(
                        action_failed(
                            "sign_commit"@,
                            None,
                            exec_error_text(e.command_line@),
                            "❌ Failed to sign commit"@,
                            "Failed to sign commit: "@,
                        ),
                    ),
                }
            },
        }
    }
}

/// The next step of signing the last commit.
pub fn sign_commit(in_repository: bool, outcomes: &Vec<Outcome>) -> (r: Step<Rendered>)
    ensures
        r@ == sign_commit_step(in_repository, outcomes@),
{
    if !in_repository {
        return Step::Done(outside_repository("sign_commit"));
    }
    if outcomes.len() == 0 {
        return Step::Run(Command::new("git").arg("config").arg("user.signingkey"));
    }
    match &outcomes[0] {
        Outcome::Failed(_) => Step::Done(
            Rendered::new(
                Doc::record().with("error", Doc::text("GPG signing not configured")).with(
                    "action",
                    Doc::text("sign_commit"),
                ).with("suggestion", Doc::text("Run 'oxy gpg setup' to configure GPG signing")),
            ).line("❌ GPG signing not configured for git").line(
                "💡 Run 'oxy gpg setup' to configure GPG signing",
            ).fail("GPG signing not configured"),
        ),
        Outcome::Ran(key) => {
            if outcomes.len() == 1 {
                return Step::Run(
                    Command::new("git").arg("commit").arg("--amend").arg("--no-edit").arg("-S"),
                );
            }
            match &outcomes[1] {
                Outcome::Ran(_) => {
                    let key = trim_str(key.stdout.as_str());
                    Step::Done(
                        Rendered::new(
                            Doc::record().with("action", Doc::text("sign_commit")).with(
                                "status",
                                Doc::text("success"),
                            ).with("signing_key", Doc::text(key.as_str())),
                        ).line("✅ Successfully signed the last commit").text(
                            join2("🔑 Using key: ", key.as_str()),
                        ),
                    )
                },
                Outcome::Failed(e) => {
                    let error = e.message();
                    Step::Done(
                        failed_action(
                            "sign_commit",
                            None,
                            error.as_str(),
                            "❌ Failed to sign commit",
                            "Failed to sign commit: ",
                        ),
                    )
                },
            }
        },
    }
}

// ------------------------------------------------------------------ sign tag

/// The command that names the latest tag.
pub open spec fn latest_tag_command() -> CommandView {
    CommandView::new("git"@).arg("describe"@).arg("--tags"@).arg("--abbrev=0"@)
}

/// The command that signs `tag` in place.
pub open spec fn sign_tag_command(tag: Seq<char>) -> CommandView {
    CommandView::new("git"@).arg("tag"@).arg("-s"@).arg(tag).arg("-f"@).arg("-m"@).arg(
        "Signed tag "@ + tag,
    )
}

/// The result where the latest tag cannot be asked for.
pub open spec fn no_tags() -> RenderedView {
    RenderedView::new(
        DocView::record().with("error"@, DocView::Text("No tags found"@)).with(
            "action"@,
            DocView::Text("sign_tag"@),
        ),
    ).line("❌ No tags found in repository"@).fail("No tags found"@)
}

/// The result for a tag that was signed.
pub open spec fn tag_signed(tag: Seq<char>) -> RenderedView {
    RenderedView::new(
        DocView::record().with("action"@, DocView::Text("sign_tag"@)).with(
            "status"@,
            DocView::Text("success"@),
        ).with("tag"@, DocView::Text(tag)),
    ).line("✅ Successfully signed tag: "@ + tag)
}

/// Signing the latest tag. Outside a repository nothing is run. Otherwise
/// the latest tag is asked for, and where that command can be started the
/// tag it printed is signed.
pub open spec fn sign_tag_step(in_repository: bool, outcomes: Seq<Outcome>) -> StepView<
    RenderedView,
> {
    if !in_repository {
        StepView::Done(not_a_repository("sign_tag"@))
    } else if outcomes.len() == 0 {
        StepView::Run(latest_tag_command())
    } else {
        match outcomes[0] {
            Outcome::Failed(_) => StepView::Done(no_tags()),
            Outcome::Ran(found) => {
                let tag = trim(found.stdout@);
                if outcomes.len() == 1 {
                    StepView::Run(sign_tag_command(tag))
                } else {
                    match outcomes[1] {
                        Outcome::Ran(_) => StepView::Done(tag_signed(tag)),
                        Outcome::Failed(e) => StepView::Done(
                            action_failed(
                                "sign_tag"@,
                                Some(("tag"@, tag)),
                                exec_error_text(e.command_line@),
                                "❌ Failed to sign tag: "@ + tag,
                                "Failed to sign tag: "@,
                            ),
                        ),
                    }
                }
            },
        }
    }
}

/// The next step of signing the latest tag.
pub fn sign_latest_tag(in_repository: bool, outcomes: &Vec<Outcome>) -> (r: Step<Rendered>)
    ensures
        r@ == sign_tag_step(in_repository, outcomes@),
{
    if !in_repository {
        return Step::Done(outside_repository("sign_tag"));
    }
    if outcomes.len() == 0 {
        return Step::Run(Command::new("git").arg("describe").arg("--tags").arg("--abbrev=0"));
    }
    match &outcomes[0] {
        Outcome::Failed(_) => Step::Done(
            Rendered::new(
                Doc::record().with("error", Doc::text("No tags found")).with(
                    "action",
                    Doc::text("sign_tag"),
                ),
            ).line("❌ No tags found in repository").fail("No tags found"),
        ),
        Outcome::Ran(found) => {
            let tag = trim_str(found.stdout.as_str());
            if outcomes.len() == 1 {
                let note = join2("Signed tag ", tag.as_str());
                return Step::Run(
                    Command::new("git").arg("tag").arg("-s").arg(tag.as_str()).arg("-f").arg(
                        "-m",
                    ).arg(note.as_str()),
                );
            }
            match &outcomes[1] {
                Outcome::Ran(_) => Step::Done(
                    Rendered::new(
                        Doc::record().with("action", Doc::text("sign_tag")).with(
                            "status",
                            Doc::text("success"),
                        ).with("tag", Doc::text(tag.as_str())),
                    ).text(join2("✅ Successfully signed tag: ", tag.as_str())),
                ),
                Outcome::Failed(e) => {
                    let error = e.message();
                    let headline = join2("❌ Failed to sign tag: ", tag.as_str());
                    Step::Done(
                        failed_action(
                            "sign_tag",
                            Some(("tag", tag.as_str())),
                            error.as_str(),
                            headline.as_str(),
                            "Failed to sign tag: ",
                        ),
                    )
                },
            }
        },
    }
}

// ----------------------------------------------------------------- sign file

/// The command that writes the detached signature of `file`.
pub open spec fn sign_file_command(file: Seq<char>) -> CommandView {
    CommandView::new("gpg"@).arg("--detach-sign"@).arg("--armor"@).arg("--output"@).arg(
        signature_path(file),
    ).arg(file)
}

/// The result for a file that does not exist.
pub open spec fn file_not_found(file: Seq<char>, action: Seq<char>) -> RenderedView {
    RenderedView::new(
        DocView::record().with("error"@, DocView::Text("File not found"@)).with(
            "file"@,
            DocView::Text(file),
        ).with("action"@, DocView::Text(action)),
    ).line("❌ File not found: "@ + file).fail("File not found"@)
}

fn missing_file(file: &str, action: &str) -> (r: Rendered)
    ensures
        r@ == file_not_found(file@, action@),
{
    Rendered::new(
        Doc::record().with("error", Doc::text("File not found")).with("file", Doc::text(file)).with(
            "action",
            Doc::text(action),
        ),
    ).text(join2("❌ File not found: ", file)).fail("File not found")
}

/// The result for a file that was signed.
pub open spec fn file_signed(file: Seq<char>) -> RenderedView {
    RenderedView::new(
        DocView::record().with("action"@, DocView::Text("sign_file"@)).with(
            "status"@,
            DocView::Text("success"@),
        ).with("file"@, DocView::Text(file)).with(
            "signature"@,
            DocView::Text(signature_path(file)),
        ),
    ).line("✅ Successfully signed file: "@ + file).line(
        "📝 Signature saved to: "@ + signature_path(file),
    )
}

/// Signing a file. Where the file does not exist nothing is run.
pub open spec fn sign_file_step(file: Seq<char>, exists: bool, outcomes: Seq<Outcome>) -> StepView<
    RenderedView,
> {
    if !exists {
        StepView::Done(file_not_found(file, "sign_file"@))
    } else if outcomes.len() == 0 {
        StepView::Run(sign_file_command(file))
    } else {
        match outcomes[0] {
            Outcome::Ran(_) => StepView::Done(file_signed(file)),
            Outcome::Failed(e) => StepView::Done(
                action_failed(
                    "sign_file"@,
                    Some(("file"@, file)),
                    exec_error_text(e.command_line@),
                    "❌ Failed to sign file: "@ + file,
                    "Failed to sign file: "@,
                ),
            ),
        }
    }
}

/// The next step of signing a file.
pub fn sign_file(file: &str, exists: bool, outcomes: &Vec<Outcome>) -> (r: Step<Rendered>)
    ensures
        r@ == sign_file_step(file@, exists, outcomes@),
{
    if !exists {
        return Step::Done(missing_file(file, "sign_file"));
    }
    let signature = join2(file, ".sig");
    if outcomes.len() == 0 {
        return Step::Run(
            Command::new("gpg").arg("--detach-sign").arg("--armor").arg("--output").arg(
                signature.as_str(),
            ).arg(file),
        );
    }
    match &outcomes[0] {
        Outcome::Ran(_) => Step::Done(
            Rendered::new(
                Doc::record().with("action", Doc::text("sign_file")).with(
                    "status",
                    Doc::text("success"),
                ).with("file", Doc::text(file)).with("signature", Doc::text(signature.as_str())),
            ).text(join2("✅ Successfully signed file: ", file)).text(
                join2("📝 Signature saved to: ", signature.as_str()),
            ),
        ),
        Outcome::Failed(e) => {
            let error = e.message();
            let headline = join2("❌ Failed to sign file: ", file);
            Step::Done(
                failed_action(
                    "sign_file",
                    Some(("file", file)),
                    error.as_str(),
                    headline.as_str(),
                    "Failed to sign file: ",
                ),
            )
        },
    }
}

// ------------------------------------------------------------ verify commits

/// The command that shows the signatures of the five latest commits.
pub open spec fn verify_commits_command() -> CommandView {
    CommandView::new("git"@).arg("log"@).arg("--show-signature"@).arg("-n"@).arg("5"@).arg(
        "--oneline"@,
    )
}

/// The result for a log that was shown.
pub open spec fn commits_shown(log: Seq<char>) -> RenderedView {
    RenderedView::new(
        DocView::record().with("action"@, DocView::Text("verify_commits"@)).with(
            "status"@,
            DocView::Text("success"@),
        ).with("output"@, DocView::Text(trim(log))),
    ).line("🔍 Recent Commit Signatures"@).line("==========================="@).line(log)
}

/// Verifying the recent commits. Outside a repository nothing is run.
pub open spec fn verify_commits_step(in_repository: bool, outcomes: Seq<Outcome>) -> StepView<
    RenderedView,
> {
    if !in_repository {
        StepView::Done(not_a_repository("verify_commits"@))
    } else if outcomes.len() == 0 {
        StepView::Run(verify_commits_command())
    } else {
        match outcomes[0] {
            Outcome::Ran(shown) => StepView::Done(commits_shown(shown.stdout@)),
            Outcome::Failed(e) => StepView::Done(
                action_failed(
                    "verify_commits"@,
                    None,
                    exec_error_text(e.command_line@),
                    "❌ Failed to verify commit signatures"@,
                    "Failed to verify commits: "@,
                ),
            ),
        }
    }
}

/// The next step of verifying the recent commits.
pub fn verify_commit_signatures(in_repository: bool, outcomes: &Vec<Outcome>) -> (r: Step<
    Rendered,
>)
    ensures
        r@ == verify_commits_step(in_repository, outcomes@),
{
    if !in_repository {
        return Step::Done(outside_repository("verify_commits"));
    }
    if outcomes.len() == 0 {
        return Step::Run(
            Command::new("git").arg("log").arg("--show-signature").arg("-n").arg("5").arg(
                "--oneline",
            ),
        );
    }
    match &outcomes[0] {
        Outcome::Ran(shown) => {
            let output = trim_str(shown.stdout.as_str());
            Step::Done(
                Rendered::new(
                    Doc::record().with("action", Doc::text("verify_commits")).with(
                        "status",
                        Doc::text("success"),
                    ).with("output", Doc::text(output.as_str())),
                ).line("🔍 Recent Commit Signatures").line("===========================").line(
                    shown.stdout.as_str(),
                ),
            )
        },
        Outcome::Failed(e) => {
            let error = e.message();
            Step::Done(
                failed_action(
                    "verify_commits",
                    None,
                    error.as_str(),
                    "❌ Failed to verify commit signatures",
                    "Failed to verify commits: ",
                ),
            )
        },
    }
}

// --------------------------------------------------------------- verify tags

/// The command that verifies the tags.
pub open spec fn verify_tags_command() -> CommandView {
    CommandView::new("git"@).arg("tag"@).arg("-v"@)
}

/// The result for tags that were verified. Output that is blank is
/// reported to the reader as no signed tags.
pub open spec fn tags_shown(output: Seq<char>) -> RenderedView {
    RenderedView::new(
        DocView::record().with("action"@, DocView::Text("verify_tags"@)).with(
            "status"@,
            DocView::Text("success"@),
        ).with("output"@, DocView::Text(trim(output))),
    ).line("🏷\u{fe0f}  Tag Signature Verification"@).line("============================="@).line(
        if trim(output).len() == 0 {
            "No signed tags found"@
        } else {
            output
        },
    )
}

/// Verifying the tags. Outside a repository nothing is run.
pub open spec fn verify_tags_step(in_repository: bool, outcomes: Seq<Outcome>) -> StepView<
    RenderedView,
> {
    if !in_repository {
        StepView::Done(not_a_repository("verify_tags"@))
    } else if outcomes.len() == 0 {
        StepView::Run(verify_tags_command())
    } else {
        match outcomes[0] {
            Outcome::Ran(shown) => StepView::Done(tags_shown(shown.stdout@)),
            Outcome::Failed(e) => StepView::Done(
                action_failed(
                    "verify_tags"@,
                    None,
                    exec_error_text(e.command_line@),
                    "❌ Failed to verify tag signatures"@,
                    "Failed to verify tags: "@,
                ),
            ),
        }
    }
}

/// The next step of verifying the tags.
pub fn verify_tag_signatures(in_repository: bool, outcomes: &Vec<Outcome>) -> (r: Step<Rendered>)
    ensures
        r@ == verify_tags_step(in_repository, outcomes@),
{
    if !in_repository {
        return Step::Done(outside_repository("verify_tags"));
    }
    if outcomes.len() == 0 {
        return Step::Run(Command::new("git").arg("tag").arg("-v"));
    }
    match &outcomes[0] {
        Outcome::Ran(shown) => {
            let output = trim_str(shown.stdout.as_str());
            let body = if output.as_str().unicode_len() == 0 {
                "No signed tags found"
            } else {
                shown.stdout.as_str()
            };
            Step::Done(
                Rendered::new(
                    Doc::record().with("action", Doc::text("verify_tags")).with(
                        "status",
                        Doc::text("success"),
                    ).with("output", Doc::text(output.as_str())),
                ).line("🏷\u{fe0f}  Tag Signature Verification").line(
                    "=============================",
                ).line(body),
            )
        },
        Outcome::Failed(e) => {
            let error = e.message();
            Step::Done(
                failed_action(
                    "verify_tags",
                    None,
                    error.as_str(),
                    "❌ Failed to verify tag signatures",
                    "Failed to verify tags: ",
                ),
            )
        },
    }
}

// --------------------------------------------------------------- verify file

/// The command that verifies the detached signature of `file`.
pub open spec fn verify_file_command(file: Seq<char>) -> CommandView {
    CommandView::new("gpg"@).arg("--verify"@).arg(signature_path(file)).arg(file)
}

/// The result for a file whose signature file does not exist.
pub open spec fn signature_not_found(file: Seq<char>) -> RenderedView {
    RenderedView::new(
        DocView::record().with("error"@, DocView::Text("Signature file not found"@)).with(
            "file"@,
            DocView::Text(file),
        ).with("expected_signature"@, DocView::Text(signature_path(file))).with(
            "action"@,
            DocView::Text("verify_file"@),
        ),
    ).line("❌ Signature file not found: "@ + signature_path(file)).fail(
        "Signature file not found"@,
    )
}

/// The result for a signature that was checked; `details` is what the
/// signing utility wrote to standard error.
pub open spec fn file_verified(file: Seq<char>, details: Seq<char>) -> RenderedView {
    RenderedView::new(
        DocView::record().with("action"@, DocView::Text("verify_file"@)).with(
            "status"@,
            DocView::Text("success"@),
        ).with("file"@, DocView::Text(file)).with(
            "signature"@,
            DocView::Text(signature_path(file)),
        ).with("verification_output"@, DocView::Text(trim(details))),
    ).line("✅ File signature verified: "@ + file).line("🔍 Verification details:"@).line(details)
}

/// Verifying the signature of a file. Where the file or its signature file
/// does not exist nothing is run.
pub open spec fn verify_file_step(
    file: Seq<char>,
    exists: bool,
    signature_exists: bool,
    outcomes: Seq<Outcome>,
) -> StepView<RenderedView> {
    if !exists {
        StepView::Done(file_not_found(file, "verify_file"@))
    } else if !signature_exists {
        StepView::Done(signature_not_found(file))
    } else if outcomes.len() == 0 {
        StepView::Run(verify_file_command(file))
    } else {
        match outcomes[0] {
            Outcome::Ran(checked) => StepView::Done(file_verified(file, checked.stderr@)),
            Outcome::Failed(e) => StepView::Done(
                action_failed(
                    "verify_file"@,
                    Some(("file"@, file)),
                    exec_error_text(e.command_line@),
                    "❌ Failed to verify file signature: "@ + file,
                    "Failed to verify file: "@,
                ),
            ),
        }
    }
}

/// The next step of verifying the signature of a file.
pub fn verify_file_signature(
    file: &str,
    exists: bool,
    signature_exists: bool,
    outcomes: &Vec<Outcome>,
) -> (r: Step<Rendered>)
    ensures
        r@ == verify_file_step(file@, exists, signature_exists, outcomes@),
{
    if !exists {
        return Step::Done(missing_file(file, "verify_file"));
    }
    let signature = join2(file, ".sig");
    if !signature_exists {
        return Step::Done(
            Rendered::new(
                Doc::record().with("error", Doc::text("Signature file not found")).with(
                    "file",
                    Doc::text(file),
                ).with("expected_signature", Doc::text(signature.as_str())).with(
                    "action",
                    Doc::text("verify_file"),
                ),
            ).text(join2("❌ Signature file not found: ", signature.as_str())).fail(
                "Signature file not found",
            ),
        );
    }
    if outcomes.len() == 0 {
        return Step::Run(Command::new("gpg").arg("--verify").arg(signature.as_str()).arg(file));
    }
    match &outcomes[0] {
        Outcome::Ran(checked) => {
            let details = trim_str(checked.stderr.as_str());
            Step::Done(
                Rendered::new(
                    Doc::record().with("action", Doc::text("verify_file")).with(
                        "status",
                        Doc::text("success"),
                    ).with("file", Doc::text(file)).with(
                        "signature",
                        Doc::text(signature.as_str()),
                    ).with("verification_output", Doc::text(details.as_str())),
                ).text(join2("✅ File signature verified: ", file)).line(
                    "🔍 Verification details:",
                ).line(checked.stderr.as_str()),
            )
        },
        Outcome::Failed(e) => {
            let error = e.message();
            let headline = join2("❌ Failed to verify file signature: ", file);
            Step::Done(
                failed_action(
                    "verify_file",
                    Some(("file", file)),
                    error.as_str(),
                    headline.as_str(),
                    "Failed to verify file: ",
                ),
            )
        },
    }
}

// ------------------------------------------------------------------ dispatch

/// Signing what `target` names.
pub open spec fn sign_step(target: Seq<char>, facts: Facts, outcomes: Seq<Outcome>) -> StepView<
    RenderedView,
> {
    match target_of(target) {
        TargetView::Commit => sign_commit_step(facts.in_repository, outcomes),
        TargetView::Tag => sign_tag_step(facts.in_repository, outcomes),
        TargetView::File(file) => sign_file_step(file, facts.target_exists, outcomes),
    }
}

/// Verifying what `target` names.
pub open spec fn verify_step(target: Seq<char>, facts: Facts, outcomes: Seq<Outcome>) -> StepView<
    RenderedView,
> {
    match target_of(target) {
        TargetView::Commit => verify_commits_step(facts.in_repository, outcomes),
        TargetView::Tag => verify_tags_step(facts.in_repository, outcomes),
        TargetView::File(file) => verify_file_step(
            file,
            facts.target_exists,
            facts.signature_exists,
            outcomes,
        ),
    }
}

/// The next step of signing what `target` names.
pub fn sign_target(target: &str, facts: &Facts, outcomes: &Vec<Outcome>) -> (r: Step<Rendered>)
    ensures
        r@ == sign_step(target@, *facts, outcomes@),
{
    match classify(target) {
        Target::Commit => sign_commit(facts.in_repository, outcomes),
        Target::Tag => sign_latest_tag(facts.in_repository, outcomes),
        Target::File(file) => sign_file(file.as_str(), facts.target_exists, outcomes),
    }
}

/// The next step of verifying what `target` names.
pub fn verify_target(target: &str, facts: &Facts, outcomes: &Vec<Outcome>) -> (r: Step<Rendered>)
    ensures
        r@ == verify_step(target@, *facts, outcomes@),
{
    match classify(target) {
        Target::Commit => verify_commit_signatures(facts.in_repository, outcomes),
        Target::Tag => verify_tag_signatures(facts.in_repository, outcomes),
        Target::File(file) => verify_file_signature(
            file.as_str(),
            facts.target_exists,
            facts.signature_exists,
            outcomes,
        ),
    }
}

/// A request that finds its precondition unmet ends at once, as a failure:
/// it asks for no command, whatever outcomes it is shown.
pub proof fn law_unmet_precondition_runs_nothing(
    target: Seq<char>,
    facts: Facts,
    outcomes: Seq<Outcome>,
)
    requires
        match target_of(target) {
            TargetView::File(_) => !facts.target_exists,
            _ => !facts.in_repository,
        },
    ensures
        sign_step(target, facts, outcomes) matches StepView::Done(r) && r.failure is Some,
        verify_step(target, facts, outcomes) matches StepView::Done(r) && r.failure is Some,
{
}

// --------------------------------------------------------------------- setup

/// One finding of the setup check.
#[derive(Debug, PartialEq)]
pub struct SetupStep {
    pub step: String,
    pub status: Status,
    pub message: String,
    pub suggestion: Option<String>,
    pub detail: Option<Detail>,
}

/// What a finding adds under a name of its own.
#[derive(Debug, PartialEq)]
pub struct Detail {
    pub key: String,
    pub text: String,
}

/// A finding as a value of specifications.
pub struct SetupStepView {
    pub step: Seq<char>,
    pub status: Status,
    pub message: Seq<char>,
    pub suggestion: Option<Seq<char>>,
    pub detail: Option<(Seq<char>, Seq<char>)>,
}

impl View for SetupStep {
    type V = SetupStepView;

    open spec fn view(&self) -> SetupStepView {
        SetupStepView {
            step: self.step@,
            status: self.status,
            message: self.message@,
            suggestion: opt_view(self.suggestion),
            detail: match self.detail {
                Some(d) => Some((d.key@, d.text@)),
                None => None,
            },
        }
    }
}

/// The findings of the setup check, in the order they were made.
#[derive(Debug, PartialEq)]
pub struct SetupReport {
    pub has_errors: bool,
    pub steps: Vec<SetupStep>,
}

/// A setup report as a value of specifications.
pub struct SetupReportView {
    pub has_errors: bool,
    pub steps: Seq<SetupStepView>,
}

impl View for SetupReport {
    type V = SetupReportView;

    open spec fn view(&self) -> SetupReportView {
        SetupReportView { has_errors: self.has_errors, steps: views(self.steps@) }
    }
}

/// The commands of the setup check, in the order they run.
pub open spec fn setup_commands() -> Seq<CommandView> {
    seq![
        CommandView::new("gpg"@).arg("--version"@),
        CommandView::new("gpg"@).arg("--list-secret-keys"@).arg("--keyid-format"@).arg("LONG"@),
        CommandView::new("git"@).arg("config"@).arg("user.signingkey"@),
        CommandView::new("git"@).arg("config"@).arg("commit.gpgsign"@),
    ]
}

/// Whether the signing utility is there: its version is the detail.
pub open spec fn utility_step(outcome: Outcome) -> SetupStepView {
    match outcome {
        Outcome::Ran(r) => SetupStepView {
            step: "check_gpg"@,
            status: Status::Success,
            message: "GPG is installed"@,
            suggestion: None,
            detail: Some(("details"@, first_line_or(r.stdout@, "unknown"@))),
        },
        Outcome::Failed(_) => SetupStepView {
            step: "check_gpg"@,
            status: Status::Error,
            message: "GPG is not installed"@,
            suggestion: Some("Install GPG using your system package manager"@),
            detail: None,
        },
    }
}

/// Whether there are secret keys: a listing that is blank draws a warning.
pub open spec fn keys_step(outcome: Outcome) -> SetupStepView {
    match outcome {
        Outcome::Ran(r) => if trim(r.stdout@).len() == 0 {
            SetupStepView {
                step: "check_keys"@,
                status: Status::Warning,
                message: "No GPG keys found"@,
                suggestion: Some("Generate a new GPG key for signing"@),
                detail: None,
            }
        } else {
            SetupStepView {
                step: "check_keys"@,
                status: Status::Success,
                message: "GPG keys found"@,
                suggestion: None,
                detail: Some(("keys"@, trim(r.stdout@))),
            }
        },
        Outcome::Failed(_) => SetupStepView {
            step: "check_keys"@,
            status: Status::Error,
            message: "Failed to list GPG keys"@,
            suggestion: None,
            detail: None,
        },
    }
}

/// What a configuration query printed, trimmed; nothing where it could not
/// be started.
pub open spec fn setting(outcome: Outcome) -> Seq<char> {
    match outcome {
        Outcome::Ran(r) => trim(r.stdout@),
        Outcome::Failed(_) => Seq::empty(),
    }
}

/// Whether version control knows a signing key.
pub open spec fn key_config_step(outcome: Outcome) -> SetupStepView {
    if setting(outcome).len() > 0 {
        SetupStepView {
            step: "check_git_config"@,
            status: Status::Success,
            message: "Git signing key configured"@,
            suggestion: None,
            detail: Some(("signing_key"@, setting(outcome))),
        }
    } else {
        SetupStepView {
            step: "check_git_config"@,
            status: Status::Warning,
            message: "Git signing key not configured"@,
            suggestion: Some("Configure with: git config --global user.signingkey <key-id>"@),
            detail: None,
        }
    }
}

/// Whether commits are signed without asking.
pub open spec fn commit_signing_step(outcome: Outcome) -> SetupStepView {
    if setting(outcome) == "true"@ {
        SetupStepView {
            step: "check_commit_signing"@,
            status: Status::Success,
            message: "Automatic commit signing enabled"@,
            suggestion: None,
            detail: None,
        }
    } else {
        SetupStepView {
            step: "check_commit_signing"@,
            status: Status::Info,
            message: "Automatic commit signing disabled"@,
            suggestion: Some("Enable with: git config --global commit.gpgsign true"@),
            detail: None,
        }
    }
}

/// The report for the outcomes of the four commands. It has errors where
/// the signing utility could not be started for its version or for its keys.
pub open spec fn setup_report(outcomes: Seq<Outcome>) -> SetupReportView
    recommends
        outcomes.len() >= 4,
{
    SetupReportView {
        has_errors: outcomes[0] is Failed || outcomes[1] is Failed,
        steps: seq![
            utility_step(outcomes[0]),
            keys_step(outcomes[1]),
            key_config_step(outcomes[2]),
            commit_signing_step(outcomes[3]),
        ],
    }
}

/// What the setup check does after the given outcomes: it runs its four
/// commands one after another, whatever came of the earlier ones, and then
/// reports.
pub open spec fn setup_step(outcomes: Seq<Outcome>) -> StepView<SetupReportView> {
    if outcomes.len() < 4 {
        StepView::Run(setup_commands()[outcomes.len() as int])
    } else {
        StepView::Done(setup_report(outcomes))
    }
}

fn setting_of(outcome: &Outcome) -> (r: String)
    ensures
        r@ == setting(*outcome),
{
    match outcome {
        Outcome::Ran(res) => trim_str(res.stdout.as_str()),
        Outcome::Failed(_) => String::new(),
    }
}

fn finding(
    step: &str,
    status: Status,
    message: &str,
    suggestion: Option<&str>,
    detail: Option<(&str, String)>,
) -> (r: SetupStep)
    ensures
        r@ == (SetupStepView {
            step: step@,
            status,
            message: message@,
            suggestion: match suggestion {
                Some(s) => Some(s@),
                None => None,
            },
            detail: match detail {
                Some((k, t)) => Some((k@, t@)),
                None => None,
            },
        }),
{
    SetupStep {
        step: step.to_owned(),
        status,
        message: message.to_owned(),
        suggestion: match suggestion {
            Some(s) => Some(s.to_owned()),
            None => None,
        },
        detail: match detail {
            Some((k, t)) => Some(Detail { key: k.to_owned(), text: t }),
            None => None,
        },
    }
}

/// The next step of the setup check after the given outcomes.
pub fn setup_gpg_for_rust(outcomes: &Vec<Outcome>) -> (r: Step<SetupReport>)
    ensures
        r@ == setup_step(outcomes@),
{
    if outcomes.len() == 0 {
        return Step::Run(Command::new("gpg").arg("--version"));
    } else if outcomes.len() == 1 {
        return Step::Run(
            Command::new("gpg").arg("--list-secret-keys").arg("--keyid-format").arg("LONG"),
        );
    } else if outcomes.len() == 2 {
        return Step::Run(Command::new("git").arg("config").arg("user.signingkey"));
    } else if outcomes.len() == 3 {
        return Step::Run(Command::new("git").arg("config").arg("commit.gpgsign"));
    }
    let mut has_errors = false;
    let mut steps: Vec<SetupStep> = Vec::new();
    let utility = match &outcomes[0] {
        Outcome::Ran(res) => finding(
            "check_gpg",
            Status::Success,
            "GPG is installed",
            None,
            Some(("details", first_line(res.stdout.as_str(), "unknown"))),
        ),
        Outcome::Failed(_) => {
            has_errors = true;
            finding(
                "check_gpg",
                Status::Error,
                "GPG is not installed",
                Some("Install GPG using your system package manager"),
                None,
            )
        },
    };
    steps.push(utility);
    let keys = match &outcomes[1] {
        Outcome::Ran(res) => {
            let listing = trim_str(res.stdout.as_str());
            if listing.as_str().unicode_len() == 0 {
                finding(
                    "check_keys",
                    Status::Warning,
                    "No GPG keys found",
                    Some("Generate a new GPG key for signing"),
                    None,
                )
            } else {
                finding(
                    "check_keys",
                    Status::Success,
                    "GPG keys found",
                    None,
                    Some(("keys", listing)),
                )
            }
        },
        Outcome::Failed(_) => {
            has_errors = true;
            finding("check_keys", Status::Error, "Failed to list GPG keys", None, None)
        },
    };
    steps.push(keys);
    let key = setting_of(&outcomes[2]);
    let key_config = if key.as_str().unicode_len() > 0 {
        finding(
            "check_git_config",
            Status::Success,
            "Git signing key configured",
            None,
            Some(("signing_key", key)),
        )
    } else {
        finding(
            "check_git_config",
            Status::Warning,
            "Git signing key not configured",
            Some("Configure with: git config --global user.signingkey <key-id>"),
            None,
        )
    };
    steps.push(key_config);
    let signing = setting_of(&outcomes[3]);
    let commit_signing = if str_eq(signing.as_str(), "true") {
        finding(
            "check_commit_signing",
            Status::Success,
            "Automatic commit signing enabled",
            None,
            None,
        )
    } else {
        finding(
            "check_commit_signing",
            Status::Info,
            "Automatic commit signing disabled",
            Some("Enable with: git config --global commit.gpgsign true"),
            None,
        )
    };
    steps.push(commit_signing);
    assert(views(steps@) =~= setup_report(outcomes@).steps);
    Step::Done(SetupReport { has_errors, steps })
}

/// The name of a status in the machine-readable setup report.
pub open spec fn step_label(s: Status) -> Seq<char> {
    match s {
        Status::Success => "success"@,
        Status::Warning => "warning"@,
        Status::Error => "error"@,
        Status::Info => "info"@,
        Status::Unknown => "unknown"@,
    }
}

/// The record of one finding: its step, status and message, then the
/// suggestion and the detail where it has them.
pub open spec fn step_document(s: SetupStepView) -> DocView {
    let base = DocView::record().with("step"@, DocView::Text(s.step)).with(
        "status"@,
        DocView::Text(step_label(s.status)),
    ).with("message"@, DocView::Text(s.message));
    let suggested = match s.suggestion {
        Some(t) => base.with("suggestion"@, DocView::Text(t)),
        None => base,
    };
    match s.detail {
        Some((key, text)) => suggested.with(key, DocView::Text(text)),
        None => suggested,
    }
}

/// The document of the setup report.
pub open spec fn setup_document(r: SetupReportView) -> DocView {
    DocView::record().with("action"@, DocView::Text("setup_gpg"@)).with(
        "status"@,
        DocView::Text(
            if r.has_errors {
                "error"@
            } else {
                "success"@
            },
        ),
    ).with("setup_steps"@, DocView::List(r.steps.map_values(|s: SetupStepView| step_document(s))))
}

/// The lines of one finding: glyph and message, then the suggestion, then
/// the detail where it is the one that readers are shown.
pub open spec fn step_lines(s: SetupStepView) -> Seq<Seq<char>> {
    seq![glyph_text(s.status) + " "@ + s.message] + (match s.suggestion {
        Some(t) => seq!["  💡 "@ + t],
        None => Seq::empty(),
    }) + (match s.detail {
        Some((key, text)) => if key == "details"@ {
            seq!["  📋 "@ + text]
        } else {
            Seq::empty()
        },
        None => Seq::empty(),
    })
}

/// The lines of all findings, in order.
pub open spec fn all_step_lines(steps: Seq<SetupStepView>) -> Seq<Seq<char>>
    decreases steps.len(),
{
    if steps.len() == 0 {
        Seq::empty()
    } else {
        all_step_lines(steps.drop_last()) + step_lines(steps.last())
    }
}

/// What closes a report without errors.
pub open spec fn setup_closing() -> Seq<Seq<char>> {
    seq![
        ""@,
        "🎉 GPG setup looks good!"@,
        ""@,
        "💡 Quick commands:"@,
        "   • Sign last commit: oxy gpg sign commit"@,
        "   • Create signed tag: git tag -s v1.0.0 -m 'Version 1.0.0'"@,
        "   • Verify signatures: oxy gpg verify commit"@,
    ]
}

/// The setup report for a reader.
pub open spec fn setup_lines(r: SetupReportView) -> Seq<Seq<char>> {
    seq!["🔑 GPG Setup for Rust Development"@, "================================="@]
        + all_step_lines(r.steps) + if r.has_errors {
        Seq::<Seq<char>>::empty()
    } else {
        setup_closing()
    }
}

/// The setup report in both forms. It is no failure, whatever it found.
pub open spec fn setup_rendered(r: SetupReportView) -> RenderedView {
    RenderedView::new(setup_document(r)).more(setup_lines(r))
}

impl SetupStep {
    /// The status as the machine-readable report names it.
    pub fn status_label(&self) -> (r: &'static str)
        ensures
            r@ == step_label(self.status),
    {
        match self.status {
            Status::Success => "success",
            Status::Warning => "warning",
            Status::Error => "error",
            Status::Info => "info",
            Status::Unknown => "unknown",
        }
    }

    /// The record of this finding.
    pub fn document(&self) -> (r: Doc)
        ensures
            r@ == step_document(self@),
    {
        let base = Doc::record().with("step", Doc::text(self.step.as_str())).with(
            "status",
            Doc::text(self.status_label()),
        ).with("message", Doc::text(self.message.as_str()));
        let suggested = match &self.suggestion {
            Some(t) => base.with("suggestion", Doc::text(t.as_str())),
            None => base,
        };
        match &self.detail {
            Some(d) => suggested.with(d.key.as_str(), Doc::text(d.text.as_str())),
            None => suggested,
        }
    }

    /// The lines of this finding.
    pub fn lines(&self) -> (r: Vec<String>)
        ensures
            views(r@) == step_lines(self@),
    {
        let mut out: Vec<String> = Vec::new();
        push_text(&mut out, join3(self.status.glyph(), " ", self.message.as_str()));
        match &self.suggestion {
            Some(t) => {
                push_text(&mut out, join2("  💡 ", t.as_str()));
            },
            None => {},
        }
        match &self.detail {
            Some(d) => {
                if str_eq(d.key.as_str(), "details") {
                    push_text(&mut out, join2("  📋 ", d.text.as_str()));
                }
            },
            None => {},
        }
        out
    }
}

impl SetupReport {
    /// The report in both forms.
    pub fn render(&self) -> (r: Rendered)
        ensures
            r@ == setup_rendered(self@),
    {
        let ghost steps = views(self.steps@);
        let mut docs: Vec<Doc> = Vec::new();
        let mut lines: Vec<String> = Vec::new();
        push_line(&mut lines, "🔑 GPG Setup for Rust Development");
        push_line(&mut lines, "=================================");
        let ghost head = seq!["🔑 GPG Setup for Rust Development"@, "================================="@];
        let mut i: usize = 0;
        while i < self.steps.len()
            invariant
                i <= self.steps.len(),
                steps == views(self.steps@),
                views(docs@) == steps.take(i as int).map_values(|s: SetupStepView| step_document(s)),
                views(lines@) == head + all_step_lines(steps.take(i as int)),
            decreases self.steps.len() - i,
        {
            let doc = self.steps[i].document();
            let mut more = self.steps[i].lines();
            proof {
                let next = steps.take(i + 1);
                assert(next.drop_last() =~= steps.take(i as int));
                lemma_views_push(docs@, doc);
                assert(head + all_step_lines(steps.take(i as int)) + step_lines(next.last())
                    =~= head + all_step_lines(next));
            }
            docs.push(doc);
            lines.append(&mut more);
            i += 1;
        }
        assert(steps.take(self.steps.len() as int) =~= steps);
        if !self.has_errors {
            push_line(&mut lines, "");
            push_line(&mut lines, "🎉 GPG setup looks good!");
            push_line(&mut lines, "");
            push_line(&mut lines, "💡 Quick commands:");
            push_line(&mut lines, "   • Sign last commit: oxy gpg sign commit");
            push_line(&mut lines, "   • Create signed tag: git tag -s v1.0.0 -m 'Version 1.0.0'");
            push_line(&mut lines, "   • Verify signatures: oxy gpg verify commit");
            assert(views(lines@) =~= setup_lines(self@));
        }
        let document = Doc::record().with("action", Doc::text("setup_gpg")).with(
            "status",
            Doc::text(
                if self.has_errors {
                    "error"
                } else {
                    "success"
                },
            ),
        ).with("setup_steps", Doc::list(docs));
        let r = Rendered::new(document).more(lines);
        r
    }
}

/// The setup check has errors exactly where one of its findings is an error.
pub proof fn law_setup_errors(outcomes: Seq<Outcome>)
    requires
        outcomes.len() >= 4,
    ensures
        setup_report(outcomes).has_errors <==> exists|i: int|
            0 <= i < 4 && (#[trigger] setup_report(outcomes).steps[i]).status == Status::Error,
{
}

/// What a signing request does after the given outcomes.
pub open spec fn gpg_step(action: GpgAction, facts: Facts, outcomes: Seq<Outcome>) -> StepView<
    RenderedView,
> {
    match action {
        GpgAction::Sign { target } => sign_step(target@, facts, outcomes),
        GpgAction::Verify { target } => verify_step(target@, facts, outcomes),
        GpgAction::Setup => match setup_step(outcomes) {
            StepView::Run(c) => StepView::Run(c),
            StepView::Done(r) => StepView::Done(setup_rendered(r)),
        },
    }
}

/// The next step of a signing request.
pub fn run(action: &GpgAction, facts: &Facts, outcomes: &Vec<Outcome>) -> (r: Step<Rendered>)
    ensures
        r@ == gpg_step(*action, *facts, outcomes@),
{
    match action {
        GpgAction::Sign { target } => sign_target(target.as_str(), facts, outcomes),
        GpgAction::Verify { target } => verify_target(target.as_str(), facts, outcomes),
        GpgAction::Setup => match setup_gpg_for_rust(outcomes) {
            Step::Run(c) => Step::Run(c),
            Step::Done(report) => Step::Done(report.render()),
        },
    }
}

/// Every command of the setup check runs, each in its place, whatever the
/// earlier ones came to.
pub proof fn law_setup_runs_all(outcomes: Seq<Outcome>)
    requires
        outcomes.len() < 4,
    ensures
        setup_step(outcomes) == StepView::<SetupReportView>::Run(
            setup_commands()[outcomes.len() as int],
        ),
{
}

/// No signing request asks for more than four commands: signing and
/// verifying are done after two at most, the setup check after four.
pub proof fn law_requests_end(action: GpgAction, facts: Facts, outcomes: Seq<Outcome>)
    ensures
        outcomes.len() >= 4 ==> gpg_step(action, facts, outcomes) is Done,
        outcomes.len() >= 2 && !(action is Setup) ==> gpg_step(action, facts, outcomes) is Done,
{
}

} // verus!
