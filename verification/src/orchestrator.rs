//! The build orchestrator, as an explicit state machine. One build runs
//! through a fixed sequence of phases inside a temporary workspace:
//! initialize the template, write the derived build inputs, seed a prior
//! lock file, run the external builder, persist the refreshed lock file,
//! remove the workspace, finish. The machine decides; the surrounding
//! binary performs each requested [`BuildAction`] (the subprocess and file
//! I/O) and answers with the [`BuildEvent`] it observed.
//!
//! Every exit path — success or any fatal error — runs through the cleanup
//! phase, whose one action is removing the workspace; the lemmas at the end
//! state and prove that, the seeding order, and the error mapping.

use vstd::prelude::*;
use vstd::string::StringExecFns;

use crate::text::{trim_spaces, trim_spec};
use crate::{overrides_nix_spec, template_reference_spec, BuilderError, Niksi};

verus! {

/// What the seeding step observed: no prior lock file, a successful copy,
/// or a failed copy.
#[derive(Debug, Clone, Copy, PartialEq, Eq)]
pub enum SeedOutcome {
    /// No file exists at the configured lock-file path; the builder will
    /// resolve a fresh lock file.
    Absent,
    /// The prior lock file was copied into the workspace.
    Copied,
    /// A prior lock file exists but copying it failed.
    Failed,
}

/// Where one build invocation stands. The two final phases carry the
/// build's outcome: the artifact's store path, or the fatal error.
#[derive(Debug)]
pub enum BuildPhase {
    /// Waiting for the external builder to initialize the workspace from
    /// the template reference.
    InitializingTemplate,
    /// Waiting for the derived-input fragment to be written into the
    /// workspace.
    WritingOverrides,
    /// Waiting for the prior lock file, if one exists, to be copied into
    /// the workspace.
    SeedingLockFile,
    /// Waiting for the external builder to build and print the artifact
    /// path.
    RunningBuild,
    /// Waiting for the refreshed lock file to be copied to the output
    /// directory.
    PersistingLockFile { artifact: String },
    /// Waiting for the temporary workspace to be removed; happens on every
    /// exit path, whatever the outcome.
    CleaningUp { outcome: Result<String, BuilderError> },
    /// The build is over; no further action.
    Finished { outcome: Result<String, BuilderError> },
}

/// What the surrounding binary observed while performing the pending
/// action.
#[derive(Debug, Clone)]
pub enum BuildEvent {
    /// The template-initialization operation ran: whether the tool could be
    /// spawned, and whether it exited successfully.
    TemplateInitialized { spawned: bool, exit_ok: bool },
    /// The derived-input fragment was written (or writing failed).
    OverridesWritten { ok: bool },
    /// The seeding step concluded.
    LockFileSeeded { outcome: SeedOutcome },
    /// The build operation ran: whether the tool could be spawned, whether
    /// it exited successfully, and its captured standard output (absent
    /// when it was not valid text).
    BuildRun { spawned: bool, exit_ok: bool, stdout: Option<String> },
    /// The refreshed lock file was copied to the output directory (or the
    /// copy failed).
    LockFilePersisted { ok: bool },
    /// The temporary workspace was removed.
    WorkspaceRemoved,
}

/// What the surrounding binary must do next. Paths inside the workspace are
/// given as file names; the binary resolves them against the workspace it
/// owns.
#[derive(Debug, Clone)]
pub enum BuildAction {
    /// Run the external builder's "initialize from template" operation in
    /// the workspace, with this template reference.
    RunTemplateInit { template_ref: String },
    /// Write `content` to the named file in the workspace.
    WriteOverrides { file_name: String, content: String },
    /// If a file exists at `source`, copy it into the workspace under
    /// `target_name`; its absence is not a failure.
    SeedLockFile { source: String, target_name: String },
    /// Run the external builder's "build" operation in the workspace,
    /// capturing standard output and streaming standard error through.
    RunBuild,
    /// Copy the workspace file named `source_name` to `destination`.
    PersistLockFile { source_name: String, destination: String },
    /// Remove the temporary workspace.
    RemoveWorkspace,
}

/// Which event answers which phase's pending action.
pub open spec fn event_fits(phase: BuildPhase, event: BuildEvent) -> bool {
    match phase {
        BuildPhase::InitializingTemplate => event is TemplateInitialized,
        BuildPhase::WritingOverrides => event is OverridesWritten,
        BuildPhase::SeedingLockFile => event is LockFileSeeded,
        BuildPhase::RunningBuild => event is BuildRun,
        BuildPhase::PersistingLockFile { .. } => event is LockFilePersisted,
        BuildPhase::CleaningUp { .. } => event is WorkspaceRemoved,
        BuildPhase::Finished { .. } => false,
    }
}

/// The orchestrator's full transition relation: from the phase `pre`, the
/// observed `event` leads to the phase `post`. Each step either advances
/// the fixed sequence or turns fatal and heads for cleanup with the step's
/// own error; the artifact is the build output trimmed of surrounding
/// whitespace, and empty output is a build failure.
pub open spec fn step_rel(pre: BuildPhase, event: BuildEvent, post: BuildPhase) -> bool {
    match (pre, event) {
        (BuildPhase::InitializingTemplate, BuildEvent::TemplateInitialized { spawned, exit_ok }) => {
            if spawned && exit_ok {
                post is WritingOverrides
            } else {
                post matches BuildPhase::CleaningUp { outcome } && outcome matches Err(e) && e
                    is TemplateInitFailed
            }
        },
        (BuildPhase::WritingOverrides, BuildEvent::OverridesWritten { ok }) => {
            if ok {
                post is SeedingLockFile
            } else {
                post matches BuildPhase::CleaningUp { outcome } && outcome matches Err(e) && e
                    is WriteFailed
            }
        },
        (BuildPhase::SeedingLockFile, BuildEvent::LockFileSeeded { outcome: seeded }) => {
            if seeded is Absent || seeded is Copied {
                post is RunningBuild
            } else {
                post matches BuildPhase::CleaningUp { outcome } && outcome matches Err(e) && e
                    is WriteFailed
            }
        },
        (BuildPhase::RunningBuild, BuildEvent::BuildRun { spawned, exit_ok, stdout }) => {
            if spawned && exit_ok && (stdout matches Some(out) && trim_spec(out@).len() > 0) {
                post matches BuildPhase::PersistingLockFile { artifact } && artifact@ == trim_spec(
                    stdout->Some_0@,
                )
            } else {
                post matches BuildPhase::CleaningUp { outcome } && outcome matches Err(e) && e
                    is BuildFailed
            }
        },
        (BuildPhase::PersistingLockFile { artifact }, BuildEvent::LockFilePersisted { ok }) => {
            if ok {
                post matches BuildPhase::CleaningUp { outcome } && outcome == Ok::<
                    String,
                    BuilderError,
                >(artifact)
            } else {
                post matches BuildPhase::CleaningUp { outcome } && outcome matches Err(e) && e
                    is LockPersistFailed
            }
        },
        (BuildPhase::CleaningUp { outcome }, BuildEvent::WorkspaceRemoved) => {
            post matches BuildPhase::Finished { outcome: fin } && fin == outcome
        },
        _ => false,
    }
}

/// Advances the machine by one observed event. An event that does not
/// answer the phase's pending action is ignored and leaves the phase
/// unchanged.
pub fn step(phase: BuildPhase, event: BuildEvent) -> (r: BuildPhase)
    ensures
        event_fits(phase, event) ==> step_rel(phase, event, r),
        !event_fits(phase, event) ==> r == phase,
{
    match (phase, event) {
        (BuildPhase::InitializingTemplate, BuildEvent::TemplateInitialized { spawned, exit_ok }) => {
            if spawned && exit_ok {
                BuildPhase::WritingOverrides
            } else {
                BuildPhase::CleaningUp { outcome: Err(BuilderError::TemplateInitFailed) }
            }
        },
        (BuildPhase::WritingOverrides, BuildEvent::OverridesWritten { ok }) => {
            if ok {
                BuildPhase::SeedingLockFile
            } else {
                BuildPhase::CleaningUp { outcome: Err(BuilderError::WriteFailed) }
            }
        },
        (BuildPhase::SeedingLockFile, BuildEvent::LockFileSeeded { outcome }) => {
            match outcome {
                SeedOutcome::Absent | SeedOutcome::Copied => BuildPhase::RunningBuild,
                SeedOutcome::Failed => BuildPhase::CleaningUp {
                    outcome: Err(BuilderError::WriteFailed),
                },
            }
        },
        (BuildPhase::RunningBuild, BuildEvent::BuildRun { spawned, exit_ok, stdout }) => {
            if spawned && exit_ok {
                match stdout {
                    Some(out) => {
                        let artifact = trim_spaces(out.as_str());
                        if artifact.as_str().is_empty() {
                            BuildPhase::CleaningUp { outcome: Err(BuilderError::BuildFailed) }
                        } else {
                            BuildPhase::PersistingLockFile { artifact }
                        }
                    },
                    None => BuildPhase::CleaningUp { outcome: Err(BuilderError::BuildFailed) },
                }
            } else {
                BuildPhase::CleaningUp { outcome: Err(BuilderError::BuildFailed) }
            }
        },
        (BuildPhase::PersistingLockFile { artifact }, BuildEvent::LockFilePersisted { ok }) => {
            if ok {
                BuildPhase::CleaningUp { outcome: Ok(artifact) }
            } else {
                BuildPhase::CleaningUp { outcome: Err(BuilderError::LockPersistFailed) }
            }
        },
        (BuildPhase::CleaningUp { outcome }, BuildEvent::WorkspaceRemoved) => {
            BuildPhase::Finished { outcome }
        },
        (other, _) => other,
    }
}

/// The full path of the persisted lock file: the conventional lock-file
/// name inside the output directory.
pub open spec fn lock_destination_spec(output_directory: Seq<char>) -> Seq<char> {
    output_directory + "/niksi.lock"@
}

impl Niksi {
    /// The phase a fresh build starts in, once the surrounding binary has
    /// acquired a temporary workspace.
    pub fn build_start(&self) -> (r: BuildPhase)
        ensures
            r is InitializingTemplate,
    {
        BuildPhase::InitializingTemplate
    }

    /// The action pending in `phase`, with its inputs derived from this
    /// context: the template reference, the derived-input fragment, the
    /// configured lock-file path, and the lock file's destination in the
    /// output directory. `None` exactly when the build is finished.
    pub fn next_action(&self, phase: &BuildPhase) -> (r: Option<BuildAction>)
        ensures
            phase is InitializingTemplate ==> (r matches Some(
                BuildAction::RunTemplateInit { template_ref },
            ) && template_ref@ == template_reference_spec(self.config)),
            phase is WritingOverrides ==> (r matches Some(
                BuildAction::WriteOverrides { file_name, content },
            ) && file_name@ == "overrides.nix"@ && content@ == overrides_nix_spec(self.config)),
            phase is SeedingLockFile ==> (r matches Some(
                BuildAction::SeedLockFile { source, target_name },
            ) && source@ == self.lock_file@ && target_name@ == "flake.lock"@),
            phase is RunningBuild ==> (r matches Some(a) && a is RunBuild),
            phase matches BuildPhase::PersistingLockFile { .. } ==> (r matches Some(
                BuildAction::PersistLockFile { source_name, destination },
            ) && source_name@ == "flake.lock"@ && destination@ == lock_destination_spec(
                self.output_directory@,
            )),
            phase matches BuildPhase::CleaningUp { .. } ==> (r matches Some(a) && a
                is RemoveWorkspace),
            phase matches BuildPhase::Finished { .. } ==> r is None,
    {
        match phase {
            BuildPhase::InitializingTemplate => Some(
                BuildAction::RunTemplateInit { template_ref: self.template_reference() },
            ),
            BuildPhase::WritingOverrides => Some(
                BuildAction::WriteOverrides {
                    file_name: "overrides.nix".to_owned(),
                    content: self.overrides_nix(),
                },
            ),
            BuildPhase::SeedingLockFile => Some(
                BuildAction::SeedLockFile {
                    source: self.lock_file.clone(),
                    target_name: "flake.lock".to_owned(),
                },
            ),
            BuildPhase::RunningBuild => Some(BuildAction::RunBuild),
            BuildPhase::PersistingLockFile { .. } => {
                let mut destination = self.output_directory.clone();
                destination.append("/niksi.lock");
                Some(
                    BuildAction::PersistLockFile {
                        source_name: "flake.lock".to_owned(),
                        destination,
                    },
                )
            },
            BuildPhase::CleaningUp { .. } => Some(BuildAction::RemoveWorkspace),
            BuildPhase::Finished { .. } => None,
        }
    }
}

/// The outcome carried by a finished build; `None` while the build is still
/// under way.
pub fn phase_outcome(phase: BuildPhase) -> (r: Option<Result<String, BuilderError>>)
    ensures
        phase matches BuildPhase::Finished { outcome } ==> r == Some(outcome),
        !(phase is Finished) ==> r is None,
{
    match phase {
        BuildPhase::Finished { outcome } => Some(outcome),
        _ => None,
    }
}

/// The position of a phase in the orchestrator's fixed sequence.
pub open spec fn phase_rank(phase: BuildPhase) -> int {
    match phase {
        BuildPhase::InitializingTemplate => 0,
        BuildPhase::WritingOverrides => 1,
        BuildPhase::SeedingLockFile => 2,
        BuildPhase::RunningBuild => 3,
        BuildPhase::PersistingLockFile { .. } => 4,
        BuildPhase::CleaningUp { .. } => 5,
        BuildPhase::Finished { .. } => 6,
    }
}

/// LAW — no retry. Every transition moves strictly forward in the phase
/// sequence: no step is ever re-entered, failed steps are not retried, and
/// any run of the machine finishes within the sequence's length.
pub proof fn lemma_no_retry(pre: BuildPhase, event: BuildEvent, post: BuildPhase)
    requires
        step_rel(pre, event, post),
    ensures
        phase_rank(post) > phase_rank(pre),
{
}

/// LAW — resource safety. The machine reaches its terminal phase only from
/// the cleanup phase, whose one pending action is removing the temporary
/// workspace, and cleanup preserves the outcome. Since every fatal error
/// and the success path alike transition into cleanup, the workspace is
/// absent by the time the build returns, whatever the outcome.
pub proof fn lemma_cleanup_precedes_finish(pre: BuildPhase, event: BuildEvent, post: BuildPhase)
    requires
        step_rel(pre, event, post),
        post is Finished,
    ensures
        event is WorkspaceRemoved,
        pre matches BuildPhase::CleaningUp { outcome } && post == (BuildPhase::Finished {
            outcome,
        }),
{
}

/// LAW — seeding precedes the build. The build step starts only after the
/// seeding step reported the prior lock file copied into the workspace or
/// absent; never after a failed copy, and never skipping the seeding phase.
pub proof fn lemma_seed_precedes_build(pre: BuildPhase, event: BuildEvent, post: BuildPhase)
    requires
        step_rel(pre, event, post),
        post is RunningBuild,
    ensures
        pre is SeedingLockFile,
        event matches BuildEvent::LockFileSeeded { outcome } && (outcome is Copied || outcome
            is Absent),
{
}

/// LAW — success requires persistence. A successful outcome arises only
/// from the persistence phase on a successful copy, and it carries exactly
/// the artifact captured from the build step: a build whose lock file could
/// not be persisted never reports success.
pub proof fn lemma_success_implies_persisted(pre: BuildPhase, event: BuildEvent, post: BuildPhase)
    requires
        step_rel(pre, event, post),
    ensures
        (post is CleaningUp && post->CleaningUp_outcome is Ok) ==> {
            &&& pre is PersistingLockFile
            &&& pre->PersistingLockFile_artifact == post->CleaningUp_outcome->Ok_0
            &&& event matches BuildEvent::LockFilePersisted { ok } && ok
        },
{
}

/// LAW — error mapping. A fatal outcome names the step that failed:
/// template initialization yields `TemplateInitFailed`, writing the derived
/// inputs or seeding the lock file yields `WriteFailed`, the build step
/// yields `BuildFailed`, and persisting the lock file yields
/// `LockPersistFailed`.
pub proof fn lemma_error_names_failed_step(pre: BuildPhase, event: BuildEvent, post: BuildPhase)
    requires
        step_rel(pre, event, post),
    ensures
        (post is CleaningUp && post->CleaningUp_outcome is Err) ==> match pre {
            BuildPhase::InitializingTemplate => post->CleaningUp_outcome->Err_0
                is TemplateInitFailed,
            BuildPhase::WritingOverrides => post->CleaningUp_outcome->Err_0 is WriteFailed,
            BuildPhase::SeedingLockFile => post->CleaningUp_outcome->Err_0 is WriteFailed,
            BuildPhase::RunningBuild => post->CleaningUp_outcome->Err_0 is BuildFailed,
            BuildPhase::PersistingLockFile { .. } => post->CleaningUp_outcome->Err_0
                is LockPersistFailed,
            _ => false,
        },
{
}

} // verus!
