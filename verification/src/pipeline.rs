//! The deployment pipeline orchestrator: a state machine that drives the
//! stages introspect, build, package, upload and register in strict order,
//! owns the temporary artifact's lifecycle, and surfaces stage-scoped
//! failures.
//!
//! The machine holds no handles to the outside world. Each step consumes
//! one event — the outcome of the side effect the caller last performed —
//! and answers with the next action to perform. The caller (a command-line
//! driver) resolves applications over the network, runs subprocesses,
//! writes the archive, uploads it, registers the deployment, and deletes
//! the temporary artifact when asked to.

use vstd::prelude::*;
use crate::error::StageError;
use crate::utils::{valid_name_chars, validate_app_name};

verus! {

/// The pipeline stages a failure can be scoped to.
pub enum Stage {
    Validate,
    Resolve,
    Dependencies,
    Build,
    Package,
    Upload,
    Register,
}

/// The pipeline states, in their strict order, with the parallel terminal
/// failure state reachable from any non-terminal one.
pub enum PipelineState {
    Init,
    Validated,
    DependenciesReady,
    Built,
    Packaged,
    Uploaded,
    Registered,
    Done,
    Failed { stage: Stage, cause: StageError },
}

/// One run of the pipeline: its state, its fixed inputs, and the bookkeeping
/// for redeploy confirmation and the temporary artifact.
pub struct Pipeline {
    pub state: PipelineState,
    /// The application name being deployed.
    pub app_name: String,
    /// Skip the redeploy confirmation for an existing application.
    pub force: bool,
    /// Whether an auth token was configured; checked before any stage runs.
    pub authenticated: bool,
    /// A confirmation request is outstanding.
    pub awaiting_confirmation: bool,
    /// The operator declined the redeploy; the run ended cleanly.
    pub declined: bool,
    /// The temporary artifact file currently exists on disk.
    pub artifact_present: bool,
}

/// What the caller reports back into the machine.
pub enum PipelineEvent {
    /// Start the run: the pre-flight authentication check and the name
    /// validation happen here, before any subprocess or network call.
    Begin,
    /// The control plane was asked whether an application of this name
    /// exists.
    Resolved { exists: bool },
    /// The operator answered the redeploy confirmation.
    ConfirmAnswer { approved: bool },
    /// The dependency install finished (or was skipped as a no-op, which
    /// counts as success).
    InstallFinished { ok: bool, stderr: String },
    /// The build script finished (or none was defined, which counts as
    /// success).
    BuildFinished { ok: bool, stderr: String },
    /// The archive was written; on success the artifact now exists.
    PackageFinished { ok: bool, detail: String },
    /// The artifact transfer finished.
    UploadFinished { ok: bool, reason: String },
    /// The control plane answered the create-deployment call.
    RegisterFinished { status: u16, body: String },
    /// Conclude a registered run.
    Advance,
}

/// What the caller is asked to do next.
pub enum PipelineAction {
    /// List the applications and report whether the name exists.
    ResolveApplication,
    /// Ask the operator to confirm the redeploy.
    RequestConfirmation,
    /// Ensure dependencies are installed (skipping if already populated).
    EnsureDependencies,
    /// Run the project's build script, if any.
    RunBuildScript,
    /// Write the compressed archive to the temporary path.
    PackageArtifact,
    /// Transfer the artifact to storage.
    UploadArtifact,
    /// Record the new deployment with the control plane.
    RegisterDeployment,
    /// Delete the temporary artifact, best-effort; a failure here is
    /// logged, never escalated.
    CleanupArtifact,
    /// Report the outcome; nothing further runs.
    Finalize,
}

pub open spec fn is_terminal(s: PipelineState) -> bool {
    s is Done || s is Failed
}

/// A failure transition: the run fails at the given stage, any outstanding
/// confirmation is dropped, and the artifact is cleaned up.
pub open spec fn spec_fail(p: Pipeline, stage: Stage, cause: StageError) -> Pipeline {
    Pipeline {
        state: PipelineState::Failed { stage, cause },
        awaiting_confirmation: false,
        artifact_present: false,
        ..p
    }
}

/// The transition relation: one event in, the next state and the next
/// action out. Events that do not belong to the current state are ignored.
pub open spec fn spec_step(p: Pipeline, ev: PipelineEvent) -> (Pipeline, Option<PipelineAction>) {
    if is_terminal(p.state) {
        (p, None)
    } else {
        match (p.state, ev) {
            (PipelineState::Init, PipelineEvent::Begin) => if !p.authenticated {
                (
                    spec_fail(p, Stage::Validate, StageError::NotAuthenticated),
                    Some(PipelineAction::CleanupArtifact),
                )
            } else if !valid_name_chars(p.app_name@) {
                (
                    spec_fail(p, Stage::Validate, StageError::InvalidApplicationName),
                    Some(PipelineAction::CleanupArtifact),
                )
            } else {
                (
                    Pipeline { state: PipelineState::Validated, ..p },
                    Some(PipelineAction::ResolveApplication),
                )
            },
            (PipelineState::Validated, PipelineEvent::Resolved { exists }) => if p.awaiting_confirmation {
                (p, None)
            } else if exists && !p.force {
                (
                    Pipeline { awaiting_confirmation: true, ..p },
                    Some(PipelineAction::RequestConfirmation),
                )
            } else {
                (p, Some(PipelineAction::EnsureDependencies))
            },
            (PipelineState::Validated, PipelineEvent::ConfirmAnswer { approved }) => if !p.awaiting_confirmation {
                (p, None)
            } else if approved {
                (
                    Pipeline { awaiting_confirmation: false, ..p },
                    Some(PipelineAction::EnsureDependencies),
                )
            } else {
                (
                    Pipeline {
                        state: PipelineState::Done,
                        awaiting_confirmation: false,
                        declined: true,
                        artifact_present: false,
                        ..p
                    },
                    Some(PipelineAction::CleanupArtifact),
                )
            },
            (PipelineState::Validated, PipelineEvent::InstallFinished { ok, stderr }) => if p.awaiting_confirmation {
                (p, None)
            } else if ok {
                (
                    Pipeline { state: PipelineState::DependenciesReady, ..p },
                    Some(PipelineAction::RunBuildScript),
                )
            } else {
                (
                    spec_fail(p, Stage::Dependencies, StageError::DependencyInstallFailed { stderr }),
                    Some(PipelineAction::CleanupArtifact),
                )
            },
            (PipelineState::DependenciesReady, PipelineEvent::BuildFinished { ok, stderr }) => if ok {
                (
                    Pipeline { state: PipelineState::Built, ..p },
                    Some(PipelineAction::PackageArtifact),
                )
            } else {
                (
                    spec_fail(p, Stage::Build, StageError::BuildScriptFailed { stderr }),
                    Some(PipelineAction::CleanupArtifact),
                )
            },
            (PipelineState::Built, PipelineEvent::PackageFinished { ok, detail }) => if ok {
                (
                    Pipeline { state: PipelineState::Packaged, artifact_present: true, ..p },
                    Some(PipelineAction::UploadArtifact),
                )
            } else {
                (
                    spec_fail(p, Stage::Package, StageError::PackagingIoFailure { detail }),
                    Some(PipelineAction::CleanupArtifact),
                )
            },
            (PipelineState::Packaged, PipelineEvent::UploadFinished { ok, reason }) => if ok {
                (
                    Pipeline { state: PipelineState::Uploaded, ..p },
                    Some(PipelineAction::RegisterDeployment),
                )
            } else {
                (
                    spec_fail(p, Stage::Upload, StageError::UploadFailed { reason }),
                    Some(PipelineAction::CleanupArtifact),
                )
            },
            (PipelineState::Uploaded, PipelineEvent::RegisterFinished { status, body }) => if 200
                <= status && status < 300 {
                (
                    Pipeline { state: PipelineState::Registered, ..p },
                    Some(PipelineAction::Finalize),
                )
            } else {
                (
                    spec_fail(p, Stage::Register, StageError::RegistrationFailed { status, body }),
                    Some(PipelineAction::CleanupArtifact),
                )
            },
            (PipelineState::Registered, PipelineEvent::Advance) => (
                Pipeline { state: PipelineState::Done, artifact_present: false, ..p },
                Some(PipelineAction::CleanupArtifact),
            ),
            _ => (p, None),
        }
    }
}

/// The artifact never outlives the run: whenever the run is over, the
/// temporary artifact is gone.
pub open spec fn cleaned_when_terminal(p: Pipeline) -> bool {
    is_terminal(p.state) ==> !p.artifact_present
}

/// The cleanup invariant, inductively: it holds of a fresh run and every
/// step preserves it, so on every outcome — success, failure at any stage,
/// or a declined confirmation — the temporary artifact does not exist once
/// the run reaches a terminal state.
pub proof fn lemma_cleanup_invariant(p: Pipeline, ev: PipelineEvent)
    requires
        cleaned_when_terminal(p),
    ensures
        cleaned_when_terminal(spec_step(p, ev).0),
{
}

/// A finished run absorbs every further event: once Done or Failed is
/// reached, no event changes the state and no action is ever asked for
/// again — a declined confirmation or an early failure leaves no stage to
/// run behind it.
pub proof fn lemma_terminal_states_absorb(p: Pipeline, ev: PipelineEvent)
    requires
        is_terminal(p.state),
    ensures
        spec_step(p, ev) == (p, None::<PipelineAction>),
{
}

/// A deployment is only ever registered after a successful upload: the
/// machine asks for the registration call only on a confirmed transfer out
/// of the packaged state, so no deployment can reference an artifact that
/// was not actually uploaded.
pub proof fn lemma_register_only_after_upload(p: Pipeline, ev: PipelineEvent)
    ensures
        spec_step(p, ev).1 == Some(PipelineAction::RegisterDeployment) ==> p.state is Packaged
            && (ev matches PipelineEvent::UploadFinished { ok: true, .. }),
{
}

/// Where each state stands in the strict stage order.
pub open spec fn stage_rank(s: PipelineState) -> int {
    match s {
        PipelineState::Init => 0,
        PipelineState::Validated => 1,
        PipelineState::DependenciesReady => 2,
        PipelineState::Built => 3,
        PipelineState::Packaged => 4,
        PipelineState::Uploaded => 5,
        PipelineState::Registered => 6,
        PipelineState::Done => 7,
        PipelineState::Failed { .. } => 7,
    }
}

/// Transitions are strictly sequential: a step never moves backward, and a
/// step that stays non-terminal advances by at most one stage — no stage
/// starts before the previous one has completed.
pub proof fn lemma_strictly_sequential(p: Pipeline, ev: PipelineEvent)
    ensures
        stage_rank(spec_step(p, ev).0.state) >= stage_rank(p.state),
        !is_terminal(spec_step(p, ev).0.state) ==> stage_rank(spec_step(p, ev).0.state)
            <= stage_rank(p.state) + 1,
{
}

impl Pipeline {
    /// A fresh run over the given inputs, before anything has happened.
    pub fn new(app_name: String, force: bool, authenticated: bool) -> (r: Pipeline)
        ensures
            r.state is Init,
            r.app_name == app_name,
            r.force == force,
            r.authenticated == authenticated,
            !r.awaiting_confirmation,
            !r.declined,
            !r.artifact_present,
            cleaned_when_terminal(r),
    {
        Pipeline {
            state: PipelineState::Init,
            app_name,
            force,
            authenticated,
            awaiting_confirmation: false,
            declined: false,
            artifact_present: false,
        }
    }

    fn fail(&mut self, stage: Stage, cause: StageError) -> (a: Option<PipelineAction>)
        ensures
            *final (self) == spec_fail(*old(self), stage, cause),
            a == Some(PipelineAction::CleanupArtifact),
    {
        self.state = PipelineState::Failed { stage, cause };
        self.awaiting_confirmation = false;
        self.artifact_present = false;
        Some(PipelineAction::CleanupArtifact)
    }

    /// Feeds one event into the machine and returns the next action; the
    /// behaviour is exactly the transition relation.
    pub fn step(&mut self, ev: PipelineEvent) -> (a: Option<PipelineAction>)
        ensures
            (*final (self), a) == spec_step(*old(self), ev),
    {
        if matches!(self.state, PipelineState::Done | PipelineState::Failed { .. }) {
            return None;
        }
        match ev {
            PipelineEvent::Begin => {
                if !matches!(self.state, PipelineState::Init) {
                    return None;
                }
                if !self.authenticated {
                    return self.fail(Stage::Validate, StageError::NotAuthenticated);
                }
                if validate_app_name(self.app_name.as_str()).is_err() {
                    return self.fail(Stage::Validate, StageError::InvalidApplicationName);
                }
                self.state = PipelineState::Validated;
                Some(PipelineAction::ResolveApplication)
            },
            PipelineEvent::Resolved { exists } => {
                if !matches!(self.state, PipelineState::Validated) || self.awaiting_confirmation {
                    return None;
                }
                if exists && !self.force {
                    self.awaiting_confirmation = true;
                    Some(PipelineAction::RequestConfirmation)
                } else {
                    Some(PipelineAction::EnsureDependencies)
                }
            },
            PipelineEvent::ConfirmAnswer { approved } => {
                if !matches!(self.state, PipelineState::Validated) || !self.awaiting_confirmation {
                    return None;
                }
                self.awaiting_confirmation = false;
                if approved {
                    Some(PipelineAction::EnsureDependencies)
                } else {
                    self.declined = true;
                    self.state = PipelineState::Done;
                    self.artifact_present = false;
                    Some(PipelineAction::CleanupArtifact)
                }
            },
            PipelineEvent::InstallFinished { ok, stderr } => {
                if !matches!(self.state, PipelineState::Validated) || self.awaiting_confirmation {
                    return None;
                }
                if ok {
                    self.state = PipelineState::DependenciesReady;
                    Some(PipelineAction::RunBuildScript)
                } else {
                    self.fail(Stage::Dependencies, StageError::DependencyInstallFailed { stderr })
                }
            },
            PipelineEvent::BuildFinished { ok, stderr } => {
                if !matches!(self.state, PipelineState::DependenciesReady) {
                    return None;
                }
                if ok {
                    self.state = PipelineState::Built;
                    Some(PipelineAction::PackageArtifact)
                } else {
                    self.fail(Stage::Build, StageError::BuildScriptFailed { stderr })
                }
            },
            PipelineEvent::PackageFinished { ok, detail } => {
                if !matches!(self.state, PipelineState::Built) {
                    return None;
                }
                if ok {
                    self.state = PipelineState::Packaged;
                    self.artifact_present = true;
                    Some(PipelineAction::UploadArtifact)
                } else {
                    self.fail(Stage::Package, StageError::PackagingIoFailure { detail })
                }
            },
            PipelineEvent::UploadFinished { ok, reason } => {
                if !matches!(self.state, PipelineState::Packaged) {
                    return None;
                }
                if ok {
                    self.state = PipelineState::Uploaded;
                    Some(PipelineAction::RegisterDeployment)
                } else {
                    self.fail(Stage::Upload, StageError::UploadFailed { reason })
                }
            },
            PipelineEvent::RegisterFinished { status, body } => {
                if !matches!(self.state, PipelineState::Uploaded) {
                    return None;
                }
                if 200 <= status && status < 300 {
                    self.state = PipelineState::Registered;
                    Some(PipelineAction::Finalize)
                } else {
                    self.fail(Stage::Register, StageError::RegistrationFailed { status, body })
                }
            },
            PipelineEvent::Advance => {
                if !matches!(self.state, PipelineState::Registered) {
                    return None;
                }
                self.state = PipelineState::Done;
                self.artifact_present = false;
                Some(PipelineAction::CleanupArtifact)
            },
        }
    }
}

} // verus!
