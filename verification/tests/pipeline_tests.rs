use aether::builder::ProjectBuilder;
use aether::error::StageError;
use aether::pipeline::{Pipeline, PipelineAction, PipelineEvent, PipelineState, Stage};

fn ok_install() -> PipelineEvent {
    PipelineEvent::InstallFinished { ok: true, stderr: String::new() }
}

fn ok_build() -> PipelineEvent {
    PipelineEvent::BuildFinished { ok: true, stderr: String::new() }
}

fn ok_package() -> PipelineEvent {
    PipelineEvent::PackageFinished { ok: true, detail: String::new() }
}

fn ok_upload() -> PipelineEvent {
    PipelineEvent::UploadFinished { ok: true, reason: String::new() }
}

#[test]
fn pipeline_end_to_end_success() {
    // A project with {name:"demo-app", version:"2.0.0", scripts:{build}}
    // and no existing application of that name: the run reaches Registered,
    // the deployment carries version 2.0.0, and the artifact is gone after.
    let manifest = r#"{"name":"demo-app","version":"2.0.0","scripts":{"build":"tsc"}}"#;
    let builder = ProjectBuilder::new("/proj".to_string(), Some(manifest)).unwrap();
    assert_eq!(builder.get_version(), "2.0.0");

    let mut p = Pipeline::new(builder.get_app_name().clone(), false, true);
    assert!(matches!(p.step(PipelineEvent::Begin), Some(PipelineAction::ResolveApplication)));
    assert!(matches!(p.state, PipelineState::Validated));
    assert!(matches!(
        p.step(PipelineEvent::Resolved { exists: false }),
        Some(PipelineAction::EnsureDependencies)
    ));
    assert!(matches!(p.step(ok_install()), Some(PipelineAction::RunBuildScript)));
    assert!(matches!(p.state, PipelineState::DependenciesReady));
    assert!(matches!(p.step(ok_build()), Some(PipelineAction::PackageArtifact)));
    assert!(matches!(p.state, PipelineState::Built));
    assert!(matches!(p.step(ok_package()), Some(PipelineAction::UploadArtifact)));
    assert!(matches!(p.state, PipelineState::Packaged));
    assert!(p.artifact_present);
    assert!(matches!(p.step(ok_upload()), Some(PipelineAction::RegisterDeployment)));
    assert!(matches!(
        p.step(PipelineEvent::RegisterFinished { status: 201, body: String::new() }),
        Some(PipelineAction::Finalize)
    ));
    assert!(matches!(p.state, PipelineState::Registered));
    assert!(matches!(p.step(PipelineEvent::Advance), Some(PipelineAction::CleanupArtifact)));
    assert!(matches!(p.state, PipelineState::Done));
    assert!(!p.artifact_present);
    assert!(!p.declined);
}

#[test]
fn pipeline_redeploy_declined_is_clean() {
    // Same project, an application of the name already exists, force unset,
    // the operator declines: the run halts at the resolution step with no
    // build, package, upload or registration side effects, and no error.
    let mut p = Pipeline::new("demo-app".to_string(), false, true);
    assert!(matches!(p.step(PipelineEvent::Begin), Some(PipelineAction::ResolveApplication)));
    assert!(matches!(
        p.step(PipelineEvent::Resolved { exists: true }),
        Some(PipelineAction::RequestConfirmation)
    ));
    assert!(matches!(p.state, PipelineState::Validated));
    assert!(matches!(
        p.step(PipelineEvent::ConfirmAnswer { approved: false }),
        Some(PipelineAction::CleanupArtifact)
    ));
    assert!(matches!(p.state, PipelineState::Done));
    assert!(p.declined);
    assert!(!p.artifact_present);
    // Nothing further runs.
    assert!(p.step(ok_install()).is_none());
    assert!(p.step(ok_build()).is_none());
}

#[test]
fn pipeline_redeploy_forced_skips_confirmation() {
    let mut p = Pipeline::new("demo-app".to_string(), true, true);
    p.step(PipelineEvent::Begin);
    assert!(matches!(
        p.step(PipelineEvent::Resolved { exists: true }),
        Some(PipelineAction::EnsureDependencies)
    ));
}

#[test]
fn pipeline_invalid_name_fails_before_any_side_effect() {
    // The name "-bad-" fails validation at Init, before any subprocess or
    // network action is ever requested.
    let mut p = Pipeline::new("-bad-".to_string(), false, true);
    assert!(matches!(p.step(PipelineEvent::Begin), Some(PipelineAction::CleanupArtifact)));
    match &p.state {
        PipelineState::Failed { stage, cause } => {
            assert!(matches!(stage, Stage::Validate));
            assert!(matches!(cause, StageError::InvalidApplicationName));
        }
        _ => panic!("expected a validation failure"),
    }
    assert!(!p.artifact_present);
    // Later events are ignored: the run is over.
    assert!(p.step(PipelineEvent::Resolved { exists: false }).is_none());
    assert!(p.step(ok_install()).is_none());
}

#[test]
fn pipeline_unauthenticated_short_circuits() {
    let mut p = Pipeline::new("demo-app".to_string(), false, false);
    assert!(matches!(p.step(PipelineEvent::Begin), Some(PipelineAction::CleanupArtifact)));
    assert!(matches!(
        p.state,
        PipelineState::Failed { cause: StageError::NotAuthenticated, .. }
    ));
}

#[test]
fn pipeline_build_failure_aborts_and_cleans() {
    let mut p = Pipeline::new("demo-app".to_string(), false, true);
    p.step(PipelineEvent::Begin);
    p.step(PipelineEvent::Resolved { exists: false });
    p.step(ok_install());
    assert!(matches!(
        p.step(PipelineEvent::BuildFinished { ok: false, stderr: "tsc: error".to_string() }),
        Some(PipelineAction::CleanupArtifact)
    ));
    match &p.state {
        PipelineState::Failed { stage, cause } => {
            assert!(matches!(stage, Stage::Build));
            match cause {
                StageError::BuildScriptFailed { stderr } => assert_eq!(stderr, "tsc: error"),
                _ => panic!("expected the build script failure"),
            }
        }
        _ => panic!("expected a failed run"),
    }
    assert!(!p.artifact_present);
    assert!(p.step(ok_package()).is_none());
}

#[test]
fn pipeline_upload_failure_after_packaging_cleans_artifact() {
    let mut p = Pipeline::new("demo-app".to_string(), false, true);
    p.step(PipelineEvent::Begin);
    p.step(PipelineEvent::Resolved { exists: false });
    p.step(ok_install());
    p.step(ok_build());
    p.step(ok_package());
    assert!(p.artifact_present);
    assert!(matches!(
        p.step(PipelineEvent::UploadFinished { ok: false, reason: "unreachable".to_string() }),
        Some(PipelineAction::CleanupArtifact)
    ));
    assert!(matches!(p.state, PipelineState::Failed { stage: Stage::Upload, .. }));
    assert!(!p.artifact_present);
}

#[test]
fn pipeline_registration_failure_preserves_status_and_body() {
    let mut p = Pipeline::new("demo-app".to_string(), false, true);
    p.step(PipelineEvent::Begin);
    p.step(PipelineEvent::Resolved { exists: false });
    p.step(ok_install());
    p.step(ok_build());
    p.step(ok_package());
    p.step(ok_upload());
    p.step(PipelineEvent::RegisterFinished { status: 409, body: "version exists".to_string() });
    match &p.state {
        PipelineState::Failed { stage, cause } => {
            assert!(matches!(stage, Stage::Register));
            match cause {
                StageError::RegistrationFailed { status, body } => {
                    assert_eq!(*status, 409);
                    assert_eq!(body, "version exists");
                }
                _ => panic!("expected the registration failure"),
            }
        }
        _ => panic!("expected a failed run"),
    }
    assert!(!p.artifact_present);
}

#[test]
fn pipeline_ignores_out_of_order_events() {
    let mut p = Pipeline::new("demo-app".to_string(), false, true);
    // Nothing has begun: stage results are ignored.
    assert!(p.step(ok_build()).is_none());
    assert!(p.step(PipelineEvent::Advance).is_none());
    assert!(matches!(p.state, PipelineState::Init));
}
