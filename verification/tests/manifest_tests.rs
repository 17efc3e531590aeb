use aether::builder::{
    ensure_dependencies_plan, read_manifest, run_build_script_plan, interpret_build_result,
    interpret_install_result, PackageManager, ProjectBuilder, ProjectPresence,
};
use aether::error::{AetherError, StageError};

fn empty_presence() -> ProjectPresence {
    ProjectPresence {
        has_package_lock: false,
        has_yarn_lock: false,
        has_pnpm_lock: false,
        has_node_modules: false,
        has_src: false,
        has_lib: false,
        has_dist: false,
        has_build: false,
        has_public: false,
        has_views: false,
        has_index_js: false,
        has_server_js: false,
        has_app_js: false,
        has_main_js: false,
        has_env_example: false,
    }
}

#[test]
fn manifest_full_fields() {
    let text = r#"{"name":"demo-app","version":"2.0.0","scripts":{"build":"tsc"},"engines":{"node":"18.2.1"}}"#;
    let pj = read_manifest(Some(text)).unwrap_or_else(|_| panic!("expected a manifest"));
    assert_eq!(pj.name, "demo-app");
    assert_eq!(pj.version.as_deref(), Some("2.0.0"));
    assert_eq!(pj.scripts.len(), 1);
    assert_eq!(pj.scripts[0].0, "build");
    assert_eq!(pj.scripts[0].1, "tsc");
    assert_eq!(pj.engines.node.as_deref(), Some("18.2.1"));
}

#[test]
fn manifest_missing_is_distinguished() {
    assert!(matches!(read_manifest(None), Err(StageError::MissingManifest)));
}

#[test]
fn manifest_malformed_cases() {
    assert!(matches!(read_manifest(Some("not json")), Err(StageError::MalformedManifest)));
    assert!(matches!(read_manifest(Some("{}")), Err(StageError::MalformedManifest)));
    assert!(matches!(
        read_manifest(Some(r#"{"name":5}"#)),
        Err(StageError::MalformedManifest)
    ));
    assert!(matches!(
        read_manifest(Some(r#"{"name":"x","scripts":{"build":7}}"#)),
        Err(StageError::MalformedManifest)
    ));
}

#[test]
fn manifest_defaults() {
    let b = ProjectBuilder::new("/p".to_string(), Some(r#"{"name":"x"}"#)).unwrap();
    assert_eq!(b.get_version(), "1.0.0");
    assert_eq!(b.get_node_version(), "20");
    assert_eq!(b.detect_runtime(), "node:20");
    assert_eq!(b.get_app_name(), "x");
    assert_eq!(b.get_project_path(), "/p");
}

#[test]
fn runtime_identifier_digit_prefix() {
    let b = ProjectBuilder::new(
        "/p".to_string(),
        Some(r#"{"name":"x","engines":{"node":"18.x"}}"#),
    )
    .unwrap();
    assert_eq!(b.detect_runtime(), "node:18");
}

#[test]
fn runtime_identifier_non_numeric_prefix() {
    let b = ProjectBuilder::new(
        "/p".to_string(),
        Some(r#"{"name":"x","engines":{"node":"latest"}}"#),
    )
    .unwrap();
    assert_eq!(b.detect_runtime(), "node:20");
    let b2 = ProjectBuilder::new(
        "/p".to_string(),
        Some(r#"{"name":"x","engines":{"node":">=16"}}"#),
    )
    .unwrap();
    assert_eq!(b2.detect_runtime(), "node:20");
}

#[test]
fn runtime_identifier_overflowing_value_falls_back() {
    let b = ProjectBuilder::new(
        "/p".to_string(),
        Some(r#"{"name":"x","engines":{"node":"99999999999999999999"}}"#),
    )
    .unwrap();
    assert_eq!(b.detect_runtime(), "node:20");
}

#[test]
fn package_manager_precedence() {
    let mut p = empty_presence();
    assert!(matches!(ProjectBuilder::detect_package_manager(&p), PackageManager::Npm));
    p.has_pnpm_lock = true;
    assert!(matches!(ProjectBuilder::detect_package_manager(&p), PackageManager::Pnpm));
    p.has_yarn_lock = true;
    assert!(matches!(ProjectBuilder::detect_package_manager(&p), PackageManager::Yarn));
}

#[test]
fn install_plan_commands() {
    let mut p = empty_presence();
    let c = ensure_dependencies_plan(false, &p).unwrap();
    assert_eq!(c.program, "npm");
    assert_eq!(c.args, vec!["install".to_string(), "--production".to_string()]);
    p.has_pnpm_lock = true;
    let c = ensure_dependencies_plan(false, &p).unwrap();
    assert_eq!(c.program, "pnpm");
    assert_eq!(c.args, vec!["install".to_string(), "--prod".to_string()]);
    p.has_yarn_lock = true;
    let c = ensure_dependencies_plan(false, &p).unwrap();
    assert_eq!(c.program, "yarn");
    assert_eq!(c.args, vec!["install".to_string(), "--production".to_string()]);
}

#[test]
fn install_skip_is_idempotent() {
    // A populated dependency cache plans no subprocess at all; after one
    // successful install the cache counts as populated, so a second call
    // plans none either.
    let p = empty_presence();
    assert!(ensure_dependencies_plan(true, &p).is_none());
    let first = ensure_dependencies_plan(false, &p);
    assert!(first.is_some());
    assert!(ensure_dependencies_plan(true, &p).is_none());
}

#[test]
fn build_script_selection_order() {
    let p = empty_presence();
    let pj = read_manifest(Some(r#"{"name":"x","scripts":{"prepare":"a","compile":"b"}}"#)).unwrap();
    let c = run_build_script_plan(&pj, &p).unwrap();
    assert_eq!(c.program, "npm");
    assert_eq!(c.args, vec!["run".to_string(), "compile".to_string()]);
    let pj = read_manifest(Some(r#"{"name":"x","scripts":{"prepare":"a","build":"b"}}"#)).unwrap();
    let c = run_build_script_plan(&pj, &p).unwrap();
    assert_eq!(c.args, vec!["run".to_string(), "build".to_string()]);
    let pj = read_manifest(Some(r#"{"name":"x","scripts":{"test":"t"}}"#)).unwrap();
    assert!(run_build_script_plan(&pj, &p).is_none());
    let pj = read_manifest(Some(r#"{"name":"x"}"#)).unwrap();
    assert!(run_build_script_plan(&pj, &p).is_none());
}

#[test]
fn stage_results_carry_diagnostics() {
    assert!(interpret_install_result(true, String::new()).is_ok());
    match interpret_install_result(false, "boom".to_string()) {
        Err(StageError::DependencyInstallFailed { stderr }) => assert_eq!(stderr, "boom"),
        _ => panic!("expected an install failure"),
    }
    match interpret_build_result(false, "tsc exploded".to_string()) {
        Err(StageError::BuildScriptFailed { stderr }) => assert_eq!(stderr, "tsc exploded"),
        _ => panic!("expected a build failure"),
    }
}

#[test]
fn project_builder_missing_and_malformed_errors() {
    match ProjectBuilder::new("/p".to_string(), None) {
        Err(AetherError::InvalidProject(m)) => {
            assert_eq!(m, "No package.json found in project directory")
        }
        _ => panic!("expected the missing-manifest error"),
    }
    assert!(matches!(
        ProjectBuilder::new("/p".to_string(), Some("{ nope")),
        Err(AetherError::Serialization(_))
    ));
}
