use aether::builder::{archive_entries, interpret_package_result, ArchiveEntry, ProjectPresence};
use aether::error::StageError;

fn presence(all: bool) -> ProjectPresence {
    ProjectPresence {
        has_package_lock: all,
        has_yarn_lock: all,
        has_pnpm_lock: all,
        has_node_modules: all,
        has_src: all,
        has_lib: all,
        has_dist: all,
        has_build: all,
        has_public: all,
        has_views: all,
        has_index_js: all,
        has_server_js: all,
        has_app_js: all,
        has_main_js: all,
        has_env_example: all,
    }
}

fn names(entries: &[ArchiveEntry]) -> Vec<String> {
    entries
        .iter()
        .map(|e| match e {
            ArchiveEntry::File(n) => format!("f:{}", n),
            ArchiveEntry::Dir(n) => format!("d:{}", n),
        })
        .collect()
}

#[test]
fn archive_bare_project_holds_only_the_manifest() {
    let e = archive_entries(&presence(false));
    assert_eq!(names(&e), vec!["f:package.json".to_string()]);
}

#[test]
fn archive_full_project_in_fixed_order() {
    let e = archive_entries(&presence(true));
    assert_eq!(
        names(&e),
        vec![
            "f:package.json",
            "f:package-lock.json",
            "f:yarn.lock",
            "f:pnpm-lock.yaml",
            "d:node_modules",
            "d:src",
            "d:lib",
            "d:dist",
            "d:build",
            "d:public",
            "d:views",
            "f:index.js",
            "f:server.js",
            "f:app.js",
            "f:main.js",
            "f:.env.example",
        ]
    );
}

#[test]
fn archive_packaging_is_deterministic() {
    // Packaging the same project twice plans the same entry names.
    let mut p = presence(false);
    p.has_src = true;
    p.has_package_lock = true;
    p.has_index_js = true;
    let first = names(&archive_entries(&p));
    let second = names(&archive_entries(&p));
    assert_eq!(first, second);
    assert_eq!(first, vec!["f:package.json", "f:package-lock.json", "d:src", "f:index.js"]);
}

#[test]
fn packaging_failure_carries_detail() {
    assert!(interpret_package_result(true, String::new()).is_ok());
    match interpret_package_result(false, "disk full".to_string()) {
        Err(StageError::PackagingIoFailure { detail }) => assert_eq!(detail, "disk full"),
        _ => panic!("expected a packaging failure"),
    }
}
