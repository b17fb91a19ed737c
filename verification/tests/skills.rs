use std::path::Path;

use apex_code::skills::{
    builtin_skills, detect_linter, detect_test_runner, render_skills_summary, skills_system_prompt,
    ProjectMarkers,
};

fn markers_of(dir: &Path) -> ProjectMarkers {
    ProjectMarkers {
        cargo_toml: dir.join("Cargo.toml").exists(),
        package_json: dir.join("package.json").exists(),
        pnpm_lock: dir.join("pnpm-lock.yaml").exists(),
        yarn_lock: dir.join("yarn.lock").exists(),
        pytest_ini: dir.join("pytest.ini").exists(),
        pyproject_toml: dir.join("pyproject.toml").exists(),
        requirements_txt: dir.join("requirements.txt").exists(),
        go_mod: dir.join("go.mod").exists(),
    }
}

fn no_markers() -> ProjectMarkers {
    ProjectMarkers {
        cargo_toml: false,
        package_json: false,
        pnpm_lock: false,
        yarn_lock: false,
        pytest_ini: false,
        pyproject_toml: false,
        requirements_txt: false,
        go_mod: false,
    }
}

#[test]
fn test_skills_summary() {
    let summary = render_skills_summary();
    assert!(summary.contains("Architectural Planning"));
    assert!(summary.contains("/plan"));
    assert!(summary.contains("/test"));
    assert!(summary.contains("/review"));
    assert!(summary.contains("/commit"));
}

#[test]
fn test_detect_cargo_test_runner() {
    // The package root: it holds the package's Cargo.toml.
    let markers = ProjectMarkers { cargo_toml: true, ..no_markers() };
    let runner = detect_test_runner(&markers);
    assert!(runner.is_some());
    let (name, cmd) = runner.unwrap();
    assert_eq!(name, "Cargo Test");
    assert_eq!(cmd, "cargo test");
}

#[test]
fn test_skills_prompt_not_empty() {
    let prompt = skills_system_prompt();
    assert!(prompt.contains("BAKED-IN ENGINEERING SKILLS"));
    assert!(prompt.contains("[SKILL: Architectural Planning & Scaffolding]"));
}

#[test]
fn summary_numbers_skills_and_marks_commands() {
    let summary = render_skills_summary();
    assert!(summary.starts_with("=== APEX BAKED-IN ENGINEERING SKILLS ===\n\n1. Architectural Planning & Scaffolding [/plan]\n   Decomposes"));
    assert!(summary.contains("3. Diagnostic & Compiler Resolution\n"));
    assert!(summary.contains("6. Surgical Refactoring & Minimal Disruption\n"));
    assert!(summary.ends_with("Use /plan <feature>, /test, /review, or /commit directly in the prompt!\n"));
    assert_eq!(builtin_skills().len(), 6);
}

#[test]
fn system_prompt_lists_guidelines() {
    let prompt = skills_system_prompt();
    assert!(prompt.starts_with("BAKED-IN ENGINEERING SKILLS & METHODOLOGIES:\n\n[SKILL: Architectural Planning & Scaffolding]\n1. Clarify goals & constraints.\n2. Define module boundaries"));
    assert!(prompt.ends_with("3. Preserve unrelated functions, comments, and public APIs.\n"));
}

#[test]
fn node_workspaces_pick_their_package_manager() {
    let mut m = no_markers();
    m.package_json = true;
    assert_eq!(detect_test_runner(&m), Some(("npm test", "npm test")));
    m.yarn_lock = true;
    assert_eq!(detect_test_runner(&m), Some(("yarn test", "yarn test")));
    m.pnpm_lock = true;
    assert_eq!(detect_test_runner(&m), Some(("pnpm test", "pnpm test")));
    assert_eq!(detect_linter(&m), Some(("TypeScript Check", "npx tsc --noEmit")));
}

#[test]
fn python_go_and_unknown_workspaces() {
    let mut m = no_markers();
    assert_eq!(detect_test_runner(&m), None);
    assert_eq!(detect_linter(&m), None);
    m.pytest_ini = true;
    assert_eq!(detect_test_runner(&m), Some(("Pytest", "pytest")));
    assert_eq!(detect_linter(&m), None);
    m.pytest_ini = false;
    m.go_mod = true;
    assert_eq!(detect_test_runner(&m), Some(("Go Test", "go test ./...")));
    assert_eq!(detect_linter(&m), Some(("Go Vet", "go vet ./...")));
    m.pyproject_toml = true;
    assert_eq!(detect_linter(&m), Some(("Ruff Check", "ruff check .")));
    m.cargo_toml = true;
    assert_eq!(detect_linter(&m), Some(("Cargo Check", "cargo check")));
}

#[test]
fn directory_without_markers_has_no_tools() {
    let m = markers_of(Path::new("/nonexistent/apex/workspace"));
    assert_eq!(m, no_markers());
    assert_eq!(detect_test_runner(&m), None);
    assert_eq!(detect_linter(&m), None);
}
