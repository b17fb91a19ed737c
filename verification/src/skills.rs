//! The baked-in engineering skills, their rendered summaries and the
//! detection of a workspace's test runner and linter.
use vstd::prelude::*;
use vstd::string::StringExecFns;
use crate::text::{self, push_decimal};

verus! {

/// One baked-in engineering playbook.
#[derive(Debug, Clone)]
pub struct SkillDefinition {
    pub name: &'static str,
    pub description: &'static str,
    pub slash_command: Option<&'static str>,
    pub guidelines: &'static str,
}

/// A skill as plain text.
pub struct SkillView {
    pub name: Seq<char>,
    pub description: Seq<char>,
    pub slash_command: Option<Seq<char>>,
    pub guidelines: Seq<char>,
}

impl View for SkillDefinition {
    type V = SkillView;

    open spec fn view(&self) -> SkillView {
        SkillView {
            name: self.name@,
            description: self.description@,
            slash_command: match self.slash_command {
                Some(c) => Some(c@),
                None => None,
            },
            guidelines: self.guidelines@,
        }
    }
}

/// The skills that ship with the agent, in their fixed order.
pub open spec fn builtin_skills_spec() -> Seq<SkillView> {
    seq![
        SkillView {
            name: "Architectural Planning & Scaffolding"@,
            description: "Decomposes complex requests into modular components, boundary contracts, and incremental implementation phases."@,
            slash_command: Some("/plan"@),
            guidelines: "1. Clarify goals & constraints.\n\
                         2. Define module boundaries, types, and interface contracts.\n\
                         3. Break implementation into dependency-ordered phases.\n\
                         4. Outline automated verification tests for each phase."@,
        },
        SkillView {
            name: "Test-Driven Development & Self-Healing"@,
            description: "Executes project test runners, parses failure traces, and iteratively fixes regressions before declaring done."@,
            slash_command: Some("/test"@),
            guidelines: "1. Locate existing test suites and fixtures.\n\
                         2. Run test suites proactively (`cargo test`, `npm test`, `pytest`).\n\
                         3. On failure, isolate the failing assertion, inspect stack trace, and surgically fix.\n\
                         4. Re-run tests to confirm resolution."@,
        },
        SkillView {
            name: "Diagnostic & Compiler Resolution"@,
            description: "Dissects compiler diagnostics (Rust borrow checker, TypeScript types, linter warnings) and resolves root causes."@,
            slash_command: None,
            guidelines: "1. Read exact compiler error codes and file/line numbers.\n\
                         2. Identify type mismatches, lifetime bounds, or missing imports.\n\
                         3. Fix root cause cleanly without loose types (`any`), unwrap cascades, or warning suppressions."@,
        },
        SkillView {
            name: "Code Quality & Security Review"@,
            description: "Audits git diffs for regressions, performance bottlenecks, unhandled errors, and vulnerability vectors."@,
            slash_command: Some("/review"@),
            guidelines: "1. Run git diff to inspect changes.\n\
                         2. Audit for security flaws (hardcoded secrets, injection, unsafe memory operations).\n\
                         3. Ensure proper error propagation (`?` in Rust, try/catch in TS).\n\
                         4. Eliminate dead code, redundant allocations, and untested edge cases."@,
        },
        SkillView {
            name: "Atomic Conventional Version Control"@,
            description: "Generates semantic, atomic Conventional Commits (`feat:`, `fix:`, `refactor:`, `test:`) based on verified changes."@,
            slash_command: Some("/commit"@),
            guidelines: "1. Verify all tests and builds pass.\n\
                         2. Stage modified files atomically.\n\
                         3. Write clear Conventional Commit message: `<type>(<scope>): <concise action-oriented summary>`.\n\
                         4. Keep changes focused and non-destructive."@,
        },
        SkillView {
            name: "Surgical Refactoring & Minimal Disruption"@,
            description: "Maintains existing code integrity, indentation, and docstrings by replacing only targeted code chunks."@,
            slash_command: None,
            guidelines: "1. Inspect exact symbol locations before editing.\n\
                         2. Use `edit_file` with precise search chunks.\n\
                         3. Preserve unrelated functions, comments, and public APIs."@,
        },
    ]
}

/// The baked-in skills.
pub fn builtin_skills() -> (v: Vec<SkillDefinition>)
    ensures
        v@.map_values(|s: SkillDefinition| s@) == builtin_skills_spec(),
{
    let v = vec![
        SkillDefinition {
            name: "Architectural Planning & Scaffolding",
            description: "Decomposes complex requests into modular components, boundary contracts, and incremental implementation phases.",
            slash_command: Some("/plan"),
            guidelines: "1. Clarify goals & constraints.\n\
                         2. Define module boundaries, types, and interface contracts.\n\
                         3. Break implementation into dependency-ordered phases.\n\
                         4. Outline automated verification tests for each phase.",
        },
        SkillDefinition {
            name: "Test-Driven Development & Self-Healing",
            description: "Executes project test runners, parses failure traces, and iteratively fixes regressions before declaring done.",
            slash_command: Some("/test"),
            guidelines: "1. Locate existing test suites and fixtures.\n\
                         2. Run test suites proactively (`cargo test`, `npm test`, `pytest`).\n\
                         3. On failure, isolate the failing assertion, inspect stack trace, and surgically fix.\n\
                         4. Re-run tests to confirm resolution.",
        },
        SkillDefinition {
            name: "Diagnostic & Compiler Resolution",
            description: "Dissects compiler diagnostics (Rust borrow checker, TypeScript types, linter warnings) and resolves root causes.",
            slash_command: None,
            guidelines: "1. Read exact compiler error codes and file/line numbers.\n\
                         2. Identify type mismatches, lifetime bounds, or missing imports.\n\
                         3. Fix root cause cleanly without loose types (`any`), unwrap cascades, or warning suppressions.",
        },
        SkillDefinition {
            name: "Code Quality & Security Review",
            description: "Audits git diffs for regressions, performance bottlenecks, unhandled errors, and vulnerability vectors.",
            slash_command: Some("/review"),
            guidelines: "1. Run git diff to inspect changes.\n\
                         2. Audit for security flaws (hardcoded secrets, injection, unsafe memory operations).\n\
                         3. Ensure proper error propagation (`?` in Rust, try/catch in TS).\n\
                         4. Eliminate dead code, redundant allocations, and untested edge cases.",
        },
        SkillDefinition {
            name: "Atomic Conventional Version Control",
            description: "Generates semantic, atomic Conventional Commits (`feat:`, `fix:`, `refactor:`, `test:`) based on verified changes.",
            slash_command: Some("/commit"),
            guidelines: "1. Verify all tests and builds pass.\n\
                         2. Stage modified files atomically.\n\
                         3. Write clear Conventional Commit message: `<type>(<scope>): <concise action-oriented summary>`.\n\
                         4. Keep changes focused and non-destructive.",
        },
        SkillDefinition {
            name: "Surgical Refactoring & Minimal Disruption",
            description: "Maintains existing code integrity, indentation, and docstrings by replacing only targeted code chunks.",
            slash_command: None,
            guidelines: "1. Inspect exact symbol locations before editing.\n\
                         2. Use `edit_file` with precise search chunks.\n\
                         3. Preserve unrelated functions, comments, and public APIs.",
        },
    ];
    assert(v@.map_values(|s: SkillDefinition| s@) =~= builtin_skills_spec());
    v
}

// ---------------------------------------------------------------------------
// Rendered summaries
// ---------------------------------------------------------------------------

/// The ` [/cmd]` suffix of a skill that has a slash command.
pub open spec fn command_suffix(cmd: Option<Seq<char>>) -> Seq<char> {
    match cmd {
        Some(c) => " ["@ + c + "]"@,
        None => Seq::empty(),
    }
}

/// The entry of the skill numbered `number` in the summary.
pub open spec fn summary_entry(number: nat, s: SkillView) -> Seq<char> {
    text::decimal(number) + ". "@ + s.name + command_suffix(s.slash_command) + "\n"@ + "   "@
        + s.description + "\n\n"@
}

/// The entries of the first `n` skills, numbered from 1.
pub open spec fn summary_entries(skills: Seq<SkillView>, n: nat) -> Seq<char>
    decreases n,
{
    if n == 0 {
        Seq::empty()
    } else {
        summary_entries(skills, (n - 1) as nat) + summary_entry(n, skills[n - 1])
    }
}

/// The skills reference shown in the terminal interface.
pub open spec fn summary_text(skills: Seq<SkillView>) -> Seq<char> {
    "=== APEX BAKED-IN ENGINEERING SKILLS ===\n\n"@ + summary_entries(skills, skills.len())
        + "Use /plan <feature>, /test, /review, or /commit directly in the prompt!\n"@
}

/// The section of one skill in the system prompt.
pub open spec fn prompt_section(s: SkillView) -> Seq<char> {
    "\n[SKILL: "@ + s.name + "]\n"@ + s.guidelines + "\n"@
}

/// The sections of the first `n` skills.
pub open spec fn prompt_sections(skills: Seq<SkillView>, n: nat) -> Seq<char>
    decreases n,
{
    if n == 0 {
        Seq::empty()
    } else {
        prompt_sections(skills, (n - 1) as nat) + prompt_section(skills[n - 1])
    }
}

/// The skills part of the agent's system prompt.
pub open spec fn system_prompt_text(skills: Seq<SkillView>) -> Seq<char> {
    "BAKED-IN ENGINEERING SKILLS & METHODOLOGIES:\n"@ + prompt_sections(skills, skills.len())
}

/// Renders the summary of the given skills.
pub fn render_summary_of(skills: &Vec<SkillDefinition>) -> (out: String)
    requires
        skills@.len() < u128::MAX,
    ensures
        out@ == summary_text(skills@.map_values(|s: SkillDefinition| s@)),
{
    let ghost views = skills@.map_values(|s: SkillDefinition| s@);
    let mut out = String::from_str("=== APEX BAKED-IN ENGINEERING SKILLS ===\n\n");
    let ghost head = out@;
    let mut i: usize = 0;
    while i < skills.len()
        invariant
            i <= skills@.len() < u128::MAX,
            views == skills@.map_values(|s: SkillDefinition| s@),
            out@ == head + summary_entries(views, i as nat),
        decreases skills@.len() - i,
    {
        let skill = &skills[i];
        push_decimal(&mut out, (i as u128) + 1);
        out.append(". ");
        out.append(skill.name);
        match skill.slash_command {
            Some(cmd) => {
                out.append(" [");
                out.append(cmd);
                out.append("]");
            },
            None => {},
        }
        out.append("\n");
        out.append("   ");
        out.append(skill.description);
        out.append("\n\n");
        i = i + 1;
        assert(views[i - 1] == skill@);
        assert(out@ =~= head + summary_entries(views, i as nat));
    }
    out.append("Use /plan <feature>, /test, /review, or /commit directly in the prompt!\n");
    out
}

/// Formats the skills reference for display in the TUI or terminal.
pub fn render_skills_summary() -> (out: String)
    ensures
        out@ == summary_text(builtin_skills_spec()),
{
    let skills = builtin_skills();
    render_summary_of(&skills)
}

/// Renders the system prompt guidelines of the given skills.
pub fn system_prompt_of(skills: &Vec<SkillDefinition>) -> (out: String)
    ensures
        out@ == system_prompt_text(skills@.map_values(|s: SkillDefinition| s@)),
{
    let ghost views = skills@.map_values(|s: SkillDefinition| s@);
    let mut out = String::from_str("BAKED-IN ENGINEERING SKILLS & METHODOLOGIES:\n");
    let ghost head = out@;
    let mut i: usize = 0;
    while i < skills.len()
        invariant
            i <= skills@.len(),
            views == skills@.map_values(|s: SkillDefinition| s@),
            out@ == head + prompt_sections(views, i as nat),
        decreases skills@.len() - i,
    {
        let skill = &skills[i];
        out.append("\n[SKILL: ");
        out.append(skill.name);
        out.append("]\n");
        out.append(skill.guidelines);
        out.append("\n");
        i = i + 1;
        assert(views[i - 1] == skill@);
        assert(out@ =~= head + prompt_sections(views, i as nat));
    }
    out
}

/// Renders system prompt guidelines incorporating all baked-in skills.
pub fn skills_system_prompt() -> (out: String)
    ensures
        out@ == system_prompt_text(builtin_skills_spec()),
{
    let skills = builtin_skills();
    system_prompt_of(&skills)
}

// ---------------------------------------------------------------------------
// Workspace detection
// ---------------------------------------------------------------------------

/// Which of the project marker files exist at the root of a workspace.
#[derive(Debug, Clone, Copy, PartialEq, Eq)]
pub struct ProjectMarkers {
    /// `Cargo.toml`
    pub cargo_toml: bool,
    /// `package.json`
    pub package_json: bool,
    /// `pnpm-lock.yaml`
    pub pnpm_lock: bool,
    /// `yarn.lock`
    pub yarn_lock: bool,
    /// `pytest.ini`
    pub pytest_ini: bool,
    /// `pyproject.toml`
    pub pyproject_toml: bool,
    /// `requirements.txt`
    pub requirements_txt: bool,
    /// `go.mod`
    pub go_mod: bool,
}

/// The test runner (display name, command) chosen for a workspace.
pub open spec fn test_runner_spec(m: ProjectMarkers) -> Option<(Seq<char>, Seq<char>)> {
    if m.cargo_toml {
        Some(("Cargo Test"@, "cargo test"@))
    } else if m.package_json {
        if m.pnpm_lock {
            Some(("pnpm test"@, "pnpm test"@))
        } else if m.yarn_lock {
            Some(("yarn test"@, "yarn test"@))
        } else {
            Some(("npm test"@, "npm test"@))
        }
    } else if m.pytest_ini || m.pyproject_toml {
        Some(("Pytest"@, "pytest"@))
    } else if m.go_mod {
        Some(("Go Test"@, "go test ./..."@))
    } else {
        None
    }
}

/// The linter (display name, command) chosen for a workspace.
pub open spec fn linter_spec(m: ProjectMarkers) -> Option<(Seq<char>, Seq<char>)> {
    if m.cargo_toml {
        Some(("Cargo Check"@, "cargo check"@))
    } else if m.package_json {
        Some(("TypeScript Check"@, "npx tsc --noEmit"@))
    } else if m.pyproject_toml {
        Some(("Ruff Check"@, "ruff check ."@))
    } else if m.go_mod {
        Some(("Go Vet"@, "go vet ./..."@))
    } else {
        None
    }
}

/// A pair of string slices as plain text.
pub open spec fn pair_view(p: Option<(&'static str, &'static str)>) -> Option<(Seq<char>, Seq<char>)> {
    match p {
        Some((a, b)) => Some((a@, b@)),
        None => None,
    }
}

/// Detects the primary test runner for a workspace.
pub fn detect_test_runner(markers: &ProjectMarkers) -> (r: Option<(&'static str, &'static str)>)
    ensures
        pair_view(r) == test_runner_spec(*markers),
{
    if markers.cargo_toml {
        Some(("Cargo Test", "cargo test"))
    } else if markers.package_json {
        if markers.pnpm_lock {
            Some(("pnpm test", "pnpm test"))
        } else if markers.yarn_lock {
            Some(("yarn test", "yarn test"))
        } else {
            Some(("npm test", "npm test"))
        }
    } else if markers.pytest_ini || markers.pyproject_toml {
        Some(("Pytest", "pytest"))
    } else if markers.go_mod {
        Some(("Go Test", "go test ./..."))
    } else {
        None
    }
}

/// Detects the primary linter / compiler check tool.
pub fn detect_linter(markers: &ProjectMarkers) -> (r: Option<(&'static str, &'static str)>)
    ensures
        pair_view(r) == linter_spec(*markers),
{
    if markers.cargo_toml {
        Some(("Cargo Check", "cargo check"))
    } else if markers.package_json {
        Some(("TypeScript Check", "npx tsc --noEmit"))
    } else if markers.pyproject_toml {
        Some(("Ruff Check", "ruff check ."))
    } else if markers.go_mod {
        Some(("Go Vet", "go vet ./..."))
    } else {
        None
    }
}

} // verus!
