use py_proj::plan::FileEntry;
use py_proj::plan::ScaffoldPlan;
use py_proj::plan::skeleton_dirs;

fn demo_plan() -> ScaffoldPlan {
    ScaffoldPlan::new(
        String::from("/tmp/demo"),
        String::from("myproj"),
        String::from("3.13.1"),
    )
}

const EXPECTED_PATHS: [&str; 20] = [
    "src/__init__.py",
    "src/main.py",
    ".vscode/launch.json",
    ".vscode/settings.json",
    ".vscode/tasks.json",
    ".env",
    ".envrc",
    "pyrefly.toml",
    "pyrightconfig.json",
    "pyproject.toml",
    ".gitignore",
    "README.md",
    "Makefile",
    "src/app_logging/__init__.py",
    "src/app_logging/MyColoredFormatter.py",
    "src/app_logging/config07.json",
    "src/app_logging/constants.py",
    "src/app_logging/glogger.py",
    "src/app_logging/myCustomJsonClass01.py",
    "src/app_logging/myFilters.py",
];

fn content_of<'a>(files: &'a [FileEntry], path: &str) -> &'a str {
    for e in files {
        if e.path == path {
            return &e.content;
        }
    }
    panic!("no rendered file at {}", path);
}

#[test]
fn create_renders_exactly_the_documented_file_set() {
    let files = demo_plan().create_plan();
    assert_eq!(files.len(), EXPECTED_PATHS.len());
    for (entry, expected) in files.iter().zip(EXPECTED_PATHS.iter()) {
        assert_eq!(entry.path, *expected);
    }
}

#[test]
fn package_markers_are_empty_and_everything_else_is_not() {
    let files = demo_plan().create_plan();
    for e in &files {
        if e.path == "src/__init__.py" || e.path == "src/app_logging/__init__.py" {
            assert!(e.content.is_empty(), "{} should be empty", e.path);
        } else {
            assert!(!e.content.is_empty(), "{} should not be empty", e.path);
        }
    }
}

#[test]
fn create_is_deterministic_for_equal_inputs() {
    let first = demo_plan().create_plan();
    let second = demo_plan().create_plan();
    assert_eq!(first.len(), second.len());
    for (a, b) in first.iter().zip(second.iter()) {
        assert_eq!(a.path, b.path);
        assert_eq!(a.content, b.content);
    }
}

#[test]
fn json_files_parse_and_toml_files_parse() {
    let files = demo_plan().create_plan();
    for e in &files {
        if e.path.ends_with(".json") {
            let parsed: Result<serde_json::Value, _> = serde_json::from_str(&e.content);
            assert!(parsed.is_ok(), "{} is not valid JSON", e.path);
        }
        if e.path.ends_with(".toml") {
            let parsed: Result<toml::Table, _> = e.content.parse();
            assert!(parsed.is_ok(), "{} is not valid TOML", e.path);
        }
    }
}

#[test]
fn project_name_round_trips_through_rendered_configs() {
    let files = demo_plan().create_plan();

    let manifest: toml::Table = content_of(&files, "pyproject.toml").parse().unwrap();
    let name = manifest.get("project").unwrap().get("name").unwrap().as_str().unwrap();
    assert_eq!(name, "myproj");

    let lint: toml::Table = content_of(&files, "pyrefly.toml").parse().unwrap();
    assert_eq!(lint.get("project").unwrap().as_str().unwrap(), "myproj");
    assert_eq!(lint.get("python-version").unwrap().as_str().unwrap(), "3.13.1");

    let readme = content_of(&files, "README.md");
    assert!(readme.starts_with("# myproj\n"));
}

#[test]
fn derived_versions_reach_the_rendered_configs() {
    let files = demo_plan().create_plan();

    let checker: serde_json::Value =
        serde_json::from_str(content_of(&files, "pyrightconfig.json")).unwrap();
    assert_eq!(checker.get("pythonVersion").unwrap().as_str().unwrap(), "3.13");
    let extra = checker.get("extraPaths").unwrap().as_array().unwrap();
    assert!(extra.iter().any(|p| p.as_str() == Some(".venv/lib/python3.13/site-packages")));

    let manifest: toml::Table = content_of(&files, "pyproject.toml").parse().unwrap();
    let requires = manifest.get("project").unwrap().get("requires-python").unwrap();
    assert_eq!(requires.as_str().unwrap(), ">=3.13");
    let target = manifest.get("tool").unwrap().get("ruff").unwrap().get("target-version").unwrap();
    assert_eq!(target.as_str().unwrap(), "py313");
    let version = manifest.get("project").unwrap().get("version").unwrap();
    assert_eq!(version.as_str().unwrap(), "0.1.0");
}

#[test]
fn env_files_carry_the_path_and_environment_variables() {
    let files = demo_plan().create_plan();
    let dotenv = content_of(&files, ".env");
    assert!(dotenv.contains("PYTHONPATH=src"));
    assert!(dotenv.contains("ENV="));
    let envrc = content_of(&files, ".envrc");
    assert!(envrc.contains("export PYTHONPATH=src"));
    assert!(envrc.contains(".env"));
}

#[test]
fn toolchain_commands_install_then_create_the_venv() {
    let cmds = demo_plan().toolchain_commands();
    assert_eq!(cmds.len(), 2);
    assert_eq!(cmds[0].program, "uv");
    assert_eq!(cmds[0].args, vec!["python", "install", "3.13.1"]);
    assert_eq!(cmds[1].program, "uv");
    assert_eq!(cmds[1].args, vec!["venv", "--python", "3.13.1", ".venv"]);
}

#[test]
fn skeleton_directories_in_order() {
    let dirs = skeleton_dirs();
    assert_eq!(dirs, vec!["src", "tests", "Notebooks", ".vscode", "src/app_logging"]);
}

#[test]
fn render_groups_cover_their_files() {
    let plan = demo_plan();
    assert_eq!(plan.write_basic_src().len(), 2);
    assert_eq!(plan.write_vscode().len(), 3);
    assert_eq!(plan.write_envs().len(), 2);
    assert_eq!(plan.write_pyrefly().len(), 1);
    assert_eq!(plan.write_pyright().len(), 1);
    assert_eq!(plan.write_pyproject().len(), 1);
    assert_eq!(plan.write_gitignore().len(), 1);
    assert_eq!(plan.write_readme().len(), 1);
    assert_eq!(plan.wirte_makefile().len(), 1);
    assert_eq!(plan.write_app_logging().len(), 7);
}

#[test]
fn tool_identity_and_banner() {
    assert_eq!(py_proj::templates::tool_name(), "py-proj");
    assert_eq!(py_proj::templates::tool_version(), "0.1.0");
    let art = py_proj::templates::banner();
    assert!(!art.is_empty());
    assert!(art.starts_with('\n'));
}

#[test]
fn main_stub_prints_a_greeting_and_runs_as_a_script() {
    let files = demo_plan().create_plan();
    let stub = content_of(&files, "src/main.py");
    assert!(stub.contains("def main"));
    assert!(stub.contains("print("));
    assert!(stub.contains("__main__"));
}
