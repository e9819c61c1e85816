use py_proj::actions::CleanOp;
use py_proj::actions::DeleteOutcome;
use py_proj::actions::clean_op;
use py_proj::actions::clean_targets;
use py_proj::actions::delete_decision;
use py_proj::actions::probe_candidates;
use py_proj::actions::probe_script;
use py_proj::actions::python_version_or_default;
use py_proj::actions::resolve_project;
use py_proj::actions::resolve_root;
use py_proj::actions::trim_ascii;
use py_proj::actions::wants_help;

#[test]
fn probe_falls_back_when_no_interpreter_is_found() {
    assert_eq!(python_version_or_default(None), "3.11.0");
}

#[test]
fn probe_falls_back_on_empty_or_blank_output() {
    assert_eq!(python_version_or_default(Some("")), "3.11.0");
    assert_eq!(python_version_or_default(Some("  \n")), "3.11.0");
    assert_eq!(python_version_or_default(Some("\t\r\n")), "3.11.0");
}

#[test]
fn probe_output_is_trimmed_and_kept() {
    let version = python_version_or_default(Some("3.12.4\n"));
    assert_eq!(version, "3.12.4");
    let digits_and_dots = version.chars().all(|c| c.is_ascii_digit() || c == '.');
    assert!(digits_and_dots);
    assert_eq!(version.split('.').count(), 3);
}

#[test]
fn trimming_strips_both_ends_only() {
    assert_eq!(trim_ascii("  3.11.0\n"), "3.11.0");
    assert_eq!(trim_ascii("3.11.0"), "3.11.0");
    assert_eq!(trim_ascii(" a b "), "a b");
    assert_eq!(trim_ascii(""), "");
    assert_eq!(trim_ascii(" \t\r\n"), "");
}

#[test]
fn probe_candidates_prefer_python3() {
    assert_eq!(probe_candidates(), vec!["python3", "python"]);
}

#[test]
fn probe_script_prints_the_version_triple() {
    assert_eq!(
        probe_script(),
        "import sys;print('.'.join(map(str, sys.version_info[:3])))"
    );
}

#[test]
fn help_is_shown_when_asked_or_when_idle() {
    assert!(wants_help(true, true, true, true));
    assert!(wants_help(false, false, false, false));
    assert!(!wants_help(false, true, false, false));
    assert!(!wants_help(false, false, true, false));
    assert!(!wants_help(false, false, false, true));
}

#[test]
fn project_name_defaults_to_cwd_basename_with_suffix() {
    assert_eq!(resolve_project(None, "work"), "work_proj");
    assert_eq!(resolve_project(Some(String::from("myproj")), "work"), "myproj");
}

#[test]
fn root_defaults_to_project_under_cwd() {
    assert_eq!(resolve_root(None, "/home/dev", "myproj"), "/home/dev/myproj");
    assert_eq!(
        resolve_root(Some(String::from("/tmp/out")), "/home/dev", "myproj"),
        "/tmp/out"
    );
}

#[test]
fn clean_list_holds_the_documented_caches_in_order() {
    let targets = clean_targets();
    let names: Vec<&str> = targets.iter().map(|t| t.rel.as_str()).collect();
    assert_eq!(
        names,
        vec![
            ".venv",
            "__pycache__",
            ".pytest_cache",
            ".mypy_cache",
            ".ruff_cache",
            ".ipynb_checkpoints",
            "build",
            "dist",
            "htmlcov",
            ".coverage",
            ".cache",
            "src/__pycache__",
            "tests/__pycache__",
            "Notebooks/.ipynb_checkpoints",
        ]
    );
    for t in &targets {
        assert_eq!(t.file_ok, t.rel == ".coverage");
    }
}

#[test]
fn clean_removes_present_caches_and_keeps_the_rest() {
    assert_eq!(clean_op(false, true, false), CleanOp::RemoveDir);
    assert_eq!(clean_op(true, true, false), CleanOp::RemoveDir);
    assert_eq!(clean_op(true, false, true), CleanOp::RemoveFile);
    assert_eq!(clean_op(false, false, true), CleanOp::Keep);
    assert_eq!(clean_op(false, false, false), CleanOp::Keep);
    assert_eq!(clean_op(true, false, false), CleanOp::Keep);
}

#[test]
fn delete_refuses_without_confirmation() {
    assert_eq!(delete_decision(false, true), DeleteOutcome::Refused);
    assert_eq!(delete_decision(false, false), DeleteOutcome::Refused);
}

#[test]
fn delete_removes_an_existing_root_and_skips_a_missing_one() {
    assert_eq!(delete_decision(true, true), DeleteOutcome::RemoveAll);
    assert_eq!(delete_decision(true, false), DeleteOutcome::SkipMissing);
}
