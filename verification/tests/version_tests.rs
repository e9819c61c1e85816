use py_proj::plan::ScaffoldPlan;
use py_proj::version::derive_mm;
use py_proj::version::derive_mm_nodec;

#[test]
fn mm_from_three_component_version() {
    assert_eq!(derive_mm("3.13.5"), "3.13");
    assert_eq!(derive_mm("3.11.0"), "3.11");
    assert_eq!(derive_mm("10.22.33"), "10.22");
}

#[test]
fn mm_nodec_removes_the_dot() {
    assert_eq!(derive_mm_nodec("3.13"), "313");
    assert_eq!(derive_mm_nodec("3.11"), "311");
    assert_eq!(derive_mm_nodec("10.22"), "1022");
}

#[test]
fn mm_of_short_versions() {
    assert_eq!(derive_mm("3.11"), "3.11");
    assert_eq!(derive_mm("3"), "3");
    assert_eq!(derive_mm(""), "");
}

#[test]
fn mm_nodec_of_dotless_text() {
    assert_eq!(derive_mm_nodec("311"), "311");
    assert_eq!(derive_mm_nodec(""), "");
}

#[test]
fn plan_derives_both_short_forms() {
    let plan = ScaffoldPlan::new(
        String::from("/tmp/demo"),
        String::from("demo"),
        String::from("3.13.5"),
    );
    assert_eq!(plan.py_full, "3.13.5");
    assert_eq!(plan.mm, "3.13");
    assert_eq!(plan.mm_nodec, "313");
    assert_eq!(plan.root, "/tmp/demo");
    assert_eq!(plan.project, "demo");
}
