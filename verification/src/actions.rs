//! The decisions of the command dispatcher: which action runs, how its
//! parameters are resolved, which cache paths the clean action visits, and
//! what the delete action is allowed to do.
//!
//! The binary around the library queries the filesystem and launches
//! processes; every choice it acts on is computed and stated here.

use vstd::prelude::*;

verus! {

// ---------------------------------------------------------------------------
// Trimming the version probe's output
// ---------------------------------------------------------------------------
/// The padding stripped from the probe's output.
pub open spec fn is_ascii_space(c: char) -> bool {
    c == ' ' || c == '\n' || c == '\r' || c == '\t'
}

pub open spec fn trim_front(s: Seq<char>) -> Seq<char>
    decreases s.len(),
{
    if s.len() > 0 && is_ascii_space(s.first()) {
        trim_front(s.drop_first())
    } else {
        s
    }
}

pub open spec fn trim_back(s: Seq<char>) -> Seq<char>
    decreases s.len(),
{
    if s.len() > 0 && is_ascii_space(s.last()) {
        trim_back(s.drop_last())
    } else {
        s
    }
}

/// `s` with leading and trailing ASCII whitespace removed.
pub open spec fn trimmed(s: Seq<char>) -> Seq<char> {
    trim_back(trim_front(s))
}

fn is_space_exec(c: char) -> (r: bool)
    ensures
        r == is_ascii_space(c),
{
    c == ' ' || c == '\n' || c == '\r' || c == '\t'
}

/// Strips leading and trailing ASCII whitespace.
pub fn trim_ascii(s: &str) -> (r: String)
    ensures
        r@ == trimmed(s@),
{
    let len = s.unicode_len();
    proof {
        assert(s@.subrange(0, len as int) =~= s@);
    }
    let mut a: usize = 0;
    while a < len && is_space_exec(s.get_char(a))
        invariant
            a <= len,
            len == s@.len(),
            trim_front(s@) == trim_front(s@.subrange(a as int, len as int)),
        decreases len - a,
    {
        proof {
            assert(s@.subrange(a as int, len as int).drop_first() =~= s@.subrange(
                a as int + 1,
                len as int,
            ));
        }
        a = a + 1;
    }
    proof {
        assert(trim_front(s@) == s@.subrange(a as int, len as int));
    }
    let mut b: usize = len;
    while b > a && is_space_exec(s.get_char(b - 1))
        invariant
            a <= b <= len,
            len == s@.len(),
            trim_front(s@) == s@.subrange(a as int, len as int),
            trim_back(s@.subrange(a as int, len as int)) == trim_back(
                s@.subrange(a as int, b as int),
            ),
        decreases b,
    {
        proof {
            assert(s@.subrange(a as int, b as int).drop_last() =~= s@.subrange(
                a as int,
                b as int - 1,
            ));
        }
        b = b - 1;
    }
    let r = s.substring_char(a, b);
    proof {
        assert(r@ =~= trimmed(s@));
    }
    String::from_str(r)
}

// ---------------------------------------------------------------------------
// Version probe
// ---------------------------------------------------------------------------
/// The version reported when no interpreter answers the probe.
pub open spec fn fallback_version() -> Seq<char> {
    "3.11.0"@
}

/// Interpreter names the probe looks for on the search path, in order.
pub open spec fn probe_candidate_names() -> Seq<Seq<char>> {
    seq!["python3"@, "python"@]
}

/// Interpreter names the probe looks for, in order of preference.
pub fn probe_candidates() -> (r: Vec<String>)
    ensures
        r@.len() == probe_candidate_names().len(),
        forall|i: int| 0 <= i < r@.len() ==> #[trigger] r@[i]@ == probe_candidate_names()[i],
{
    let mut v: Vec<String> = Vec::new();
    v.push(String::from_str("python3"));
    v.push(String::from_str("python"));
    v
}

pub open spec fn probe_script_text() -> Seq<char> {
    "import sys;print('.'.join(map(str, sys.version_info[:3])))"@
}

/// The one-line script handed to the interpreter so that it prints its own
/// three-component version joined by dots.
pub fn probe_script() -> (r: String)
    ensures
        r@ == probe_script_text(),
{
    String::from_str("import sys;print('.'.join(map(str, sys.version_info[:3])))")
}

/// The version string used for the run: the probe's output trimmed of
/// ASCII whitespace; the fixed fallback when the probe found no interpreter
/// (`None`) or its output was empty or all whitespace.
pub fn python_version_or_default(probe: Option<&str>) -> (r: String)
    ensures
        match probe {
            Option::None => r@ == fallback_version(),
            Option::Some(out) => r@ == (if trimmed(out@).len() == 0 {
                fallback_version()
            } else {
                trimmed(out@)
            }),
        },
{
    match probe {
        Option::None => String::from_str("3.11.0"),
        Option::Some(out) => {
            let t = trim_ascii(out);
            if t.as_str().unicode_len() == 0 {
                String::from_str("3.11.0")
            } else {
                t
            }
        },
    }
}

// ---------------------------------------------------------------------------
// Dispatcher resolution
// ---------------------------------------------------------------------------
/// Help is shown when asked for, and also when no primary action was
/// requested; in either case nothing is mutated.
pub fn wants_help(help: bool, create: bool, clean: bool, delete: bool) -> (r: bool)
    ensures
        r == (help || (!create && !clean && !delete)),
{
    help || !(create || clean || delete)
}

/// The resolved project name: the flag's value when given, else the
/// working directory's base name with `_proj` appended.
pub fn resolve_project(flag: Option<String>, cwd_base: &str) -> (r: String)
    ensures
        match flag {
            Option::Some(p) => r@ == p@,
            Option::None => r@ == cwd_base@ + "_proj"@,
        },
{
    match flag {
        Option::Some(p) => p,
        Option::None => {
            let mut s = String::from_str(cwd_base);
            s.append("_proj");
            s
        },
    }
}

/// The resolved target root: the outdir flag's value when given, else the
/// project's name under the working directory.
pub fn resolve_root(outdir: Option<String>, cwd: &str, project: &str) -> (r: String)
    ensures
        match outdir {
            Option::Some(d) => r@ == d@,
            Option::None => r@ == cwd@ + "/"@ + project@,
        },
{
    match outdir {
        Option::Some(d) => d,
        Option::None => {
            let mut s = String::from_str(cwd);
            s.append("/");
            s.append(project);
            s
        },
    }
}

// ---------------------------------------------------------------------------
// Clean
// ---------------------------------------------------------------------------
/// One cache location the clean action visits: a path relative to the
/// root, and whether a plain file at that path is removed too.
pub struct CleanTarget {
    pub rel: String,
    pub file_ok: bool,
}

/// The fixed cache list of the clean action, in visiting order.
pub open spec fn clean_target_names() -> Seq<Seq<char>> {
    seq![
        ".venv"@,
        "__pycache__"@,
        ".pytest_cache"@,
        ".mypy_cache"@,
        ".ruff_cache"@,
        ".ipynb_checkpoints"@,
        "build"@,
        "dist"@,
        "htmlcov"@,
        ".coverage"@,
        ".cache"@,
        "src/__pycache__"@,
        "tests/__pycache__"@,
        "Notebooks/.ipynb_checkpoints"@,
    ]
}

/// The cache locations the clean action visits, in order; only the
/// coverage record may also stand as a plain file.
pub fn clean_targets() -> (r: Vec<CleanTarget>)
    ensures
        r@.len() == clean_target_names().len(),
        forall|i: int| 0 <= i < r@.len() ==> #[trigger] r@[i].rel@ == clean_target_names()[i],
        forall|i: int| 0 <= i < r@.len() ==> (#[trigger] r@[i].file_ok <==> i == 9),
{
    let mut v: Vec<CleanTarget> = Vec::new();
    v.push(CleanTarget { rel: String::from_str(".venv"), file_ok: false });
    v.push(CleanTarget { rel: String::from_str("__pycache__"), file_ok: false });
    v.push(CleanTarget { rel: String::from_str(".pytest_cache"), file_ok: false });
    v.push(CleanTarget { rel: String::from_str(".mypy_cache"), file_ok: false });
    v.push(CleanTarget { rel: String::from_str(".ruff_cache"), file_ok: false });
    v.push(CleanTarget { rel: String::from_str(".ipynb_checkpoints"), file_ok: false });
    v.push(CleanTarget { rel: String::from_str("build"), file_ok: false });
    v.push(CleanTarget { rel: String::from_str("dist"), file_ok: false });
    v.push(CleanTarget { rel: String::from_str("htmlcov"), file_ok: false });
    v.push(CleanTarget { rel: String::from_str(".coverage"), file_ok: true });
    v.push(CleanTarget { rel: String::from_str(".cache"), file_ok: false });
    v.push(CleanTarget { rel: String::from_str("src/__pycache__"), file_ok: false });
    v.push(CleanTarget { rel: String::from_str("tests/__pycache__"), file_ok: false });
    v.push(CleanTarget { rel: String::from_str("Notebooks/.ipynb_checkpoints"), file_ok: false });
    v
}

#[derive(PartialEq, Eq, Structural, Clone, Copy, Debug)]
pub enum CleanOp {
    RemoveDir,
    RemoveFile,
    Keep,
}

/// What the clean action does at one target, given what stands on disk: a
/// directory is removed recursively; a plain file is removed only where the
/// target allows a file; anything else is left alone. A failed removal is
/// swallowed by the caller so the rest of the list is still visited.
pub fn clean_op(file_ok: bool, is_dir: bool, is_file: bool) -> (r: CleanOp)
    ensures
        r == (if is_dir {
            CleanOp::RemoveDir
        } else if is_file && file_ok {
            CleanOp::RemoveFile
        } else {
            CleanOp::Keep
        }),
{
    if is_dir {
        CleanOp::RemoveDir
    } else if is_file && file_ok {
        CleanOp::RemoveFile
    } else {
        CleanOp::Keep
    }
}

// ---------------------------------------------------------------------------
// Delete
// ---------------------------------------------------------------------------
#[derive(PartialEq, Eq, Structural, Clone, Copy, Debug)]
pub enum DeleteOutcome {
    Refused,
    RemoveAll,
    SkipMissing,
}

/// The delete action's one decision: without explicit confirmation it
/// refuses and nothing on disk changes; confirmed, the root is removed
/// recursively when it exists, and a missing root is reported as a skip,
/// not an error.
pub fn delete_decision(confirmed: bool, root_exists: bool) -> (r: DeleteOutcome)
    ensures
        r == (if !confirmed {
            DeleteOutcome::Refused
        } else if root_exists {
            DeleteOutcome::RemoveAll
        } else {
            DeleteOutcome::SkipMissing
        }),
{
    if !confirmed {
        DeleteOutcome::Refused
    } else if root_exists {
        DeleteOutcome::RemoveAll
    } else {
        DeleteOutcome::SkipMissing
    }
}

} // verus!
