//! The scaffold plan: the resolved parameters of one invocation and the
//! render operations that turn them into the target file tree.
//!
//! Every operation is pure: it returns the files to write (relative path and
//! full content) or the command lines to run. The binary around the library
//! performs the writes and launches the processes, in the order returned.

use vstd::prelude::*;

use crate::templates::app_logging_config07_json;
use crate::templates::app_logging_config07_json_text;
use crate::templates::app_logging_constants_py;
use crate::templates::app_logging_constants_py_text;
use crate::templates::app_logging_glogger_py;
use crate::templates::app_logging_glogger_py_text;
use crate::templates::app_logging_my_colored_formatter_py;
use crate::templates::app_logging_my_colored_formatter_py_text;
use crate::templates::app_logging_my_custom_json_class01_py;
use crate::templates::app_logging_my_custom_json_class01_py_text;
use crate::templates::app_logging_my_filters_py;
use crate::templates::app_logging_my_filters_py_text;
use crate::templates::app_make_file_creator;
use crate::templates::dotenv;
use crate::templates::dotenv_text;
use crate::templates::envrc;
use crate::templates::envrc_text;
use crate::templates::gitignore;
use crate::templates::gitignore_text;
use crate::templates::main_py;
use crate::templates::main_py_text;
use crate::templates::makefile_text;
use crate::templates::pyproject_toml;
use crate::templates::pyproject_toml_text;
use crate::templates::pyrefly_toml;
use crate::templates::pyrefly_toml_text;
use crate::templates::pyrightconfig_json;
use crate::templates::pyrightconfig_json_text;
use crate::templates::readme_md;
use crate::templates::readme_md_text;
use crate::templates::vscode_launch_json;
use crate::templates::vscode_launch_json_text;
use crate::templates::vscode_settings_json;
use crate::templates::vscode_settings_json_text;
use crate::templates::vscode_tasks_json;
use crate::templates::vscode_tasks_json_text;
use crate::version::derive_mm;
use crate::version::derive_mm_nodec;
use crate::version::mm_of;
use crate::version::strip_dots;

verus! {

/// One file to write: a path relative to the project root, with `/` as the
/// separator, and the full content to store at that path.
pub struct FileEntry {
    pub path: String,
    pub content: String,
}

impl View for FileEntry {
    type V = (Seq<char>, Seq<char>);

    open spec fn view(&self) -> (Seq<char>, Seq<char>) {
        (self.path@, self.content@)
    }
}

/// One command line to run from the project root.
pub struct CommandSpec {
    pub program: String,
    pub args: Vec<String>,
}

/// The resolved parameters of one scaffolding run.
pub struct ScaffoldPlan {
    pub root: String,
    pub project: String,
    pub py_full: String,
    pub mm: String,
    pub mm_nodec: String,
}

/// The derived fields agree with the full version string they came from.
pub open spec fn plan_wf(plan: ScaffoldPlan) -> bool {
    &&& plan.mm@ == mm_of(plan.py_full@)
    &&& plan.mm_nodec@ == strip_dots(plan.mm@)
}

/// The complete file set of one create run, in the order it is written:
/// each pair holds the path relative to the root and the exact content.
pub open spec fn created_files(
    project: Seq<char>,
    py_full: Seq<char>,
    mm: Seq<char>,
    mm_nodec: Seq<char>,
) -> Seq<(Seq<char>, Seq<char>)> {
    seq![
        ("src/__init__.py"@, Seq::<char>::empty()),
        ("src/main.py"@, main_py_text()),
        (".vscode/launch.json"@, vscode_launch_json_text()),
        (".vscode/settings.json"@, vscode_settings_json_text()),
        (".vscode/tasks.json"@, vscode_tasks_json_text()),
        (".env"@, dotenv_text()),
        (".envrc"@, envrc_text()),
        ("pyrefly.toml"@, pyrefly_toml_text(project, py_full)),
        ("pyrightconfig.json"@, pyrightconfig_json_text(mm)),
        ("pyproject.toml"@, pyproject_toml_text(project, mm, mm_nodec)),
        (".gitignore"@, gitignore_text()),
        ("README.md"@, readme_md_text(project)),
        ("Makefile"@, makefile_text()),
        ("src/app_logging/__init__.py"@, Seq::<char>::empty()),
        ("src/app_logging/MyColoredFormatter.py"@, app_logging_my_colored_formatter_py_text()),
        ("src/app_logging/config07.json"@, app_logging_config07_json_text()),
        ("src/app_logging/constants.py"@, app_logging_constants_py_text()),
        ("src/app_logging/glogger.py"@, app_logging_glogger_py_text()),
        ("src/app_logging/myCustomJsonClass01.py"@, app_logging_my_custom_json_class01_py_text()),
        ("src/app_logging/myFilters.py"@, app_logging_my_filters_py_text()),
    ]
}

/// The directory skeleton created before any file is written.
pub open spec fn skeleton_dir_names() -> Seq<Seq<char>> {
    seq!["src"@, "tests"@, "Notebooks"@, ".vscode"@, "src/app_logging"@]
}

/// Directories to create under the root, in order.
pub fn skeleton_dirs() -> (r: Vec<String>)
    ensures
        r@.len() == skeleton_dir_names().len(),
        forall|i: int| 0 <= i < r@.len() ==> #[trigger] r@[i]@ == skeleton_dir_names()[i],
{
    let mut v: Vec<String> = Vec::new();
    v.push(String::from_str("src"));
    v.push(String::from_str("tests"));
    v.push(String::from_str("Notebooks"));
    v.push(String::from_str(".vscode"));
    v.push(String::from_str("src/app_logging"));
    v
}

/// The command lines that provision the toolchain: install the requested
/// python, then create the `.venv` bound to it.
pub open spec fn toolchain_command_lines(py_full: Seq<char>) -> Seq<(Seq<char>, Seq<Seq<char>>)> {
    seq![
        ("uv"@, seq!["python"@, "install"@, py_full]),
        ("uv"@, seq!["venv"@, "--python"@, py_full, ".venv"@]),
    ]
}

impl ScaffoldPlan {
    /// Builds the plan for one run, deriving `mm` and `mm_nodec` from the
    /// full version string.
    pub fn new(root: String, project: String, py_full: String) -> (r: ScaffoldPlan)
        ensures
            r.root@ == root@,
            r.project@ == project@,
            r.py_full@ == py_full@,
            plan_wf(r),
    {
        let mm = derive_mm(py_full.as_str());
        let mm_nodec = derive_mm_nodec(mm.as_str());
        ScaffoldPlan { root, project, py_full, mm, mm_nodec }
    }

    /// The package marker and the runnable source stub.
    pub fn write_basic_src(&self) -> (r: Vec<FileEntry>)
        ensures
            r@.len() == 2,
            r@[0]@ == ("src/__init__.py"@, Seq::<char>::empty()),
            r@[1]@ == ("src/main.py"@, main_py_text()),
    {
        let mut v: Vec<FileEntry> = Vec::new();
        v.push(FileEntry { path: String::from_str("src/__init__.py"), content: String::new() });
        v.push(FileEntry { path: String::from_str("src/main.py"), content: main_py() });
        v
    }

    /// The three editor configuration files.
    pub fn write_vscode(&self) -> (r: Vec<FileEntry>)
        ensures
            r@.len() == 3,
            r@[0]@ == (".vscode/launch.json"@, vscode_launch_json_text()),
            r@[1]@ == (".vscode/settings.json"@, vscode_settings_json_text()),
            r@[2]@ == (".vscode/tasks.json"@, vscode_tasks_json_text()),
    {
        let mut v: Vec<FileEntry> = Vec::new();
        v.push(
            FileEntry {
                path: String::from_str(".vscode/launch.json"),
                content: vscode_launch_json(),
            },
        );
        v.push(
            FileEntry {
                path: String::from_str(".vscode/settings.json"),
                content: vscode_settings_json(),
            },
        );
        v.push(
            FileEntry { path: String::from_str(".vscode/tasks.json"), content: vscode_tasks_json() },
        );
        v
    }

    /// The two environment files.
    pub fn write_envs(&self) -> (r: Vec<FileEntry>)
        ensures
            r@.len() == 2,
            r@[0]@ == (".env"@, dotenv_text()),
            r@[1]@ == (".envrc"@, envrc_text()),
    {
        let mut v: Vec<FileEntry> = Vec::new();
        v.push(FileEntry { path: String::from_str(".env"), content: dotenv() });
        v.push(FileEntry { path: String::from_str(".envrc"), content: envrc() });
        v
    }

    /// The lint/type-check project configuration.
    pub fn write_pyrefly(&self) -> (r: Vec<FileEntry>)
        ensures
            r@.len() == 1,
            r@[0]@ == ("pyrefly.toml"@, pyrefly_toml_text(self.project@, self.py_full@)),
    {
        let mut v: Vec<FileEntry> = Vec::new();
        v.push(
            FileEntry {
                path: String::from_str("pyrefly.toml"),
                content: pyrefly_toml(self.project.as_str(), self.py_full.as_str()),
            },
        );
        v
    }

    /// The static type-checker configuration.
    pub fn write_pyright(&self) -> (r: Vec<FileEntry>)
        ensures
            r@.len() == 1,
            r@[0]@ == ("pyrightconfig.json"@, pyrightconfig_json_text(self.mm@)),
    {
        let mut v: Vec<FileEntry> = Vec::new();
        v.push(
            FileEntry {
                path: String::from_str("pyrightconfig.json"),
                content: pyrightconfig_json(self.mm.as_str()),
            },
        );
        v
    }

    /// The package manifest.
    pub fn write_pyproject(&self) -> (r: Vec<FileEntry>)
        ensures
            r@.len() == 1,
            r@[0]@ == ("pyproject.toml"@, pyproject_toml_text(
                self.project@,
                self.mm@,
                self.mm_nodec@,
            )),
    {
        let mut v: Vec<FileEntry> = Vec::new();
        v.push(
            FileEntry {
                path: String::from_str("pyproject.toml"),
                content: pyproject_toml(
                    self.project.as_str(),
                    self.mm.as_str(),
                    self.mm_nodec.as_str(),
                ),
            },
        );
        v
    }

    /// The ignore rules.
    pub fn write_gitignore(&self) -> (r: Vec<FileEntry>)
        ensures
            r@.len() == 1,
            r@[0]@ == (".gitignore"@, gitignore_text()),
    {
        let mut v: Vec<FileEntry> = Vec::new();
        v.push(FileEntry { path: String::from_str(".gitignore"), content: gitignore() });
        v
    }

    /// The README.
    pub fn write_readme(&self) -> (r: Vec<FileEntry>)
        ensures
            r@.len() == 1,
            r@[0]@ == ("README.md"@, readme_md_text(self.project@)),
    {
        let mut v: Vec<FileEntry> = Vec::new();
        v.push(
            FileEntry {
                path: String::from_str("README.md"),
                content: readme_md(self.project.as_str()),
            },
        );
        v
    }

    /// The build helper with its convenience targets.
    pub fn wirte_makefile(&self) -> (r: Vec<FileEntry>)
        ensures
            r@.len() == 1,
            r@[0]@ == ("Makefile"@, makefile_text()),
    {
        let mut v: Vec<FileEntry> = Vec::new();
        v.push(FileEntry { path: String::from_str("Makefile"), content: app_make_file_creator() });
        v
    }

    /// The logging support package: a marker plus six fixed modules.
    pub fn write_app_logging(&self) -> (r: Vec<FileEntry>)
        ensures
            r@.len() == 7,
            r@[0]@ == ("src/app_logging/__init__.py"@, Seq::<char>::empty()),
            r@[1]@ == ("src/app_logging/MyColoredFormatter.py"@,
            app_logging_my_colored_formatter_py_text()),
            r@[2]@ == ("src/app_logging/config07.json"@, app_logging_config07_json_text()),
            r@[3]@ == ("src/app_logging/constants.py"@, app_logging_constants_py_text()),
            r@[4]@ == ("src/app_logging/glogger.py"@, app_logging_glogger_py_text()),
            r@[5]@ == ("src/app_logging/myCustomJsonClass01.py"@,
            app_logging_my_custom_json_class01_py_text()),
            r@[6]@ == ("src/app_logging/myFilters.py"@, app_logging_my_filters_py_text()),
    {
        let mut v: Vec<FileEntry> = Vec::new();
        v.push(
            FileEntry {
                path: String::from_str("src/app_logging/__init__.py"),
                content: String::new(),
            },
        );
        v.push(
            FileEntry {
                path: String::from_str("src/app_logging/MyColoredFormatter.py"),
                content: app_logging_my_colored_formatter_py(),
            },
        );
        v.push(
            FileEntry {
                path: String::from_str("src/app_logging/config07.json"),
                content: app_logging_config07_json(),
            },
        );
        v.push(
            FileEntry {
                path: String::from_str("src/app_logging/constants.py"),
                content: app_logging_constants_py(),
            },
        );
        v.push(
            FileEntry {
                path: String::from_str("src/app_logging/glogger.py"),
                content: app_logging_glogger_py(),
            },
        );
        v.push(
            FileEntry {
                path: String::from_str("src/app_logging/myCustomJsonClass01.py"),
                content: app_logging_my_custom_json_class01_py(),
            },
        );
        v.push(
            FileEntry {
                path: String::from_str("src/app_logging/myFilters.py"),
                content: app_logging_my_filters_py(),
            },
        );
        v
    }

    /// Every file of one create run, in write order: exactly the catalog
    /// that `created_files` states, rendered from this plan's parameters.
    pub fn create_plan(&self) -> (r: Vec<FileEntry>)
        ensures
            r@.len() == created_files(self.project@, self.py_full@, self.mm@, self.mm_nodec@).len(),
            forall|i: int|
                0 <= i < r@.len() ==> #[trigger] r@[i]@ == created_files(
                    self.project@,
                    self.py_full@,
                    self.mm@,
                    self.mm_nodec@,
                )[i],
    {
        let mut v = self.write_basic_src();
        let mut t = self.write_vscode();
        v.append(&mut t);
        let mut t = self.write_envs();
        v.append(&mut t);
        let mut t = self.write_pyrefly();
        v.append(&mut t);
        let mut t = self.write_pyright();
        v.append(&mut t);
        let mut t = self.write_pyproject();
        v.append(&mut t);
        let mut t = self.write_gitignore();
        v.append(&mut t);
        let mut t = self.write_readme();
        v.append(&mut t);
        let mut t = self.wirte_makefile();
        v.append(&mut t);
        let mut t = self.write_app_logging();
        v.append(&mut t);
        v
    }

    /// The toolchain provisioning commands, run from `root` after every
    /// file of the create run is written.
    pub fn toolchain_commands(&self) -> (r: Vec<CommandSpec>)
        ensures
            r@.len() == toolchain_command_lines(self.py_full@).len(),
            forall|i: int|
                0 <= i < r@.len() ==> #[trigger] r@[i].program@ == toolchain_command_lines(
                    self.py_full@,
                )[i].0,
            forall|i: int|
                0 <= i < r@.len() ==> (#[trigger] r@[i].args)@.map_values(|a: String| a@)
                    == toolchain_command_lines(self.py_full@)[i].1,
    {
        let mut install_args: Vec<String> = Vec::new();
        install_args.push(String::from_str("python"));
        install_args.push(String::from_str("install"));
        install_args.push(self.py_full.clone());
        let mut venv_args: Vec<String> = Vec::new();
        venv_args.push(String::from_str("venv"));
        venv_args.push(String::from_str("--python"));
        venv_args.push(self.py_full.clone());
        venv_args.push(String::from_str(".venv"));
        let mut r: Vec<CommandSpec> = Vec::new();
        let ghost install_view = install_args@.map_values(|a: String| a@);
        let ghost venv_view = venv_args@.map_values(|a: String| a@);
        proof {
            assert(install_view =~= seq!["python"@, "install"@, self.py_full@]);
            assert(venv_view =~= seq!["venv"@, "--python"@, self.py_full@, ".venv"@]);
        }
        r.push(CommandSpec { program: String::from_str("uv"), args: install_args });
        r.push(CommandSpec { program: String::from_str("uv"), args: venv_args });
        r
    }
}

/// Rendering is a function of the plan parameters alone: two create runs
/// with the same inputs produce the same paths and the same contents, so a
/// repeated create rewrites every file with identical bytes.
pub proof fn lemma_create_idempotent(a: ScaffoldPlan, b: ScaffoldPlan)
    requires
        a.project@ == b.project@,
        a.py_full@ == b.py_full@,
        a.mm@ == b.mm@,
        a.mm_nodec@ == b.mm_nodec@,
    ensures
        created_files(a.project@, a.py_full@, a.mm@, a.mm_nodec@) == created_files(
            b.project@,
            b.py_full@,
            b.mm@,
            b.mm_nodec@,
        ),
{
}

/// Of the whole rendered file set, exactly the two package markers are
/// empty; every other file's content is non-empty text.
pub proof fn lemma_created_files_nonempty(
    project: Seq<char>,
    py_full: Seq<char>,
    mm: Seq<char>,
    mm_nodec: Seq<char>,
)
    ensures
        created_files(project, py_full, mm, mm_nodec)[0].1.len() == 0,
        created_files(project, py_full, mm, mm_nodec)[13].1.len() == 0,
        forall|i: int|
            0 <= i < created_files(project, py_full, mm, mm_nodec).len() && i != 0 && i != 13
                ==> #[trigger] created_files(project, py_full, mm, mm_nodec)[i].1.len() > 0,
{
    crate::templates::lemma_templates_nonempty(project, py_full, mm, mm_nodec);
}

} // verus!
