//! The template catalog: every file the scaffolder renders.
//!
//! Each template is a pure function of the plan's parameters (project name
//! and the version strings) or of nothing at all. A spec function gives the
//! exact text of each rendered file, and the executable renderer is proved
//! to return that text.

use vstd::prelude::*;

verus! {

// ---------------------------------------------------------------------------
// The tool's own identity and help banner
// ---------------------------------------------------------------------------
pub open spec fn tool_name_text() -> Seq<char> {
    "py-proj"@
}

/// The tool's name, as printed by the version action.
pub fn tool_name() -> (r: String)
    ensures
        r@ == tool_name_text(),
{
    String::from_str("py-proj")
}

pub open spec fn tool_version_text() -> Seq<char> {
    "0.1.0"@
}

/// The tool's own semantic version, as printed by the version action.
pub fn tool_version() -> (r: String)
    ensures
        r@ == tool_version_text(),
{
    String::from_str("0.1.0")
}

pub open spec fn banner_text() -> Seq<char> {
    r#"
  _ \ _ \   _ \     | __|   __| __ __|
  __/   /  (   | \  | _|   (       |
 _|  _|_\ \___/ \__/ ___| \___|   _|

  _ )  |  | _ _|  |     _ \  __|  _ \
  _ \  |  |   |   |     |  | _|     /
 ___/ \__/  ___| ____| ___/ ___| _|_\

"#@
}

/// The fixed banner shown above the usage text.
pub fn banner() -> (r: String)
    ensures
        r@ == banner_text(),
{
    String::from_str(
        r#"
  _ \ _ \   _ \     | __|   __| __ __|
  __/   /  (   | \  | _|   (       |
 _|  _|_\ \___/ \__/ ___| \___|   _|

  _ )  |  | _ _|  |     _ \  __|  _ \
  _ \  |  |   |   |     |  | _|     /
 ___/ \__/  ___| ____| ___/ ___| _|_\

"#,
    )
}

// ---------------------------------------------------------------------------
// src/main.py
// ---------------------------------------------------------------------------
pub open spec fn main_py_text() -> Seq<char> {
    "def "@
        + r#"main() -> None:
    print("Hello from src.main!")


if __name__ == "__main__":
    main()
"#@
}

/// Source stub with a `main` entry point, run when invoked as a script.
pub fn main_py() -> (r: String)
    ensures
        r@ == main_py_text(),
{
    let mut s = String::from_str("def ");
    s.append(
        r#"main() -> None:
    print("Hello from src.main!")


if __name__ == "__main__":
    main()
"#,
    );
    s
}

// ---------------------------------------------------------------------------
// .vscode/launch.json
// ---------------------------------------------------------------------------
pub open spec fn vscode_launch_json_text() -> Seq<char> {
    "{\n"@
        + r#"    "version": "0.2.0",
    "configurations": [
        {
            "name": "Python: Current File",
            "type": "debugpy",
            "request": "launch",
            "program": "${file}",
            "console": "integratedTerminal",
            "cwd": "${workspaceFolder}"
        },
        {
            "name": "Python: src.main",
            "type": "debugpy",
            "request": "launch",
            "module": "src.main",
            "console": "integratedTerminal",
            "cwd": "${workspaceFolder}"
        }
    ]
}
"#@
}

/// Debugger launch configuration with two run profiles.
pub fn vscode_launch_json() -> (r: String)
    ensures
        r@ == vscode_launch_json_text(),
{
    let mut s = String::from_str("{\n");
    s.append(
        r#"    "version": "0.2.0",
    "configurations": [
        {
            "name": "Python: Current File",
            "type": "debugpy",
            "request": "launch",
            "program": "${file}",
            "console": "integratedTerminal",
            "cwd": "${workspaceFolder}"
        },
        {
            "name": "Python: src.main",
            "type": "debugpy",
            "request": "launch",
            "module": "src.main",
            "console": "integratedTerminal",
            "cwd": "${workspaceFolder}"
        }
    ]
}
"#,
    );
    s
}

// ---------------------------------------------------------------------------
// .vscode/settings.json
// ---------------------------------------------------------------------------
pub open spec fn vscode_settings_json_text() -> Seq<char> {
    "{\n"@
        + r#"    "python.defaultInterpreterPath": ".venv/bin/python",
    "python.analysis.extraPaths": ["src"],
    "ruff.importStrategy": "fromEnvironment",
    "editor.formatOnSave": true,
    "python.testing.pytestEnabled": true
}
"#@
}

/// Editor settings pinning the interpreter to the project's own venv.
pub fn vscode_settings_json() -> (r: String)
    ensures
        r@ == vscode_settings_json_text(),
{
    let mut s = String::from_str("{\n");
    s.append(
        r#"    "python.defaultInterpreterPath": ".venv/bin/python",
    "python.analysis.extraPaths": ["src"],
    "ruff.importStrategy": "fromEnvironment",
    "editor.formatOnSave": true,
    "python.testing.pytestEnabled": true
}
"#,
    );
    s
}

// ---------------------------------------------------------------------------
// .vscode/tasks.json
// ---------------------------------------------------------------------------
pub open spec fn vscode_tasks_json_text() -> Seq<char> {
    "{\n"@
        + r#"    "version": "2.0.0",
    "tasks": [
        {
            "label": "Run src.main (uv)",
            "type": "shell",
            "command": "uv run python -m src.main",
            "options": {
                "cwd": "${workspaceFolder}"
            },
            "problemMatcher": []
        }
    ]
}
"#@
}

/// Task definition that runs `src.main` through the environment manager.
pub fn vscode_tasks_json() -> (r: String)
    ensures
        r@ == vscode_tasks_json_text(),
{
    let mut s = String::from_str("{\n");
    s.append(
        r#"    "version": "2.0.0",
    "tasks": [
        {
            "label": "Run src.main (uv)",
            "type": "shell",
            "command": "uv run python -m src.main",
            "options": {
                "cwd": "${workspaceFolder}"
            },
            "problemMatcher": []
        }
    ]
}
"#,
    );
    s
}

// ---------------------------------------------------------------------------
// .env
// ---------------------------------------------------------------------------
pub open spec fn dotenv_text() -> Seq<char> {
    "PYTHONPATH=src\n"@ + "ENV=development\n"@
}

/// Environment file with the import search path and the environment name.
pub fn dotenv() -> (r: String)
    ensures
        r@ == dotenv_text(),
{
    let mut s = String::from_str("PYTHONPATH=src\n");
    s.append("ENV=development\n");
    s
}

// ---------------------------------------------------------------------------
// .envrc
// ---------------------------------------------------------------------------
pub open spec fn envrc_text() -> Seq<char> {
    "export "@ + "PYTHONPATH=src\ndotenv_if_exists .env\n"@
}

/// Shell hook exporting the search path and loading `.env` when present.
pub fn envrc() -> (r: String)
    ensures
        r@ == envrc_text(),
{
    let mut s = String::from_str("export ");
    s.append("PYTHONPATH=src\ndotenv_if_exists .env\n");
    s
}

// ---------------------------------------------------------------------------
// pyrefly.toml
// ---------------------------------------------------------------------------
pub open spec fn pyrefly_chunk_name() -> Seq<char> {
    "project = \""@
}

pub open spec fn pyrefly_chunk_version() -> Seq<char> {
    "\"\npython-version = \""@
}

pub open spec fn pyrefly_chunk_tail() -> Seq<char> {
    r#""

[paths]
src = "src"
notebooks = "Notebooks"
venv = ".venv"
env = ".env"

[imports]
roots = ["src"]

[tools]
linter = "ruff"
formatter = "ruff"

[testing]
runner = "pytest"
coverage = true
"#@
}

pub open spec fn pyrefly_toml_text(project: Seq<char>, py_full: Seq<char>) -> Seq<char> {
    pyrefly_chunk_name() + project + pyrefly_chunk_version() + py_full + pyrefly_chunk_tail()
}

/// Lint/type-check project configuration with name and python version.
pub fn pyrefly_toml(project: &str, py_full: &str) -> (r: String)
    ensures
        r@ == pyrefly_toml_text(project@, py_full@),
{
    let mut s = String::from_str("project = \"");
    s.append(project);
    s.append("\"\npython-version = \"");
    s.append(py_full);
    s.append(
        r#""

[paths]
src = "src"
notebooks = "Notebooks"
venv = ".venv"
env = ".env"

[imports]
roots = ["src"]

[tools]
linter = "ruff"
formatter = "ruff"

[testing]
runner = "pytest"
coverage = true
"#,
    );
    s
}

// ---------------------------------------------------------------------------
// pyrightconfig.json
// ---------------------------------------------------------------------------
pub open spec fn pyright_chunk_head() -> Seq<char> {
    "{\n"@ + "    \"pythonVersion\": \""@
}

pub open spec fn pyright_chunk_mid() -> Seq<char> {
    r#"",
    "pythonPlatform": "Linux",
    "typeCheckingMode": "standard",
    "include": ["src", "tests"],
    "exclude": ["**/__pycache__", ".venv"],
    "extraPaths": ["src", ".venv/lib/python"#@
}

pub open spec fn pyright_chunk_tail() -> Seq<char> {
    "/site-packages\"]\n}\n"@
}

pub open spec fn pyrightconfig_json_text(mm: Seq<char>) -> Seq<char> {
    pyright_chunk_head() + mm + pyright_chunk_mid() + mm + pyright_chunk_tail()
}

/// Static type-checker configuration with a versioned site-packages path.
pub fn pyrightconfig_json(mm: &str) -> (r: String)
    ensures
        r@ == pyrightconfig_json_text(mm@),
{
    let mut s = String::from_str("{\n");
    s.append("    \"pythonVersion\": \"");
    s.append(mm);
    s.append(
        r#"",
    "pythonPlatform": "Linux",
    "typeCheckingMode": "standard",
    "include": ["src", "tests"],
    "exclude": ["**/__pycache__", ".venv"],
    "extraPaths": ["src", ".venv/lib/python"#,
    );
    s.append(mm);
    s.append("/site-packages\"]\n}\n");
    s
}

// ---------------------------------------------------------------------------
// pyproject.toml
// ---------------------------------------------------------------------------
pub open spec fn pyproject_chunk_head() -> Seq<char> {
    "[project]\n"@ + "name = \""@
}

pub open spec fn pyproject_chunk_requires() -> Seq<char> {
    "\"\nversion = \"0.1.0\"\ndescription = \"A minimal Python project scaffolded with uv and VS Code.\"\nrequires-python = \">="@
}

pub open spec fn pyproject_chunk_ruff() -> Seq<char> {
    r#""
dependencies = []

[dependency-groups]
dev = [
    "pytest>=8.0",
    "pytest-cov>=5.0",
    "ruff>=0.5",
    "pyright>=1.1",
    "ipykernel>=6.29",
]

[tool.ruff]
line-length = 100
target-version = "py"#@
}

pub open spec fn pyproject_chunk_tail() -> Seq<char> {
    "\"\n"@
}

pub open spec fn pyproject_toml_text(
    project: Seq<char>,
    mm: Seq<char>,
    mm_nodec: Seq<char>,
) -> Seq<char> {
    pyproject_chunk_head() + project + pyproject_chunk_requires() + mm + pyproject_chunk_ruff()
        + mm_nodec + pyproject_chunk_tail()
}

/// Package manifest with the project name, the fixed initial version, the
/// minimum-python constraint from `mm` and the linter target from `mm_nodec`.
pub fn pyproject_toml(project: &str, mm: &str, mm_nodec: &str) -> (r: String)
    ensures
        r@ == pyproject_toml_text(project@, mm@, mm_nodec@),
{
    let mut s = String::from_str("[project]\n");
    s.append("name = \"");
    s.append(project);
    s.append(
        "\"\nversion = \"0.1.0\"\ndescription = \"A minimal Python project scaffolded with uv and VS Code.\"\nrequires-python = \">=",
    );
    s.append(mm);
    s.append(
        r#""
dependencies = []

[dependency-groups]
dev = [
    "pytest>=8.0",
    "pytest-cov>=5.0",
    "ruff>=0.5",
    "pyright>=1.1",
    "ipykernel>=6.29",
]

[tool.ruff]
line-length = 100
target-version = "py"#,
    );
    s.append(mm_nodec);
    s.append("\"\n");
    s
}

// ---------------------------------------------------------------------------
// .gitignore
// ---------------------------------------------------------------------------
pub open spec fn gitignore_text() -> Seq<char> {
    "__pycache__/\n"@
        + r#"*.pyc
.venv/
.pytest_cache/
.mypy_cache/
.ruff_cache/
.ipynb_checkpoints/
build/
dist/
htmlcov/
.coverage
.cache/
.env
"#@
}

/// Fixed ignore rules for caches, build artifacts and local environment.
pub fn gitignore() -> (r: String)
    ensures
        r@ == gitignore_text(),
{
    let mut s = String::from_str("__pycache__/\n");
    s.append(
        r#"*.pyc
.venv/
.pytest_cache/
.mypy_cache/
.ruff_cache/
.ipynb_checkpoints/
build/
dist/
htmlcov/
.coverage
.cache/
.env
"#,
    );
    s
}

// ---------------------------------------------------------------------------
// README.md
// ---------------------------------------------------------------------------
pub open spec fn readme_md_text(project: Seq<char>) -> Seq<char> {
    "# "@ + project
        + r#"

A minimal Python project scaffolded with uv and VS Code.

## Setup

    uv pip install -e ".[dev]"

## Run

    uv run python -m src.main

## Development

    make format
    make lint
    make test
    make typecheck
"#@
}

/// Project README with the project name as its heading.
pub fn readme_md(project: &str) -> (r: String)
    ensures
        r@ == readme_md_text(project@),
{
    let mut s = String::from_str("# ");
    s.append(project);
    s.append(
        r#"

A minimal Python project scaffolded with uv and VS Code.

## Setup

    uv pip install -e ".[dev]"

## Run

    uv run python -m src.main

## Development

    make format
    make lint
    make test
    make typecheck
"#,
    );
    s
}

// ---------------------------------------------------------------------------
// Makefile
// ---------------------------------------------------------------------------
pub open spec fn makefile_text() -> Seq<char> {
    ".PHONY:"@
        + " format lint test typecheck\n\nformat:\n\tuv run ruff format src tests\n\nlint:\n\tuv run ruff check src tests\n\ntest:\n\tuv run pytest --cov=src tests\n\ntypecheck:\n\tuv run pyright\n"@
}

/// Static convenience targets for formatting, linting, testing, type-checks.
pub fn app_make_file_creator() -> (r: String)
    ensures
        r@ == makefile_text(),
{
    let mut s = String::from_str(".PHONY:");
    s.append(
        " format lint test typecheck\n\nformat:\n\tuv run ruff format src tests\n\nlint:\n\tuv run ruff check src tests\n\ntest:\n\tuv run pytest --cov=src tests\n\ntypecheck:\n\tuv run pyright\n",
    );
    s
}

// ---------------------------------------------------------------------------
// src/app_logging/MyColoredFormatter.py
// ---------------------------------------------------------------------------
pub open spec fn app_logging_my_colored_formatter_py_text() -> Seq<char> {
    "import logging\n"@
        + r#"
RESET = "\x1b[0m"
COLORS = {
    logging.DEBUG: "\x1b[36m",
    logging.INFO: "\x1b[32m",
    logging.WARNING: "\x1b[33m",
    logging.ERROR: "\x1b[31m",
    logging.CRITICAL: "\x1b[35m",
}


class MyColoredFormatter(logging.Formatter):
    def format(self, record: logging.LogRecord) -> str:
        color = COLORS.get(record.levelno, RESET)
        message = super().format(record)
        return f"{color}{message}{RESET}"
"#@
}

/// Colorized log formatter module.
pub fn app_logging_my_colored_formatter_py() -> (r: String)
    ensures
        r@ == app_logging_my_colored_formatter_py_text(),
{
    let mut s = String::from_str("import logging\n");
    s.append(
        r#"
RESET = "\x1b[0m"
COLORS = {
    logging.DEBUG: "\x1b[36m",
    logging.INFO: "\x1b[32m",
    logging.WARNING: "\x1b[33m",
    logging.ERROR: "\x1b[31m",
    logging.CRITICAL: "\x1b[35m",
}


class MyColoredFormatter(logging.Formatter):
    def format(self, record: logging.LogRecord) -> str:
        color = COLORS.get(record.levelno, RESET)
        message = super().format(record)
        return f"{color}{message}{RESET}"
"#,
    );
    s
}

// ---------------------------------------------------------------------------
// src/app_logging/config07.json
// ---------------------------------------------------------------------------
pub open spec fn app_logging_config07_json_text() -> Seq<char> {
    "{\n"@
        + r#"    "version": 1,
    "disable_existing_loggers": false,
    "formatters": {
        "plain": {
            "format": "%(asctime)s %(levelname)s %(name)s %(message)s"
        },
        "json": {
            "()": "src.app_logging.myCustomJsonClass01.MyJsonFormatter"
        }
    },
    "filters": {
        "no_errors": {
            "()": "src.app_logging.myFilters.NonErrorFilter"
        }
    },
    "handlers": {
        "stdout": {
            "class": "logging.StreamHandler",
            "level": "INFO",
            "formatter": "plain",
            "stream": "ext://sys.stdout",
            "filters": ["no_errors"]
        },
        "stderr": {
            "class": "logging.StreamHandler",
            "level": "WARNING",
            "formatter": "plain",
            "stream": "ext://sys.stderr"
        }
    },
    "loggers": {
        "root": {
            "level": "DEBUG",
            "handlers": ["stdout", "stderr"]
        }
    }
}
"#@
}

/// JSON-based logging configuration.
pub fn app_logging_config07_json() -> (r: String)
    ensures
        r@ == app_logging_config07_json_text(),
{
    let mut s = String::from_str("{\n");
    s.append(
        r#"    "version": 1,
    "disable_existing_loggers": false,
    "formatters": {
        "plain": {
            "format": "%(asctime)s %(levelname)s %(name)s %(message)s"
        },
        "json": {
            "()": "src.app_logging.myCustomJsonClass01.MyJsonFormatter"
        }
    },
    "filters": {
        "no_errors": {
            "()": "src.app_logging.myFilters.NonErrorFilter"
        }
    },
    "handlers": {
        "stdout": {
            "class": "logging.StreamHandler",
            "level": "INFO",
            "formatter": "plain",
            "stream": "ext://sys.stdout",
            "filters": ["no_errors"]
        },
        "stderr": {
            "class": "logging.StreamHandler",
            "level": "WARNING",
            "formatter": "plain",
            "stream": "ext://sys.stderr"
        }
    },
    "loggers": {
        "root": {
            "level": "DEBUG",
            "handlers": ["stdout", "stderr"]
        }
    }
}
"#,
    );
    s
}

// ---------------------------------------------------------------------------
// src/app_logging/constants.py
// ---------------------------------------------------------------------------
pub open spec fn app_logging_constants_py_text() -> Seq<char> {
    "LOG_DIR"@
        + r#" = "logs"
LOG_FILE = "app.log"
DEFAULT_LEVEL = "INFO"
DATE_FORMAT = "%Y-%m-%dT%H:%M:%S%z"
"#@
}

/// Shared logging constants module.
pub fn app_logging_constants_py() -> (r: String)
    ensures
        r@ == app_logging_constants_py_text(),
{
    let mut s = String::from_str("LOG_DIR");
    s.append(
        r#" = "logs"
LOG_FILE = "app.log"
DEFAULT_LEVEL = "INFO"
DATE_FORMAT = "%Y-%m-%dT%H:%M:%S%z"
"#,
    );
    s
}

// ---------------------------------------------------------------------------
// src/app_logging/glogger.py
// ---------------------------------------------------------------------------
pub open spec fn app_logging_glogger_py_text() -> Seq<char> {
    "import json\n"@
        + r#"import logging.config
import pathlib

from .constants import DEFAULT_LEVEL


def get_logger(name: str) -> logging.Logger:
    config_path = pathlib.Path(__file__).parent / "config07.json"
    with open(config_path) as handle:
        config = json.load(handle)
    logging.config.dictConfig(config)
    logger = logging.getLogger(name)
    logger.setLevel(DEFAULT_LEVEL)
    return logger
"#@
}

/// Logger-construction module loading the JSON configuration.
pub fn app_logging_glogger_py() -> (r: String)
    ensures
        r@ == app_logging_glogger_py_text(),
{
    let mut s = String::from_str("import json\n");
    s.append(
        r#"import logging.config
import pathlib

from .constants import DEFAULT_LEVEL


def get_logger(name: str) -> logging.Logger:
    config_path = pathlib.Path(__file__).parent / "config07.json"
    with open(config_path) as handle:
        config = json.load(handle)
    logging.config.dictConfig(config)
    logger = logging.getLogger(name)
    logger.setLevel(DEFAULT_LEVEL)
    return logger
"#,
    );
    s
}

// ---------------------------------------------------------------------------
// src/app_logging/myCustomJsonClass01.py
// ---------------------------------------------------------------------------
pub open spec fn app_logging_my_custom_json_class01_py_text() -> Seq<char> {
    "import datetime"@
        + r#" as dt
import json
import logging


class MyJsonFormatter(logging.Formatter):
    def format(self, record: logging.LogRecord) -> str:
        payload = {
            "timestamp": dt.datetime.fromtimestamp(record.created).isoformat(),
            "level": record.levelname,
            "logger": record.name,
            "message": record.getMessage(),
        }
        if record.exc_info is not None:
            payload["exc_info"] = self.formatException(record.exc_info)
        return json.dumps(payload, default=str)
"#@
}

/// Custom JSON log-record encoder module.
pub fn app_logging_my_custom_json_class01_py() -> (r: String)
    ensures
        r@ == app_logging_my_custom_json_class01_py_text(),
{
    let mut s = String::from_str("import datetime");
    s.append(
        r#" as dt
import json
import logging


class MyJsonFormatter(logging.Formatter):
    def format(self, record: logging.LogRecord) -> str:
        payload = {
            "timestamp": dt.datetime.fromtimestamp(record.created).isoformat(),
            "level": record.levelname,
            "logger": record.name,
            "message": record.getMessage(),
        }
        if record.exc_info is not None:
            payload["exc_info"] = self.formatException(record.exc_info)
        return json.dumps(payload, default=str)
"#,
    );
    s
}

// ---------------------------------------------------------------------------
// src/app_logging/myFilters.py
// ---------------------------------------------------------------------------
pub open spec fn app_logging_my_filters_py_text() -> Seq<char> {
    "import logging\n"@
        + r#"

class NonErrorFilter(logging.Filter):
    def filter(self, record: logging.LogRecord) -> bool:
        return record.levelno < logging.WARNING
"#@
}

/// Logging filter module keeping non-error records on standard output.
pub fn app_logging_my_filters_py() -> (r: String)
    ensures
        r@ == app_logging_my_filters_py_text(),
{
    let mut s = String::from_str("import logging\n");
    s.append(
        r#"

class NonErrorFilter(logging.Filter):
    def filter(self, record: logging.LogRecord) -> bool:
        return record.levelno < logging.WARNING
"#,
    );
    s
}

// ---------------------------------------------------------------------------
// Every rendered file's text is non-empty
// ---------------------------------------------------------------------------
/// Each template renders non-empty text, whatever the parameters; the two
/// package markers, which are rendered as exactly empty files, are not
/// templates and are not listed here.
pub proof fn lemma_templates_nonempty(
    project: Seq<char>,
    py_full: Seq<char>,
    mm: Seq<char>,
    mm_nodec: Seq<char>,
)
    ensures
        main_py_text().len() > 0,
        vscode_launch_json_text().len() > 0,
        vscode_settings_json_text().len() > 0,
        vscode_tasks_json_text().len() > 0,
        dotenv_text().len() > 0,
        envrc_text().len() > 0,
        pyrefly_toml_text(project, py_full).len() > 0,
        pyrightconfig_json_text(mm).len() > 0,
        pyproject_toml_text(project, mm, mm_nodec).len() > 0,
        gitignore_text().len() > 0,
        readme_md_text(project).len() > 0,
        makefile_text().len() > 0,
        app_logging_my_colored_formatter_py_text().len() > 0,
        app_logging_config07_json_text().len() > 0,
        app_logging_constants_py_text().len() > 0,
        app_logging_glogger_py_text().len() > 0,
        app_logging_my_custom_json_class01_py_text().len() > 0,
        app_logging_my_filters_py_text().len() > 0,
{
    reveal_strlit("def ");
    reveal_strlit("{\n");
    reveal_strlit("PYTHONPATH=src\n");
    reveal_strlit("export ");
    reveal_strlit("project = \"");
    reveal_strlit("[project]\n");
    reveal_strlit("__pycache__/\n");
    reveal_strlit("# ");
    reveal_strlit(".PHONY:");
    reveal_strlit("import logging\n");
    reveal_strlit("LOG_DIR");
    reveal_strlit("import json\n");
    reveal_strlit("import datetime");
}

// ---------------------------------------------------------------------------
// The rendered text carries the inputs verbatim
// ---------------------------------------------------------------------------
/// `needle` occurs in `hay` as one contiguous run of characters.
pub open spec fn contains_seq(hay: Seq<char>, needle: Seq<char>) -> bool {
    exists|i: int|
        0 <= i && i + needle.len() <= hay.len() && #[trigger] hay.subrange(i, i + needle.len())
            == needle
}

/// The inputs survive rendering verbatim: the project name stands in the
/// package manifest's name field, the lint configuration's name field and
/// the README heading; the full version string in the lint configuration;
/// and the derived `mm` in the type-checker configuration and the manifest.
pub proof fn lemma_inputs_embedded(
    project: Seq<char>,
    py_full: Seq<char>,
    mm: Seq<char>,
    mm_nodec: Seq<char>,
)
    ensures
        contains_seq(pyproject_toml_text(project, mm, mm_nodec), project),
        contains_seq(pyproject_toml_text(project, mm, mm_nodec), mm),
        contains_seq(pyrefly_toml_text(project, py_full), project),
        contains_seq(pyrefly_toml_text(project, py_full), py_full),
        contains_seq(pyrightconfig_json_text(mm), mm),
        contains_seq(readme_md_text(project), project),
{
    let tp = pyproject_toml_text(project, mm, mm_nodec);
    let i1 = pyproject_chunk_head().len() as int;
    assert(tp.subrange(i1, i1 + project.len()) =~= project);
    assert(contains_seq(tp, project));
    let i2 = (pyproject_chunk_head() + project + pyproject_chunk_requires()).len() as int;
    assert(tp.subrange(i2, i2 + mm.len()) =~= mm);
    assert(contains_seq(tp, mm));
    let tr = pyrefly_toml_text(project, py_full);
    let i3 = pyrefly_chunk_name().len() as int;
    assert(tr.subrange(i3, i3 + project.len()) =~= project);
    assert(contains_seq(tr, project));
    let i4 = (pyrefly_chunk_name() + project + pyrefly_chunk_version()).len() as int;
    assert(tr.subrange(i4, i4 + py_full.len()) =~= py_full);
    assert(contains_seq(tr, py_full));
    let tg = pyrightconfig_json_text(mm);
    let i5 = pyright_chunk_head().len() as int;
    assert(tg.subrange(i5, i5 + mm.len()) =~= mm);
    assert(contains_seq(tg, mm));
    let tm = readme_md_text(project);
    let i6 = "# "@.len() as int;
    assert(tm.subrange(i6, i6 + project.len()) =~= project);
    assert(contains_seq(tm, project));
}

} // verus!
