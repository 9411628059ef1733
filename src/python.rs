use vstd::prelude::*;
use crate::exec::{Plan, Platform};
use crate::git::string_views;
use crate::probe::{ensure_tool_present, locate_command};

verus! {

/// A Python release that can be installed.
#[derive(Clone, Copy, Debug, PartialEq, Eq, Structural)]
pub enum PythonVersion {
    Python3_10,
    Python3_9,
    Python3_8,
    Python3_7,
}

/// A tool that manages a Python project's dependencies.
#[derive(Clone, Copy, Debug, PartialEq, Eq, Structural)]
pub enum PyToolchain {
    Poetry,
    Virtualenv,
    Pipenv,
}

/// The release number as package names write it.
pub open spec fn version_number(v: PythonVersion) -> Seq<char> {
    match v {
        PythonVersion::Python3_10 => "3.10"@,
        PythonVersion::Python3_9 => "3.9"@,
        PythonVersion::Python3_8 => "3.8"@,
        PythonVersion::Python3_7 => "3.7"@,
    }
}

/// The commands that install release `v` with the platform's package
/// manager: Homebrew on macOS, Chocolatey on Windows, apt-get from the
/// deadsnakes archive on Linux; none elsewhere.
pub open spec fn python_install_commands(v: PythonVersion, platform: Platform) -> Seq<Seq<char>> {
    match platform {
        Platform::MacOs => seq!["brew install python@"@ + version_number(v)],
        Platform::Windows => seq!["choco install python-"@ + version_number(v)],
        Platform::Linux => seq![
            "add-apt-repository ppa:deadsnakes/ppa"@,
            "apt-get install python"@ + version_number(v),
        ],
        Platform::Other => Seq::empty(),
    }
}

/// The commands that install a project's dependencies with `toolchain`.
pub open spec fn setup_commands_of(toolchain: PyToolchain) -> Seq<Seq<char>> {
    match toolchain {
        PyToolchain::Poetry => seq!["poetry install"@],
        PyToolchain::Virtualenv => seq![
            "virtualenv -p python3 .venv"@,
            ".venv/bin/pip install -r requirements.txt"@,
        ],
        PyToolchain::Pipenv => seq!["pipenv install"@],
    }
}

/// The release number of `python_version`, as in `3.10`.
pub fn calc_ver(python_version: &PythonVersion) -> (r: &'static str)
    ensures
        r@ == version_number(*python_version),
{
    match python_version {
        PythonVersion::Python3_10 => "3.10",
        PythonVersion::Python3_9 => "3.9",
        PythonVersion::Python3_8 => "3.8",
        PythonVersion::Python3_7 => "3.7",
    }
}

/// `prefix` followed by the release number of `v`.
fn versioned(prefix: &str, v: &PythonVersion) -> (r: String)
    ensures
        r@ == prefix@ + version_number(*v),
{
    let mut r = String::from_str(prefix);
    r.append(calc_ver(v));
    r
}

/// The plan that installs `python_version` on `platform`. Only the Linux
/// plan needs elevated rights; a platform without a known package manager
/// gets an empty plan.
pub fn install_python(python_version: &PythonVersion, platform: Platform) -> (p: Plan)
    ensures
        string_views(p.commands@) == python_install_commands(*python_version, platform),
        p.requires_elevator == (platform == Platform::Linux),
{
    let mut p = Plan::new();
    match platform {
        Platform::MacOs => {
            p.commands.push(versioned("brew install python@", python_version));
        },
        Platform::Windows => {
            p.commands.push(versioned("choco install python-", python_version));
        },
        Platform::Linux => {
            p.requires_elevator = true;
            p.commands.push(String::from_str("add-apt-repository ppa:deadsnakes/ppa"));
            p.commands.push(versioned("apt-get install python", python_version));
        },
        Platform::Other => {},
    }
    assert(string_views(p.commands@) =~= python_install_commands(*python_version, platform));
    p
}

/// The plan that installs the project's dependencies with `toolchain`, run
/// from the project's directory.
pub fn initial_setup(toolchain: &PyToolchain) -> (p: Plan)
    ensures
        string_views(p.commands@) == setup_commands_of(*toolchain),
        !p.requires_elevator,
{
    let mut p = Plan::new();
    match toolchain {
        PyToolchain::Poetry => {
            p.commands.push(String::from_str("poetry install"));
        },
        PyToolchain::Virtualenv => {
            p.commands.push(String::from_str("virtualenv -p python3 .venv"));
            p.commands.push(String::from_str(".venv/bin/pip install -r requirements.txt"));
        },
        PyToolchain::Pipenv => {
            p.commands.push(String::from_str("pipenv install"));
        },
    }
    assert(string_views(p.commands@) =~= setup_commands_of(*toolchain));
    p
}

/// The probe for the `python3` interpreter.
pub fn ensure_python_present(platform: Platform) -> (cmd: String)
    ensures
        cmd@ == locate_command(platform, "python3"@),
{
    ensure_tool_present("python3", platform)
}

/// The probe for the `venv` command of python3-virtualenv.
pub fn ensure_virtualenv(platform: Platform) -> (cmd: String)
    ensures
        cmd@ == locate_command(platform, "venv"@),
{
    ensure_tool_present("venv", platform)
}

/// The probe for Poetry; only a `poetry` on the search path is found.
pub fn ensure_poetry_present(platform: Platform) -> (cmd: String)
    ensures
        cmd@ == locate_command(platform, "poetry"@),
{
    ensure_tool_present("poetry", platform)
}

} // verus!
