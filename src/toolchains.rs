use vstd::prelude::*;
use crate::exec::Platform;
use crate::probe::{ensure_tool_present, locate_command};

verus! {

/// A language whose toolchain this program can set up.
#[derive(Clone, Copy, Debug, PartialEq, Eq, Structural)]
pub enum Language {
    Rust,
    Python,
}

/// The language that a configuration tag names, if it is supported.
pub open spec fn language_of(tag: Seq<char>) -> Option<Language> {
    if tag == "rust"@ {
        Some(Language::Rust)
    } else if tag == "python"@ {
        Some(Language::Python)
    } else {
        None
    }
}

/// A language tag is accepted when it names a supported language whose
/// toolchain manager is present.
pub open spec fn language_valid(tag: Seq<char>, toolchain_present: bool) -> bool {
    language_of(tag) is Some && toolchain_present
}

impl Language {
    /// The tool that must be on the search path for the language.
    pub open spec fn toolchain(self) -> Seq<char> {
        match self {
            Language::Rust => "rustup"@,
            Language::Python => "python3"@,
        }
    }

    /// The command run once the language is accepted, if any: compiled
    /// languages build the project, interpreted ones have nothing to do.
    pub open spec fn default_action(self) -> Option<Seq<char>> {
        match self {
            Language::Rust => Some("cargo build"@),
            Language::Python => None,
        }
    }

    /// Reads a language tag of the configuration; an unknown tag gives `None`.
    pub fn from_tag(tag: &str) -> (r: Option<Language>)
        ensures
            r == language_of(tag@),
    {
        let tag = String::from_str(tag);
        if tag == String::from_str("rust") {
            Some(Language::Rust)
        } else if tag == String::from_str("python") {
            Some(Language::Python)
        } else {
            None
        }
    }

    /// The name of the tool that must be present for the language.
    pub fn toolchain_tool(&self) -> (r: &'static str)
        ensures
            r@ == self.toolchain(),
    {
        match self {
            Language::Rust => "rustup",
            Language::Python => "python3",
        }
    }

    /// The command to run once the language is accepted, if any.
    pub fn default_command(&self) -> (r: Option<String>)
        ensures
            match r {
                Some(c) => self.default_action() == Some(c@),
                None => self.default_action() is None,
            },
    {
        match self {
            Language::Rust => Some(String::from_str("cargo build")),
            Language::Python => None,
        }
    }
}

/// Whether the language tag is accepted, given what the probe for its
/// toolchain reported. An unsupported tag is refused whatever the probe says.
pub fn validate_language(tag: &str, toolchain_present: bool) -> (r: bool)
    ensures
        r == language_valid(tag@, toolchain_present),
{
    match Language::from_tag(tag) {
        Some(_) => toolchain_present,
        None => false,
    }
}

/// A container engine that a configuration may ask for.
#[derive(Clone, Copy, Debug, PartialEq, Eq, Structural)]
pub enum ContainerSystem {
    Docker,
}

/// The container engine that a configuration name stands for, if supported.
pub open spec fn container_of(name: Seq<char>) -> Option<ContainerSystem> {
    if name == "docker"@ {
        Some(ContainerSystem::Docker)
    } else {
        None
    }
}

/// A container name is accepted when it names a supported engine whose
/// program is present.
pub open spec fn container_valid(name: Seq<char>, engine_present: bool) -> bool {
    container_of(name) is Some && engine_present
}

impl ContainerSystem {
    /// The program that must be on the search path for the engine.
    pub open spec fn engine(self) -> Seq<char> {
        match self {
            ContainerSystem::Docker => "docker"@,
        }
    }

    /// Reads a container name of the configuration; an unknown name gives `None`.
    pub fn from_name(name: &str) -> (r: Option<ContainerSystem>)
        ensures
            r == container_of(name@),
    {
        if String::from_str(name) == String::from_str("docker") {
            Some(ContainerSystem::Docker)
        } else {
            None
        }
    }

    /// The name of the program that must be present for the engine.
    pub fn engine_tool(&self) -> (r: &'static str)
        ensures
            r@ == self.engine(),
    {
        match self {
            ContainerSystem::Docker => "docker",
        }
    }
}

/// Whether the container name is accepted, given what the probe for its
/// engine reported. An empty or unknown name is refused.
pub fn validate_container_system(container_system: &str, engine_present: bool) -> (r: bool)
    ensures
        r == container_valid(container_system@, engine_present),
        container_system@.len() == 0 ==> !r,
{
    proof {
        reveal_strlit("docker");
    }
    if container_system.is_empty() {
        return false;
    }
    match ContainerSystem::from_name(container_system) {
        Some(_) => engine_present,
        None => false,
    }
}

/// The probe for rustup, the Rust toolchain installer.
pub fn ensure_rustup_present(platform: Platform) -> (cmd: String)
    ensures
        cmd@ == locate_command(platform, "rustup"@),
{
    ensure_tool_present("rustup", platform)
}

/// The probe for docker; a docker installed off the search path is not found.
pub fn ensure_docker_present(platform: Platform) -> (cmd: String)
    ensures
        cmd@ == locate_command(platform, "docker"@),
{
    ensure_tool_present("docker", platform)
}

} // verus!
