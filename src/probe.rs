use vstd::prelude::*;
use crate::exec::Platform;

verus! {

/// The command that looks `tool` up on the search path: `where` on Windows,
/// `which` elsewhere. It succeeds exactly when the tool is found.
pub open spec fn locate_command(platform: Platform, tool: Seq<char>) -> Seq<char> {
    if platform == Platform::Windows {
        "where "@ + tool
    } else {
        "which "@ + tool
    }
}

/// The probe for `tool`: a command whose success means that the tool is on
/// the search path. A tool installed elsewhere is reported absent.
pub fn ensure_tool_present(tool: &str, platform: Platform) -> (cmd: String)
    ensures
        cmd@ == locate_command(platform, tool@),
{
    let mut cmd = match platform {
        Platform::Windows => String::from_str("where "),
        _ => String::from_str("which "),
    };
    cmd.append(tool);
    cmd
}

/// The probe for a package manager that only exists on `home`: none on other
/// platforms, where the manager counts as absent without running anything.
pub open spec fn manager_probe(
    platform: Platform,
    home: Platform,
    tool: Seq<char>,
    r: Option<String>,
) -> bool {
    match r {
        Some(cmd) => platform == home && cmd@ == locate_command(platform, tool),
        None => platform != home,
    }
}

/// The probe for Homebrew, which only macOS has.
pub fn check_homebrew_present(platform: Platform) -> (r: Option<String>)
    ensures
        manager_probe(platform, Platform::MacOs, "brew"@, r),
{
    if platform == Platform::MacOs {
        Some(ensure_tool_present("brew", platform))
    } else {
        None
    }
}

/// The probe for apt-get, looked for on Linux only.
pub fn check_aptget_present(platform: Platform) -> (r: Option<String>)
    ensures
        manager_probe(platform, Platform::Linux, "apt-get"@, r),
{
    if platform == Platform::Linux {
        Some(ensure_tool_present("apt-get", platform))
    } else {
        None
    }
}

/// The probe for Chocolatey, looked for on Windows only.
pub fn check_choco_present(platform: Platform) -> (r: Option<String>)
    ensures
        manager_probe(platform, Platform::Windows, "choco"@, r),
{
    if platform == Platform::Windows {
        Some(ensure_tool_present("choco", platform))
    } else {
        None
    }
}

} // verus!
