//! The editors the tool can open once a project is set up, and the decision
//! of how the editor would be installed on the current host.

use vstd::prelude::*;

use crate::strutil::str_eq;

verus! {

/// The editors a user may choose between.
#[derive(Debug, Clone, Copy, PartialEq, Eq, Structural)]
pub enum ValidEditors {
    Code,
    Intellij,
}

/// The package manager the glue should install the editor with, decided from
/// the reported host name; hosts the tool does not recognize are asked to
/// install by hand.
#[derive(Debug, Clone, Copy, PartialEq, Eq, Structural)]
pub enum InstallTool {
    Apt,
    Dnf,
    Pacman,
    Manual,
}

/// The install tool chosen for a host name.
pub open spec fn install_tool_spec(host: Seq<char>) -> InstallTool {
    if host == "debian"@ || host == "ubuntu"@ {
        InstallTool::Apt
    } else if host == "fedora"@ {
        InstallTool::Dnf
    } else if host == "arch"@ {
        InstallTool::Pacman
    } else {
        InstallTool::Manual
    }
}

/// Decides which package manager the install step should run, from the host
/// name the system reports.
pub fn editor_install_tool(host: &str) -> (r: InstallTool)
    ensures
        r == install_tool_spec(host@),
{
    if str_eq(host, "debian") || str_eq(host, "ubuntu") {
        InstallTool::Apt
    } else if str_eq(host, "fedora") {
        InstallTool::Dnf
    } else if str_eq(host, "arch") {
        InstallTool::Pacman
    } else {
        InstallTool::Manual
    }
}

} // verus!
