//! Decisions of the scaffolding step that touch nothing outside the library:
//! which language has a scaffolding step at all, what a requested project
//! name means, and which package manager would install a missing Python.

use vstd::prelude::*;

use crate::editor::InstallTool;
use crate::languages::ProgrammingLanguage;
use crate::strutil::{contains_seq, str_contains, str_eq};
use crate::text_input::{trim_str, trimmed};

verus! {

/// What the interactive setup runs for a chosen language: only Rust and C
/// have a scaffolding step; every other language gets a not-implemented
/// notice.
#[derive(Debug, Clone, Copy, PartialEq, Eq, Structural)]
pub enum ScaffoldAction {
    SetupRust,
    SetupC,
    NotImplemented,
}

/// The scaffolding step for a language.
pub open spec fn scaffold_action_spec(lang: ProgrammingLanguage) -> ScaffoldAction {
    match lang {
        ProgrammingLanguage::Rust => ScaffoldAction::SetupRust,
        ProgrammingLanguage::C => ScaffoldAction::SetupC,
        _ => ScaffoldAction::NotImplemented,
    }
}

/// Decides what the setup screen's caller runs for the chosen language.
pub fn scaffold_action(lang: ProgrammingLanguage) -> (r: ScaffoldAction)
    ensures
        r == scaffold_action_spec(lang),
{
    match lang {
        ProgrammingLanguage::Rust => ScaffoldAction::SetupRust,
        ProgrammingLanguage::C => ScaffoldAction::SetupC,
        _ => ScaffoldAction::NotImplemented,
    }
}

/// What the scaffolding glue should do for a requested project name.
#[derive(Debug, PartialEq, Eq)]
pub enum ProjectPlan {
    /// Set the project up in the current directory.
    UseCurrentDir,
    /// Create a directory of the carried (trimmed) name and set up there.
    CreateNamed(String),
    /// Do nothing: no usable name was given.
    Abort,
}

/// Decides the Rust scaffolding step for a requested name: nothing for a
/// blank name, the current directory for `.`, otherwise a new directory named
/// by the trimmed name.
pub fn rust_project_plan(name: &str) -> (r: ProjectPlan)
    ensures
        trimmed(name@).len() == 0 ==> r == ProjectPlan::Abort,
        trimmed(name@) == "."@ ==> r == ProjectPlan::UseCurrentDir,
        trimmed(name@).len() > 0 && trimmed(name@) != "."@ ==> (r matches ProjectPlan::CreateNamed(
            s,
        ) && s@ == trimmed(name@)),
{
    proof {
        reveal_strlit(".");
    }
    let t = trim_str(name);
    if t.as_str().is_empty() {
        ProjectPlan::Abort
    } else if str_eq(t.as_str(), ".") {
        ProjectPlan::UseCurrentDir
    } else {
        ProjectPlan::CreateNamed(t)
    }
}

/// Decides the C and Python scaffolding step for a requested name: the
/// current directory for a blank name, otherwise a new directory named by the
/// trimmed name.
pub fn dir_project_plan(name: &str) -> (r: ProjectPlan)
    ensures
        trimmed(name@).len() == 0 ==> r == ProjectPlan::UseCurrentDir,
        trimmed(name@).len() > 0 ==> (r matches ProjectPlan::CreateNamed(s) && s@ == trimmed(
            name@,
        )),
{
    let t = trim_str(name);
    if t.as_str().is_empty() {
        ProjectPlan::UseCurrentDir
    } else {
        ProjectPlan::CreateNamed(t)
    }
}

/// The package manager that would install Python, decided from the system
/// description the host reports.
pub open spec fn python_install_tool_spec(os_info: Seq<char>) -> InstallTool {
    if contains_seq(os_info, "Ubuntu"@) {
        InstallTool::Apt
    } else if contains_seq(os_info, "Fedora"@) {
        InstallTool::Dnf
    } else if contains_seq(os_info, "Arch"@) {
        InstallTool::Pacman
    } else {
        InstallTool::Manual
    }
}

/// Decides which package manager the Python install step should run, from
/// the system description the host reports; unrecognized systems are asked to
/// install by hand.
pub fn python_install_tool(os_info: &str) -> (r: InstallTool)
    ensures
        r == python_install_tool_spec(os_info@),
{
    if str_contains(os_info, "Ubuntu") {
        InstallTool::Apt
    } else if str_contains(os_info, "Fedora") {
        InstallTool::Dnf
    } else if str_contains(os_info, "Arch") {
        InstallTool::Pacman
    } else {
        InstallTool::Manual
    }
}

} // verus!
