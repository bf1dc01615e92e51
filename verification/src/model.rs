//! The data the pipeline works on, and its mathematical model.

use vstd::prelude::*;

verus! {

/// One resolvable package of the workspace: its exact name and the
/// filesystem path of the manifest file that defines it.
#[derive(Debug, Clone)]
pub struct Package {
    pub name: String,
    pub manifest_path: String,
}

/// The directions for the final launch step: which editor command to spawn,
/// and the package's source directory to hand it as the sole argument.
#[derive(Debug, Clone)]
pub struct LaunchPlan {
    pub editor: String,
    pub package_path: String,
}

/// Every way a run can fail before the editor is spawned. Each condition is
/// fatal: it is raised at its origin and propagated unchanged to the caller.
#[derive(Debug, Clone)]
pub enum OpenError {
    /// No package in the workspace metadata has the requested name.
    PackageNotFound(String),
    /// A manifest path had no derivable parent directory.
    PathError,
    /// None of the three editor configuration values is set.
    EditorNotConfigured,
}

/// Whether the metadata holds at least one package with this name.
pub open spec fn has_package(packages: Seq<Package>, name: Seq<char>) -> bool {
    exists|i: int| 0 <= i < packages.len() && #[trigger] packages[i].name@ == name
}

/// The first package with this name, if any: packages are scanned in the
/// order the metadata lists them, and the first exact match wins.
pub open spec fn resolve_package(packages: Seq<Package>, name: Seq<char>) -> Option<Package>
    decreases packages.len(),
{
    if packages.len() == 0 {
        None
    } else if packages[0].name@ == name {
        Some(packages[0])
    } else {
        resolve_package(packages.skip(1), name)
    }
}

/// The position of the first package with this name; equals the length of
/// the sequence when no package matches.
pub open spec fn first_match_at(packages: Seq<Package>, name: Seq<char>) -> int
    decreases packages.len(),
{
    if packages.len() == 0 {
        0
    } else if packages[0].name@ == name {
        0
    } else {
        1 + first_match_at(packages.skip(1), name)
    }
}

/// The editor the configuration selects: the first of the three values that
/// is set at all, in the fixed priority order tool-specific, then visual,
/// then general. A value set to the empty string is still set.
pub open spec fn editor_choice(
    cargo_editor: Option<Seq<char>>,
    visual: Option<Seq<char>>,
    editor: Option<Seq<char>>,
) -> Option<Seq<char>> {
    if cargo_editor is Some {
        cargo_editor
    } else if visual is Some {
        visual
    } else {
        editor
    }
}

/// The view of an optional configuration value.
pub open spec fn env_view(value: Option<String>) -> Option<Seq<char>> {
    match value {
        Some(s) => Some(s@),
        None => None,
    }
}

/// What the path library returns as the parent of a path: the path without
/// its final component, or nothing when the path terminates in a root or
/// prefix or is empty. The result depends on the path's characters alone.
pub uninterp spec fn parent_of(path: Seq<char>) -> Option<Seq<char>>;

/// The package's source directory derived from its manifest path: the
/// manifest's parent directory. A path with no directory component — the
/// parent is empty or missing — has no derivable source directory.
pub open spec fn derived_dir(path: Seq<char>) -> Option<Seq<char>> {
    match parent_of(path) {
        Some(dir) => if dir.len() > 0 {
            Some(dir)
        } else {
            None
        },
        None => None,
    }
}

/// How far a run gets and with what: the whole pipeline as one value.
pub enum Outcome {
    /// Every step succeeded: spawn this editor on this directory.
    Launch { editor: Seq<char>, dir: Seq<char> },
    /// No package has the requested name; nothing later runs.
    NotFound,
    /// The matched package's manifest path has no parent directory.
    NoParent,
    /// No editor is configured; the package and its directory were resolved.
    NoEditor,
}

/// The pipeline, end to end: find the first package with the requested name,
/// derive its manifest's parent directory, choose the editor. The first step
/// that fails decides the outcome; later steps are never consulted.
pub open spec fn pipeline(
    packages: Seq<Package>,
    name: Seq<char>,
    cargo_editor: Option<Seq<char>>,
    visual: Option<Seq<char>>,
    editor: Option<Seq<char>>,
) -> Outcome {
    match resolve_package(packages, name) {
        None => Outcome::NotFound,
        Some(p) => match derived_dir(p.manifest_path@) {
            None => Outcome::NoParent,
            Some(dir) => match editor_choice(cargo_editor, visual, editor) {
                None => Outcome::NoEditor,
                Some(chosen) => Outcome::Launch { editor: chosen, dir },
            },
        },
    }
}

} // verus!
