//! The whole run, from resolved metadata to a launch plan.

use vstd::prelude::*;

use crate::editor::get_editor_path;
use crate::model::derived_dir;
use crate::model::editor_choice;
use crate::model::env_view;
use crate::model::first_match_at;
use crate::model::has_package;
use crate::model::pipeline;
use crate::model::resolve_package;
use crate::model::LaunchPlan;
use crate::model::OpenError;
use crate::model::Outcome;
use crate::model::Package;
use crate::paths::get_package_path;
use crate::resolve::get_package;
use crate::resolve::lemma_resolve_first_match;

verus! {

/// Runs the pipeline on already-resolved inputs: the requested package name,
/// the workspace's package list, and the three editor configuration values
/// in priority order. Returns the launch plan — which editor to spawn on
/// which directory — or the error of the first step that failed; the result
/// is exactly the pipeline's outcome on these inputs.
pub fn try_main(
    package_name: &String,
    packages: &Vec<Package>,
    cargo_editor: Option<String>,
    visual: Option<String>,
    editor: Option<String>,
) -> (r: Result<LaunchPlan, OpenError>)
    ensures
        ({
            let out = pipeline(
                packages@,
                package_name@,
                env_view(cargo_editor),
                env_view(visual),
                env_view(editor),
            );
            match r {
                Ok(plan) => out == (Outcome::Launch {
                    editor: plan.editor@,
                    dir: plan.package_path@,
                }),
                Err(e) => match e {
                    OpenError::PackageNotFound(n) => n@ == package_name@ && out
                        == Outcome::NotFound,
                    OpenError::PathError => out == Outcome::NoParent,
                    OpenError::EditorNotConfigured => out == Outcome::NoEditor,
                },
            }
        }),
{
    let package = match get_package(package_name, packages) {
        Ok(p) => p,
        Err(e) => {
            return Err(e);
        },
    };
    let package_path = match get_package_path(package) {
        Ok(dir) => dir,
        Err(e) => {
            return Err(e);
        },
    };
    let editor_path = match get_editor_path(cargo_editor, visual, editor) {
        Ok(chosen) => chosen,
        Err(e) => {
            return Err(e);
        },
    };
    Ok(LaunchPlan { editor: editor_path, package_path })
}

/// Law: when the metadata holds a package with the requested name, the run
/// never fails with a missing package; the package the resolver settles on
/// is the first match, and whenever the run reaches a launch, its directory
/// is exactly that package's manifest parent — and only that.
pub proof fn lemma_found_package_targets_parent(
    packages: Seq<Package>,
    name: Seq<char>,
    cargo_editor: Option<Seq<char>>,
    visual: Option<Seq<char>>,
    editor: Option<Seq<char>>,
)
    requires
        has_package(packages, name),
    ensures
        resolve_package(packages, name) matches Some(p) && {
            &&& p == packages[first_match_at(packages, name)]
            &&& p.name@ == name
            &&& (forall|j: int|
                0 <= j < first_match_at(packages, name) ==> #[trigger] packages[j].name@ != name)
            &&& match derived_dir(p.manifest_path@) {
                Some(dir) => match editor_choice(cargo_editor, visual, editor) {
                    Some(chosen) => pipeline(packages, name, cargo_editor, visual, editor) == (
                    Outcome::Launch { editor: chosen, dir }),
                    None => pipeline(packages, name, cargo_editor, visual, editor)
                        == Outcome::NoEditor,
                },
                None => pipeline(packages, name, cargo_editor, visual, editor)
                    == Outcome::NoParent,
            }
        },
{
    lemma_resolve_first_match(packages, name);
}

/// Law: when no package has the requested name, the run fails as not found,
/// whatever the editor configuration holds — the editor choice and the
/// launch step are never consulted.
pub proof fn lemma_missing_package_stops_pipeline(
    packages: Seq<Package>,
    name: Seq<char>,
    cargo_editor: Option<Seq<char>>,
    visual: Option<Seq<char>>,
    editor: Option<Seq<char>>,
)
    requires
        !has_package(packages, name),
    ensures
        pipeline(packages, name, cargo_editor, visual, editor) == Outcome::NotFound,
{
    lemma_resolve_first_match(packages, name);
}

} // verus!
