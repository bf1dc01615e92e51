//! Deriving a package's source directory from its manifest path.

use vstd::prelude::*;

use crate::model::derived_dir;
use crate::model::parent_of;
use crate::model::OpenError;
use crate::model::Package;

verus! {

/// Relies on camino::Utf8Path::parent: the path without its final component,
/// or None when the path terminates in a root or prefix or is empty. The
/// result depends on the path's characters alone.
#[verifier::external_body]
fn path_parent(path: &str) -> (r: Option<String>)
    ensures
        match r {
            Some(p) => parent_of(path@) == Some(p@),
            None => parent_of(path@) is None,
        },
{
    camino::Utf8Path::new(path).parent().map(|p| p.as_str().to_owned())
}

/// Returns the directory containing the package's manifest: the manifest
/// path without its final component. Fails with [`OpenError::PathError`]
/// exactly when the manifest path has no parent segment — it terminates in a
/// root or prefix, or is a bare file name with no directory component.
pub fn get_package_path(package: &Package) -> (r: Result<String, OpenError>)
    ensures
        match r {
            Ok(dir) => derived_dir(package.manifest_path@) == Some(dir@),
            Err(e) => e matches OpenError::PathError && derived_dir(package.manifest_path@)
                is None,
        },
{
    match path_parent(package.manifest_path.as_str()) {
        Some(dir) => if dir.as_str().is_empty() {
            Err(OpenError::PathError)
        } else {
            Ok(dir)
        },
        None => Err(OpenError::PathError),
    }
}

} // verus!
