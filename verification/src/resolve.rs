//! Finding the requested package in the workspace metadata.

use vstd::prelude::*;

use crate::model::first_match_at;
use crate::model::has_package;
use crate::model::resolve_package;
use crate::model::OpenError;
use crate::model::Package;

verus! {

/// Law: when the metadata holds the requested name, resolution returns the
/// package at the first matching position — every earlier package has a
/// different name — and when it does not, resolution finds nothing.
pub proof fn lemma_resolve_first_match(packages: Seq<Package>, name: Seq<char>)
    ensures
        has_package(packages, name) ==> ({
            let i = first_match_at(packages, name);
            &&& 0 <= i < packages.len()
            &&& packages[i].name@ == name
            &&& (forall|j: int| 0 <= j < i ==> #[trigger] packages[j].name@ != name)
            &&& resolve_package(packages, name) == Some(packages[i])
        }),
        !has_package(packages, name) ==> resolve_package(packages, name) is None,
    decreases packages.len(),
{
    if packages.len() == 0 {
    } else if packages[0].name@ == name {
        assert(has_package(packages, name));
    } else {
        let tail = packages.skip(1);
        lemma_resolve_first_match(tail, name);
        if has_package(packages, name) {
            let w = choose|w: int| 0 <= w < packages.len() && #[trigger] packages[w].name@
                == name;
            assert(tail[w - 1] == packages[w]);
            assert(has_package(tail, name));
            let k = first_match_at(tail, name);
            assert(packages[1 + k] == tail[k]);
            assert forall|j: int| 0 <= j < 1 + k implies #[trigger] packages[j].name@ != name by {
                if j >= 1 {
                    assert(tail[j - 1] == packages[j]);
                }
            }
        } else {
            if has_package(tail, name) {
                let w = choose|w: int| 0 <= w < tail.len() && #[trigger] tail[w].name@ == name;
                assert(packages[w + 1] == tail[w]);
                assert(false);
            }
        }
    }
}

/// Returns a reference to the first package whose name equals the requested
/// name exactly (case-sensitive, no fuzzy matching); among duplicates the
/// one the metadata lists first wins. Fails with
/// [`OpenError::PackageNotFound`], carrying the requested name, exactly when
/// no package matches.
pub fn get_package<'a>(package_name: &String, packages: &'a Vec<Package>) -> (r: Result<
    &'a Package,
    OpenError,
>)
    ensures
        match r {
            Ok(p) => resolve_package(packages@, package_name@) == Some(*p),
            Err(e) => e matches OpenError::PackageNotFound(n) && n@ == package_name@
                && resolve_package(packages@, package_name@) is None,
        },
{
    proof {
        assert(packages@.skip(0) =~= packages@);
    }
    let mut i: usize = 0;
    while i < packages.len()
        invariant
            0 <= i <= packages@.len(),
            resolve_package(packages@, package_name@) == resolve_package(
                packages@.skip(i as int),
                package_name@,
            ),
        decreases packages@.len() - i,
    {
        proof {
            assert(packages@.skip(i as int)[0] == packages@[i as int]);
        }
        if packages[i].name == *package_name {
            return Ok(&packages[i]);
        }
        proof {
            assert(packages@.skip(i as int).skip(1) =~= packages@.skip(i as int + 1));
        }
        i += 1;
    }
    Err(OpenError::PackageNotFound(package_name.clone()))
}

} // verus!
