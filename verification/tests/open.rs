use cargo_open::get_editor_path;
use cargo_open::get_package;
use cargo_open::get_package_path;
use cargo_open::try_main;
use cargo_open::LaunchPlan;
use cargo_open::OpenError;
use cargo_open::Package;

fn pkg(name: &str, manifest_path: &str) -> Package {
    Package { name: name.to_owned(), manifest_path: manifest_path.to_owned() }
}

fn s(text: &str) -> Option<String> {
    Some(text.to_owned())
}

#[test]
fn found_package_launches_editor() {
    let packages = vec![pkg("clap", "/home/u/.cargo/registry/src/clap-4.0/Cargo.toml")];
    let r = try_main(&"clap".to_owned(), &packages, None, None, s("vim"));
    let plan: LaunchPlan = r.expect("a present package with a configured editor must launch");
    assert_eq!(plan.editor, "vim");
    assert_eq!(plan.package_path, "/home/u/.cargo/registry/src/clap-4.0");
}

#[test]
fn missing_package_is_not_found_before_editor_resolution() {
    let packages = vec![pkg("clap", "/home/u/.cargo/registry/src/clap-4.0/Cargo.toml")];
    // All editor variables unset: the error must still be the package one,
    // never the editor one — the steps run in order.
    let r = try_main(&"missing-crate".to_owned(), &packages, None, None, None);
    match r {
        Err(OpenError::PackageNotFound(name)) => assert_eq!(name, "missing-crate"),
        other => panic!("expected PackageNotFound, got {:?}", other),
    }
}

#[test]
fn unconfigured_editor_fails_after_package_resolution() {
    let packages = vec![pkg("clap", "/home/u/.cargo/registry/src/clap-4.0/Cargo.toml")];
    // The package and its path resolve; only then is the editor missed.
    let r = try_main(&"clap".to_owned(), &packages, None, None, None);
    assert!(matches!(r, Err(OpenError::EditorNotConfigured)));
}

#[test]
fn editor_priority_all_combinations() {
    let cases: Vec<(Option<String>, Option<String>, Option<String>, Option<&str>)> = vec![
        (s("ce"), s("vi"), s("ed"), Some("ce")),
        (s("ce"), s("vi"), None, Some("ce")),
        (s("ce"), None, s("ed"), Some("ce")),
        (s("ce"), None, None, Some("ce")),
        (None, s("vi"), s("ed"), Some("vi")),
        (None, s("vi"), None, Some("vi")),
        (None, None, s("ed"), Some("ed")),
        (None, None, None, None),
    ];
    for (cargo_editor, visual, editor, expected) in cases {
        let r = get_editor_path(cargo_editor, visual, editor);
        match expected {
            Some(chosen) => assert_eq!(r.unwrap(), chosen),
            None => assert!(matches!(r, Err(OpenError::EditorNotConfigured))),
        }
    }
}

#[test]
fn empty_tool_editor_is_still_chosen() {
    // Set-but-empty counts as configured: the empty string wins over the
    // lower-priority values instead of falling through.
    let r = get_editor_path(s(""), s("code"), s("vim"));
    assert_eq!(r.unwrap(), "");
}

#[test]
fn first_match_wins_among_duplicates() {
    let packages = vec![
        pkg("dup", "/first/place/Cargo.toml"),
        pkg("dup", "/second/place/Cargo.toml"),
    ];
    let plan = try_main(&"dup".to_owned(), &packages, s("vim"), None, None).unwrap();
    assert_eq!(plan.package_path, "/first/place");
}

#[test]
fn match_is_case_sensitive() {
    let packages = vec![pkg("clap", "/x/clap/Cargo.toml")];
    let r = try_main(&"Clap".to_owned(), &packages, s("vim"), None, None);
    assert!(matches!(r, Err(OpenError::PackageNotFound(_))));
}

#[test]
fn empty_metadata_has_no_package() {
    let packages: Vec<Package> = Vec::new();
    let r = get_package(&"anything".to_owned(), &packages);
    assert!(matches!(r, Err(OpenError::PackageNotFound(_))));
}

#[test]
fn get_package_returns_first_exact_match() {
    let packages = vec![
        pkg("serde", "/reg/serde-1.0/Cargo.toml"),
        pkg("clap", "/reg/clap-4.0/Cargo.toml"),
    ];
    let found = get_package(&"clap".to_owned(), &packages).unwrap();
    assert_eq!(found.name, "clap");
    assert_eq!(found.manifest_path, "/reg/clap-4.0/Cargo.toml");
}

#[test]
fn package_path_strips_final_component() {
    let package = pkg("demo", "/a/b/Cargo.toml");
    assert_eq!(get_package_path(&package).unwrap(), "/a/b");
}

#[test]
fn package_path_of_relative_manifest() {
    let package = pkg("demo", "pkgs/app/Cargo.toml");
    assert_eq!(get_package_path(&package).unwrap(), "pkgs/app");
}

#[test]
fn bare_manifest_name_has_no_parent() {
    let package = pkg("demo", "Cargo.toml");
    assert!(matches!(get_package_path(&package), Err(OpenError::PathError)));
}

#[test]
fn root_manifest_path_has_no_parent() {
    let package = pkg("demo", "/");
    assert!(matches!(get_package_path(&package), Err(OpenError::PathError)));
}

#[test]
fn path_error_surfaces_from_the_whole_run() {
    let packages = vec![pkg("odd", "Cargo.toml")];
    let r = try_main(&"odd".to_owned(), &packages, s("vim"), None, None);
    assert!(matches!(r, Err(OpenError::PathError)));
}
