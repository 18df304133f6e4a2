use web_worker::publish::Permission;
use web_worker::publish::PreparedPublishPackage;
use web_worker::publish::has_license_file;
use web_worker::publish::path_has_license_file_name;
use web_worker::publish::str_eq_ignore_ascii_case;

fn has_license_file_str(expected: &[&str]) -> bool {
    let specifiers = expected
        .iter()
        .map(|s| url::Url::parse(s).unwrap())
        .collect::<Vec<_>>();
    let paths = specifiers
        .iter()
        .map(|specifier| specifier.path().to_string())
        .collect::<Vec<_>>();
    has_license_file(&paths)
}

#[test]
fn test_has_license_files() {
    assert!(has_license_file_str(&["file:///LICENSE"]));
    assert!(has_license_file_str(&["file:///license"]));
    assert!(has_license_file_str(&["file:///LICENSE.txt"]));
    assert!(has_license_file_str(&["file:///LICENSE.md"]));
    assert!(has_license_file_str(&["file:///LICENCE"]));
    assert!(has_license_file_str(&["file:///LICENCE.txt"]));
    assert!(has_license_file_str(&["file:///LICENCE.md"]));
    assert!(has_license_file_str(&[
        "file:///other",
        "file:///test/LICENCE.md"
    ]),);
    assert!(!has_license_file_str(&[
        "file:///other",
        "file:///test/tLICENSE"
    ]),);
}

#[test]
fn license_check_reads_only_the_final_segment() {
    assert!(path_has_license_file_name("/deep/nested/License.MD"));
    assert!(!path_has_license_file_name("/LICENSE/readme.txt"));
    assert!(!path_has_license_file_name("LICENSE"));
    assert!(!path_has_license_file_name("/licenses"));
}

#[test]
fn ascii_case_insensitive_comparison() {
    assert!(str_eq_ignore_ascii_case("LiCeNsE", "license"));
    assert!(!str_eq_ignore_ascii_case("licensé", "license"));
    assert!(!str_eq_ignore_ascii_case("licens", "license"));
}

#[test]
fn prepared_package_display_name() {
    let package = PreparedPublishPackage {
        scope: "std".to_string(),
        package: "path".to_string(),
        version: "1.0.3".to_string(),
        config: "deno.json".to_string(),
        exports: vec![(".".to_string(), "./mod.ts".to_string())],
    };
    assert_eq!(package.display_name(), "@std/path@1.0.3");
    let permission = Permission::VersionPublish {
        scope: package.scope.clone(),
        package: package.package.clone(),
        version: package.version.clone(),
        tarball_hash: "sha256-abc".to_string(),
    };
    match permission {
        Permission::VersionPublish { scope, version, .. } => {
            assert_eq!(scope, "std");
            assert_eq!(version, "1.0.3");
        },
    }
}
