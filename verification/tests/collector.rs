use licensebat::collector::dart::{
    get_dependency as get_dart_dependency, resolve_git_dependency, resolve_hosted_dependency,
    resolve_sdk_dependency, resolve_unknown_dependency, retrieved_dependency, Dart,
    DartDependencies, DartDependency, Description, GIT_COMMENT, SDK_COMMENT,
};
use licensebat::collector::js::{retrieve_from_npm, Npm, NpmDependencies, NpmDependency, Yarn};
use licensebat::collector::rust::{
    get_dependency, Package, Rust, Source, NOT_SUPPORTED_COMMENT,
};
use licensebat::collector::{
    find_collector, insert_entry, Collector, CollectorError, Ecosystem, FileCollector, Resolution,
};
use licensebat::dependency::{Comment, Dependency};
use licensebat::licrc::{LicRc, LicRcBehavior, LicRcDependencies, LicRcLicenses};
use licensebat::text::get_last_value;

fn ignoring(names: &[&str], dev: bool, optional: bool) -> LicRc {
    LicRc {
        licenses: LicRcLicenses::default(),
        dependencies: LicRcDependencies {
            ignored: Some(names.iter().map(|s| s.to_string()).collect()),
            ignore_dev_dependencies: dev,
            ignore_optional_dependencies: optional,
        },
        behavior: LicRcBehavior::default(),
    }
}

#[test]
fn collector_is_chosen_by_the_file_name() {
    assert_eq!(find_collector("package-lock.json"), Some(Ecosystem::Npm));
    assert_eq!(find_collector("./web/package-lock.json"), Some(Ecosystem::Npm));
    assert_eq!(find_collector("yarn.lock"), Some(Ecosystem::Yarn));
    assert_eq!(find_collector("/a/b/Cargo.lock"), Some(Ecosystem::Rust));
    assert_eq!(find_collector("pubspec.lock"), Some(Ecosystem::Dart));
    assert_eq!(find_collector("pubspec.yaml"), None);
    assert_eq!(find_collector("cargo.lock"), None);
    assert_eq!(find_collector(""), None);
    assert_eq!(find_collector("yarn.lock/Cargo.lock"), Some(Ecosystem::Yarn));
    assert_eq!(find_collector("Cargo.lock.package-lock.json"), Some(Ecosystem::Npm));
}

#[test]
fn collectors_name_their_files() {
    assert_eq!(Npm::new().get_name(), "npm");
    assert_eq!(Npm::new().get_dependency_filename(), "package-lock.json");
    assert_eq!(Yarn::new().get_name(), "npm");
    assert_eq!(Yarn::new().get_dependency_filename(), "yarn.lock");
    assert_eq!(Rust::new().get_name(), "rust");
    assert_eq!(Rust::new().get_dependency_filename(), "Cargo.lock");
    assert_eq!(Dart::new().get_name(), "dart");
    assert_eq!(Dart::new().get_dependency_filename(), "pubspec.lock");
}

#[test]
fn entries_are_kept_under_distinct_names() {
    let mut entries: Vec<(String, u8)> = Vec::new();
    assert_eq!(insert_entry(&mut entries, "a".to_string(), 1), None);
    assert_eq!(insert_entry(&mut entries, "b".to_string(), 2), None);
    assert_eq!(insert_entry(&mut entries, "a".to_string(), 3), Some(1));
    assert_eq!(entries, vec![("a".to_string(), 3), ("b".to_string(), 2)]);
}

#[test]
fn npm_dependencies_become_dependencies() {
    let mut lock = NpmDependencies::new();
    let entry = |version: &str, dev: Option<bool>, optional: Option<bool>| NpmDependency {
        version: version.to_string(),
        is_dev: dev,
        is_optional: optional,
    };
    assert_eq!(lock.insert("exit".to_string(), entry("0.1.2", Some(false), Some(false))), None);
    assert_eq!(lock.insert("rimraf".to_string(), entry("3.0.0", Some(true), None)), None);
    assert_eq!(
        lock.insert("exit".to_string(), entry("0.1.3", None, Some(true))),
        Some(entry("0.1.2", Some(false), Some(false)))
    );
    let deps = Npm::new().get_dependencies(lock);
    assert_eq!(
        deps,
        vec![
            Dependency { name: "exit".into(), version: "0.1.3".into(), is_dev: None, is_optional: Some(true) },
            Dependency { name: "rimraf".into(), version: "3.0.0".into(), is_dev: Some(true), is_optional: None },
        ]
    );
    assert_eq!(NpmDependencies::new().into_vec_collection(), vec![]);
}

const YARN_V1: &str = r#"# THIS IS AN AUTOGENERATED FILE. DO NOT EDIT THIS FILE DIRECTLY.
# yarn lockfile v1


"@babel/code-frame@^7.0.0":
  version "7.12.13"
  resolved "https://registry.yarnpkg.com/@babel/code-frame/-/code-frame-7.12.13.tgz#dcfc826beef65e75c50e21d3837d7d95798dd658"
  integrity sha512-HV1Cm0Q3ZrpCR93tkWOYiuYIgLxZXZFVG2VgK+MBWjUqZTundupbfx2aXarXuw5Ko5aMcjtJgbSs4vUGBS5v6g==
  dependencies:
    "@babel/highlight" "^7.12.13"

exit@^0.1.2:
  version "0.1.2"
  resolved "https://registry.yarnpkg.com/exit/-/exit-0.1.2.tgz#0632638f8d877cc82107d30a0fff1a17cba1cd0c"
  integrity sha1-BjJjj42HfMghB9MKD/8aF8uhzQw=
"#;

#[test]
fn yarn_lock_is_read_in_order() {
    let deps = Yarn::new().get_dependencies(YARN_V1).unwrap();
    assert_eq!(
        deps,
        vec![Dependency::new("@babel/code-frame", "7.12.13"), Dependency::new("exit", "0.1.2")]
    );
}

#[test]
fn bad_yarn_lock_is_an_error() {
    for text in ["", "this is no lock file", "# yarn lockfile v1\n\n\nexit@^0.1.2:\n  resolved \"x\"\n\n"] {
        match Yarn::new().get_dependencies(text) {
            Err(CollectorError::YarnLock(_)) => {}
            other => panic!("{:?}", other),
        }
    }
}

fn lock_of(source: &str, version: &str) -> String {
    format!(
        r#"
        [[package]]
        name = "mime"
        version = "{}"
        source = "{}"
        checksum = "2a60c7ce501c71e03a9c9c0d35b861413ae925bd979cc7a4e30d060069aaac8d"
        "#,
        version, source
    )
}

fn resolve(lock_content: &str) -> Vec<Resolution> {
    let rust = Rust::new();
    let packages = rust.get_dependencies(lock_content).unwrap();
    rust.retrieve_dependencies(&packages, &LicRc::default())
}

#[test]
fn it_works_for_crates_registry() {
    let rust = Rust::new();
    let lock_content = lock_of("registry+https://github.com/rust-lang/crates.io-index", "0.3.16");
    let deps = resolve(&lock_content);
    assert_eq!(deps.len(), 1);
    assert_eq!(rust.get_name(), "rust");
    assert_eq!(rust.get_dependency_filename(), "Cargo.lock");
    match &deps[0] {
        Resolution::Retrieve(dep) => {
            assert_eq!(dep.name, "mime");
            assert_eq!(dep.version, "0.3.16");
            assert_eq!(dep.is_dev, None);
            assert_eq!(dep.is_optional, None);
        }
        other => panic!("{:?}", other),
    }
}

#[test]
fn it_works_for_crates_registry_with_special_version() {
    let lock_content = lock_of("registry+https://github.com/rust-lang/crates.io-index", "3.0.0-beta.4");
    let deps = resolve(&lock_content);
    assert_eq!(deps.len(), 1);
    assert_eq!(deps[0], Resolution::Retrieve(Dependency::new("mime", "3.0.0-beta.4")));
}

#[test]
fn git_is_not_implemented() {
    let lock_content = lock_of("git+https://github.com/rust-lang/crates.io-index", "3.0.0");
    let deps = resolve(&lock_content);
    assert_eq!(deps.len(), 1);
    match &deps[0] {
        Resolution::Resolved(dep) => {
            assert_eq!(dep.name, "mime");
            assert_eq!(dep.version, "3.0.0");
            assert_eq!(dep.dependency_type, "rust");
            assert_eq!(dep.url, None);
            assert_eq!(dep.licenses, None);
            assert!(!dep.is_valid);
            assert!(!dep.validated);
            assert!(!dep.is_ignored);
            assert_eq!(dep.error, Some("Crate type not Supported".to_string()));
            assert_eq!(dep.comment, Some(Comment::removable(NOT_SUPPORTED_COMMENT)));
            assert_eq!(dep.suggested_licenses, None);
        }
        other => panic!("{:?}", other),
    }
}

#[test]
fn sources_are_told_apart() {
    let source_of = |source: &str| {
        let packages = Rust::new().get_dependencies(&lock_of(source, "1.0.0")).unwrap();
        assert_eq!(packages.len(), 1);
        assert_eq!(packages[0].name, "mime");
        assert_eq!(packages[0].version, "1.0.0");
        packages[0].source.unwrap()
    };
    assert_eq!(
        source_of("registry+https://github.com/rust-lang/crates.io-index"),
        Source { is_registry: true, is_default_registry: true, is_remote_registry: true, is_git: false }
    );
    assert_eq!(
        source_of("sparse+https://index.crates.io/"),
        Source { is_registry: true, is_default_registry: true, is_remote_registry: true, is_git: false }
    );
    assert_eq!(
        source_of("registry+https://example.org/index"),
        Source { is_registry: true, is_default_registry: false, is_remote_registry: true, is_git: false }
    );
    assert_eq!(
        source_of("git+https://github.com/a/b?branch=main#abc"),
        Source { is_registry: false, is_default_registry: false, is_remote_registry: false, is_git: true }
    );
}

#[test]
fn package_without_source_is_not_supported() {
    let lock = "[[package]]\nname = \"local\"\nversion = \"0.1.0\"\n\n[[package]]\nname = \"mime\"\nversion = \"0.3.16\"\nsource = \"registry+https://github.com/rust-lang/crates.io-index\"\n";
    let packages = Rust::new().get_dependencies(lock).unwrap();
    assert_eq!(
        packages,
        vec![
            Package { name: "local".into(), version: "0.1.0".into(), source: None },
            Package {
                name: "mime".into(),
                version: "0.3.16".into(),
                source: Some(Source {
                    is_registry: true,
                    is_default_registry: true,
                    is_remote_registry: true,
                    is_git: false,
                }),
            },
        ]
    );
    assert!(matches!(get_dependency(&packages[0]), Resolution::Resolved(_)));
    assert!(matches!(get_dependency(&packages[1]), Resolution::Retrieve(_)));
    let other_registry = Package {
        name: "x".into(),
        version: "1".into(),
        source: Some(Source { is_registry: true, is_default_registry: false, is_remote_registry: true, is_git: false }),
    };
    assert!(matches!(get_dependency(&other_registry), Resolution::Resolved(_)));
}

#[test]
fn bad_cargo_lock_is_an_error() {
    for text in ["[[package]]\nname = 3", "not toml at all [", "[[package]]\nname = \"a\"\nversion = \"x\""] {
        match Rust::new().get_dependencies(text) {
            Err(CollectorError::CargoLock(_)) => {}
            other => panic!("{:?}", other),
        }
    }
    assert_eq!(Rust::new().get_dependencies("").unwrap(), vec![]);
}

#[test]
fn ignored_packages_are_not_resolved() {
    let lock = "[[package]]\nname = \"a\"\nversion = \"0.1.0\"\n\n[[package]]\nname = \"b\"\nversion = \"0.2.0\"\nsource = \"registry+https://github.com/rust-lang/crates.io-index\"\n\n[[package]]\nname = \"c\"\nversion = \"0.3.0\"\nsource = \"registry+https://github.com/rust-lang/crates.io-index\"\n";
    let rust = Rust::new();
    let packages = rust.get_dependencies(lock).unwrap();
    let planned = rust.retrieve_dependencies(&packages, &ignoring(&["b"], true, true));
    assert_eq!(planned.len(), 2);
    assert!(matches!(&planned[0], Resolution::Resolved(r) if r.name == "a"));
    assert_eq!(planned[1], Resolution::Retrieve(Dependency::new("c", "0.3.0")));
    assert_eq!(rust.retrieve_dependencies(&packages, &ignoring(&["a", "b", "c"], false, false)), vec![]);
}

fn dart(source: &str, name: Option<&str>) -> DartDependency {
    DartDependency {
        version: "1.0.1".to_string(),
        source: source.to_string(),
        dependency: "direct main".to_string(),
        description: Description {
            path: None,
            reference: None,
            url: Some("https://github.com/a/b".to_string()),
            name: name.map(|s| s.to_string()),
        },
        is_dev: None,
        is_optional: None,
    }
}

#[test]
fn pubspec_packages_get_the_name_of_their_entry() {
    let mut lock = DartDependencies::new();
    assert_eq!(lock.insert("flutter".to_string(), dart("sdk", None)), None);
    assert_eq!(lock.insert("file".to_string(), dart("hosted", Some("file_pkg"))), None);
    assert_eq!(lock.insert("flutter".to_string(), dart("sdk", None)), Some(dart("sdk", None)));
    let packages = Dart::new().get_dependencies(lock);
    assert_eq!(packages, vec![dart("sdk", Some("flutter")), dart("hosted", Some("file_pkg"))]);
    assert_eq!(DartDependencies::new().into_vec_collection(), vec![]);
    assert_eq!(Description::default(), Description { path: None, reference: None, url: None, name: None });
}

#[test]
fn sdk_packages_have_the_license_of_the_sdk() {
    let record = resolve_sdk_dependency(&dart("sdk", Some("flutter")));
    assert_eq!(record.name, "flutter");
    assert_eq!(record.version, "1.0.1");
    assert_eq!(record.dependency_type, "dart");
    assert_eq!(record.licenses, Some(vec!["BSD-3-Clause".to_string()]));
    assert_eq!(record.url, Some("https://github.com/flutter/flutter".to_string()));
    assert!(record.is_valid);
    assert_eq!(record.error, None);
    assert_eq!(record.comment, Some(Comment::removable(SDK_COMMENT)));
    assert_eq!(get_dart_dependency(&dart("sdk", Some("flutter"))), Resolution::Resolved(record));
}

#[test]
fn hosted_packages_are_looked_up() {
    let mut package = dart("hosted", Some("flutter_local_notifications_platform_interface"));
    package.is_dev = Some(true);
    let expected = Resolution::Retrieve(Dependency {
        name: "flutter_local_notifications_platform_interface".into(),
        version: "1.0.1".into(),
        is_dev: Some(true),
        is_optional: None,
    });
    assert_eq!(resolve_hosted_dependency(&package), expected);
    assert_eq!(get_dart_dependency(&package), expected);
}

#[test]
fn hosted_package_without_name_is_invalid() {
    match get_dart_dependency(&dart("hosted", None)) {
        Resolution::Resolved(record) => {
            assert_eq!(record.name, "unknown");
            assert_eq!(record.licenses, None);
            assert!(!record.is_valid);
            assert_eq!(record.error, Some("No name found for this dependency".to_string()));
            assert_eq!(record.url, None);
            assert!(record.comment.unwrap().remove_when_valid);
        }
        other => panic!("{:?}", other),
    }
}

#[test]
fn git_packages_are_not_supported() {
    let record = resolve_git_dependency(&dart("git", Some("b")));
    assert_eq!(record.name, "b");
    assert_eq!(record.licenses, None);
    assert!(!record.is_valid);
    assert_eq!(record.error, Some("Git source is not supported".to_string()));
    assert_eq!(record.url, Some("https://github.com/a/b".to_string()));
    assert_eq!(record.comment, Some(Comment::removable(GIT_COMMENT)));
    assert_eq!(get_dart_dependency(&dart("git", Some("b"))), Resolution::Resolved(record));
}

#[test]
fn unknown_sources_are_not_supported() {
    let record = resolve_unknown_dependency(&dart("path", Some("b")));
    assert_eq!(record.licenses, None);
    assert!(!record.is_valid);
    assert_eq!(record.error, Some("Not supported source path".to_string()));
    assert_eq!(record.url, None);
    assert_eq!(get_dart_dependency(&dart("path", Some("b"))), Resolution::Resolved(record));
    match get_dart_dependency(&dart("", None)) {
        Resolution::Resolved(record) => {
            assert_eq!(record.error, Some("Not supported source ".to_string()));
            assert_eq!(record.name, "unknown");
        }
        other => panic!("{:?}", other),
    }
    assert!(matches!(get_dart_dependency(&dart("SDK", Some("b"))), Resolution::Resolved(r) if !r.is_valid));
}

#[test]
fn dart_records_carry_what_they_are_given() {
    let record = retrieved_dependency(
        &dart("hosted", Some("file")),
        Some(vec!["MIT".to_string()]),
        None,
        Some("u".to_string()),
        Some(Comment::non_removable("c")),
        None,
    );
    assert_eq!(record.name, "file");
    assert_eq!(record.version, "1.0.1");
    assert_eq!(record.dependency_type, "dart");
    assert_eq!(record.url, Some("u".to_string()));
    assert_eq!(record.comment, Some(Comment::non_removable("c")));
    assert!(record.is_valid);
    assert_eq!(record.is_dev, None);
}

#[test]
fn ignored_dart_packages_are_not_resolved() {
    let mut dev = dart("hosted", Some("dev_only"));
    dev.is_dev = Some(true);
    let mut optional = dart("git", Some("maybe"));
    optional.is_optional = Some(true);
    let packages = vec![dart("sdk", Some("flutter")), dev, optional, dart("hosted", Some("file")), dart("hosted", None)];
    let dart_collector = Dart::new();
    let all = dart_collector.retrieve_dependencies(&packages, &LicRc::default());
    assert_eq!(all.len(), 5);
    let planned = dart_collector.retrieve_dependencies(&packages, &ignoring(&["flutter"], true, true));
    assert_eq!(planned.len(), 2);
    assert_eq!(planned[0], Resolution::Retrieve(Dependency::new("file", "1.0.1")));
    assert!(matches!(&planned[1], Resolution::Resolved(r) if r.name == "unknown"));
    let planned = dart_collector.retrieve_dependencies(&packages, &ignoring(&["unknown", "file"], false, false));
    assert_eq!(planned.len(), 3);
}

#[test]
fn descriptions_are_read_from_texts_and_objects() {
    let entries = |pairs: &[(&str, &str)]| -> Vec<(String, String)> {
        pairs.iter().map(|(k, v)| (k.to_string(), v.to_string())).collect()
    };
    assert_eq!(
        Description::from_name("flutter"),
        Description { path: None, reference: None, url: None, name: Some("flutter".to_string()) }
    );
    assert_eq!(
        Description::from_entries(&entries(&[("name", "file"), ("url", "https://pub.dartlang.org"), ("other", "x")])),
        Description {
            path: None,
            reference: None,
            url: Some("https://pub.dartlang.org".to_string()),
            name: Some("file".to_string()),
        }
    );
    assert_eq!(
        Description::from_entries(&entries(&[("path", "."), ("ref", "abc"), ("url", "a"), ("url", "b"), ("resolved-ref", "r")])),
        Description {
            path: Some(".".to_string()),
            reference: Some("abc".to_string()),
            url: Some("b".to_string()),
            name: None,
        }
    );
    assert_eq!(Description::from_entries(&entries(&[])), Description::default());
}

#[test]
fn javascript_dependencies_are_all_looked_up() {
    let deps = vec![Dependency::new("a", "1"), Dependency::new("b", "2")];
    assert_eq!(
        retrieve_from_npm(deps.clone()),
        vec![Resolution::Retrieve(deps[0].clone()), Resolution::Retrieve(deps[1].clone())]
    );
    assert_eq!(retrieve_from_npm(vec![]), vec![]);
}

#[test]
fn last_value_wins() {
    let entries = vec![
        ("a".to_string(), "1".to_string()),
        ("b".to_string(), "2".to_string()),
        ("a".to_string(), "3".to_string()),
    ];
    assert_eq!(get_last_value(&entries, "a"), Some("3".to_string()));
    assert_eq!(get_last_value(&entries, "b"), Some("2".to_string()));
    assert_eq!(get_last_value(&entries, "c"), None);
    assert_eq!(get_last_value(&vec![], "a"), None);
}

#[test]
fn yarn_entries_become_dependencies() {
    let entries = vec![("a".to_string(), "1".to_string()), ("a".to_string(), "2".to_string())];
    assert_eq!(Yarn::dependencies_of(&entries), vec![Dependency::new("a", "1"), Dependency::new("a", "2")]);
    assert_eq!(Yarn::dependencies_of(&vec![]), vec![]);
}
