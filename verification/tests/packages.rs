use pvb::error::BumpError;
use pvb::packages::cargo::CargoToml;
use pvb::packages::npm::PackageJson;
use pvb::packages::{load, resolve, ManifestKind, Package, PackageUtils};
use pvb::version::Version;

fn json(text: &str) -> serde_json::Value {
    serde_json::from_str(text).unwrap()
}

#[test]
fn cargo_takes_precedence_when_both_manifests_are_present() {
    assert_eq!(resolve(true, true), Ok(ManifestKind::Cargo));
    assert_eq!(resolve(true, false), Ok(ManifestKind::Cargo));
    assert_eq!(resolve(false, true), Ok(ManifestKind::Npm));
}

#[test]
fn no_manifest_is_an_error() {
    assert_eq!(resolve(false, false), Err(BumpError::ManifestNotFound));
}

#[test]
fn each_kind_has_its_file_name() {
    assert_eq!(ManifestKind::Cargo.file_name(), "Cargo.toml");
    assert_eq!(ManifestKind::Npm.file_name(), "package.json");
}

#[test]
fn npm_manifest_parses_version_and_keeps_the_rest() {
    let manifest = PackageJson::parse(r#"{"version": "1.2.3", "name": "x"}"#, "package.json").unwrap();
    assert_eq!(manifest.version, Version::new(1, 2, 3));
    assert_eq!(manifest.package_path, "package.json");
    assert_eq!(manifest.others, json(r#"{"name": "x"}"#));
}

#[test]
fn npm_manifest_without_usable_version_is_rejected() {
    for text in [
        "",
        "{",
        "not json",
        "[]",
        "\"1.2.3\"",
        "null",
        "{}",
        r#"{"name": "x"}"#,
        r#"{"version": 3}"#,
        r#"{"version": null}"#,
        r#"{"version": ["1.2.3"]}"#,
        r#"{"version": {"major": 1}}"#,
        r#"{"Version": "1.2.3"}"#,
        r#"{"version": "1.2.3"} trailing"#,
    ] {
        assert_eq!(
            PackageJson::parse(text, "package.json").err(),
            Some(BumpError::ManifestParseError),
            "for {:?}",
            text
        );
    }
}

#[test]
fn npm_manifest_reads_any_version_text_leniently() {
    let manifest = PackageJson::parse(r#"{"version": "1.x"}"#, "package.json").unwrap();
    assert_eq!(manifest.version, Version::new(1, 0, 0));
    assert_eq!(manifest.others, json("{}"));
}

#[test]
fn npm_patch_bump_changes_only_the_version() {
    let mut manifest =
        PackageJson::parse(r#"{"version": "1.2.3", "name": "x"}"#, "package.json").unwrap();
    assert_eq!(manifest.increment_patch(), Ok(()));
    let text = manifest.serialize().unwrap();
    assert_eq!(json(&text), json(r#"{"version": "1.2.4", "name": "x"}"#));
}

#[test]
fn npm_serialization_is_indented_json() {
    let manifest =
        PackageJson::parse(r#"{"version":"1.2.3","name":"x"}"#, "package.json").unwrap();
    assert_eq!(
        manifest.serialize().unwrap(),
        "{\n  \"name\": \"x\",\n  \"version\": \"1.2.3\"\n}"
    );
}

#[test]
fn npm_round_trip_keeps_unrelated_fields() {
    let source = r#"{
        "name": "demo",
        "version": "0.9.9",
        "private": true,
        "count": 3,
        "ratio": 1.5,
        "nothing": null,
        "keywords": ["a", "b", ["nested", 1]],
        "scripts": {"build": "tsc", "deep": {"deeper": {"deepest": [1, 2, 3]}}},
        "versions": "not the version"
    }"#;
    let manifest = PackageJson::parse(source, "package.json").unwrap();
    let text = manifest.serialize().unwrap();
    assert_eq!(json(&text), json(source));
}

#[test]
fn npm_round_trip_puts_the_version_in_canonical_text() {
    let manifest = PackageJson::parse(r#"{"version": "01.2", "name": "x"}"#, "p").unwrap();
    let text = manifest.serialize().unwrap();
    assert_eq!(json(&text), json(r#"{"version": "1.2.0", "name": "x"}"#));
}

#[test]
fn npm_document_is_the_others_plus_the_version() {
    let manifest = PackageJson {
        version: Version::new(3, 1, 4),
        package_path: String::from("package.json"),
        others: json(r#"{"name": "pi", "version": "stale"}"#),
    };
    assert_eq!(
        manifest.to_document(),
        Ok(json(r#"{"name": "pi", "version": "3.1.4"}"#))
    );
    assert_eq!(manifest.others, json(r#"{"name": "pi", "version": "stale"}"#));
}

#[test]
fn npm_others_that_are_no_object_cannot_be_serialized() {
    for others in ["[]", "null", "1", "\"text\"", "true"] {
        let manifest = PackageJson {
            version: Version::new(1, 0, 0),
            package_path: String::from("package.json"),
            others: json(others),
        };
        assert_eq!(manifest.to_document(), Err(BumpError::SerializeError));
        assert_eq!(manifest.serialize(), Err(BumpError::SerializeError));
    }
}

#[test]
fn npm_from_document_takes_the_version_out() {
    let manifest =
        PackageJson::from_document(json(r#"{"a": 1, "version": "2.0.0", "z": 2}"#), "here").unwrap();
    assert_eq!(manifest.version, Version::new(2, 0, 0));
    assert_eq!(manifest.package_path, "here");
    assert_eq!(manifest.others, json(r#"{"a": 1, "z": 2}"#));
    assert_eq!(
        PackageJson::from_document(json("[1]"), "here").err(),
        Some(BumpError::ManifestParseError)
    );
}

const CARGO: &str = r#"
[package]
name = "demo"
version = "0.9.9"
edition = "2021"
authors = ["a", "b"]

[dependencies]
serde = { version = "1", features = ["derive"] }

[[bin]]
name = "demo"
path = "src/main.rs"
"#;

#[test]
fn cargo_manifest_parses_version_and_keeps_the_rest() {
    let manifest = CargoToml::parse(CARGO, "Cargo.toml").unwrap();
    assert_eq!(manifest.package.version, Version::new(0, 9, 9));
    assert_eq!(manifest.package_path, "Cargo.toml");
    assert_eq!(
        manifest.package.others,
        json(r#"{"name": "demo", "edition": "2021", "authors": ["a", "b"]}"#)
    );
    assert_eq!(
        manifest.others,
        json(
            r#"{"dependencies": {"serde": {"version": "1", "features": ["derive"]}},
                "bin": [{"name": "demo", "path": "src/main.rs"}]}"#
        )
    );
}

#[test]
fn cargo_manifest_without_usable_version_is_rejected() {
    for text in [
        "[package",
        "version = \"1.2.3\"",
        "package = 3",
        "[package]\nname = \"x\"",
        "[package]\nversion = 3",
        "[package]\nversion = 1.2",
        "[package]\nversion.workspace = true",
        "[workspace]\nmembers = []",
        "",
    ] {
        assert_eq!(
            CargoToml::parse(text, "Cargo.toml").err(),
            Some(BumpError::ManifestParseError),
            "for {:?}",
            text
        );
    }
}

#[test]
fn cargo_minor_bump_changes_only_the_version() {
    let mut manifest = CargoToml::parse(CARGO, "Cargo.toml").unwrap();
    assert_eq!(manifest.increment_minor(), Ok(()));
    let text = manifest.serialize().unwrap();
    let again: serde_json::Value = toml::from_str(&text).unwrap();
    let mut expected: serde_json::Value = toml::from_str(CARGO).unwrap();
    expected["package"]["version"] = serde_json::Value::from("0.10.0");
    assert_eq!(again, expected);
}

#[test]
fn cargo_round_trip_keeps_unrelated_fields() {
    let manifest = CargoToml::parse(CARGO, "Cargo.toml").unwrap();
    let text = manifest.serialize().unwrap();
    let again: serde_json::Value = toml::from_str(&text).unwrap();
    let expected: serde_json::Value = toml::from_str(CARGO).unwrap();
    assert_eq!(again, expected);
}

#[test]
fn cargo_serialization_is_toml() {
    let manifest = CargoToml::parse("[package]\nversion = \"1.2.3\"\nname = \"x\"\n", "Cargo.toml").unwrap();
    assert_eq!(
        manifest.serialize().unwrap(),
        "[package]\nname = \"x\"\nversion = \"1.2.3\"\n"
    );
}

#[test]
fn cargo_document_is_the_others_plus_the_package_table() {
    let manifest = CargoToml::from_document(
        json(r#"{"package": {"name": "x", "version": "1.0.0"}, "features": {}}"#),
        "Cargo.toml",
    )
    .unwrap();
    assert_eq!(manifest.package.others, json(r#"{"name": "x"}"#));
    assert_eq!(manifest.others, json(r#"{"features": {}}"#));
    assert_eq!(
        manifest.to_document(),
        Ok(json(r#"{"package": {"name": "x", "version": "1.0.0"}, "features": {}}"#))
    );
}

#[test]
fn cargo_fields_that_toml_cannot_hold_fail_to_serialize() {
    let manifest = CargoToml::from_document(
        json(r#"{"package": {"version": "1.0.0", "nothing": null}}"#),
        "Cargo.toml",
    )
    .unwrap();
    assert_eq!(manifest.serialize(), Err(BumpError::SerializeError));
}

#[test]
fn load_reads_the_kind_it_is_given() {
    match load(ManifestKind::Npm, r#"{"version": "1.2.3"}"#) {
        Ok(Package::Npm(manifest)) => {
            assert_eq!(manifest.version, Version::new(1, 2, 3));
            assert_eq!(manifest.package_path, "package.json");
        }
        other => panic!("unexpected {:?}", other),
    }
    match load(ManifestKind::Cargo, "[package]\nversion = \"4.5.6\"\n") {
        Ok(Package::Cargo(manifest)) => {
            assert_eq!(manifest.package.version, Version::new(4, 5, 6));
            assert_eq!(manifest.package_path, "Cargo.toml");
        }
        other => panic!("unexpected {:?}", other),
    }
    assert_eq!(
        load(ManifestKind::Cargo, r#"{"version": "1.2.3"}"#).err(),
        Some(BumpError::ManifestParseError)
    );
    assert_eq!(
        load(ManifestKind::Npm, "[package]\nversion = \"4.5.6\"\n").err(),
        Some(BumpError::ManifestParseError)
    );
}

#[test]
fn a_package_answers_for_its_manifest() {
    let mut package = load(ManifestKind::Npm, r#"{"version": "1.2.3", "name": "x"}"#).unwrap();
    assert_eq!(*package.get_version(), Version::new(1, 2, 3));
    assert_eq!(package.get_location(), "package.json");
    assert_eq!(package.increment_major(), Ok(()));
    assert_eq!(*package.get_version(), Version::new(2, 0, 0));
    assert_eq!(
        json(&package.serialize().unwrap()),
        json(r#"{"version": "2.0.0", "name": "x"}"#)
    );
}

#[test]
fn a_component_at_its_limit_does_not_grow() {
    let text = r#"{"version": "18446744073709551615.18446744073709551615.18446744073709551615"}"#;
    let mut package = load(ManifestKind::Npm, text).unwrap();
    assert_eq!(package.increment_major(), Err(BumpError::VersionOverflow));
    assert_eq!(package.increment_minor(), Err(BumpError::VersionOverflow));
    assert_eq!(package.increment_patch(), Err(BumpError::VersionOverflow));
    assert_eq!(*package.get_version(), Version::new(u64::MAX, u64::MAX, u64::MAX));
}
