use pvb::versioning::{commit_record, resolve_signature, tag_record, Identity};

#[test]
fn the_commit_stages_the_manifest_and_names_the_version() {
    let record = commit_record("package.json", "1.2.4");
    assert_eq!(record.path, "package.json");
    assert_eq!(record.message, "build: 1.2.4");
    assert_eq!(record.reference, "HEAD");
}

#[test]
fn the_tag_is_named_exactly_as_the_version() {
    let record = tag_record("1.2.4");
    assert_eq!(record.name, "1.2.4");
    assert_eq!(record.message, "");
    assert!(!record.force);
}

#[test]
fn the_configured_identity_signs_and_the_fallback_stands_in() {
    let configured = || Identity { name: String::from("A"), email: String::from("a@example.org") };
    let fallback = || Identity { name: String::from("F"), email: String::from("f@example.org") };
    assert_eq!(resolve_signature(Some(configured()), fallback()), configured());
    assert_eq!(resolve_signature(None, fallback()), fallback());
}

#[test]
fn the_default_fallback_identity_is_fixed() {
    let identity = Identity::fallback();
    assert_eq!(identity.name, "pvb");
    assert_eq!(identity.email, "pvb@localhost");
    assert_eq!(resolve_signature(None, Identity::fallback()), identity);
}
