//! The Cargo-style manifest: a TOML document whose table `package` has a text
//! member `version`.

use vstd::prelude::*;
use crate::error::BumpError;
use crate::packages::document::{
    copy_of,
    put_member,
    take_member,
    toml_from_str,
    toml_text,
    toml_to_string_pretty,
    toml_tree,
    tree_of,
    Tree,
};
use crate::packages::PackageUtils;
use crate::version::{format_version, parse_version, Version};

verus! {

/// The table `package` of a Cargo-style manifest.
#[derive(Debug)]
pub struct CargoPackage {
    /// The version, read from the member `version`.
    pub version: Version,
    /// The table without its member `version`.
    pub others: serde_json::Value,
}

/// A Cargo-style manifest.
#[derive(Debug)]
pub struct CargoToml {
    /// The table `package`.
    pub package: CargoPackage,
    /// The path of the file that the manifest came from.
    pub package_path: String,
    /// The document without its table `package`.
    pub others: serde_json::Value,
}

/// What a Cargo-style document holds: the version that the member `version`
/// of its table `package` denotes, that table without the version, and the
/// document without the table. `None` where the document has no member
/// `package`, or that member has no `version`, or the version is no text.
pub open spec fn cargo_fields(doc: Tree) -> Option<(Version, Tree, Tree)> {
    match doc.member("package"@) {
        Some(package) => match package.member("version"@) {
            Some(Tree::Text(text)) => Some(
                (parse_version(text), package.without("version"@), doc.without("package"@)),
            ),
            _ => None,
        },
        None => None,
    }
}

/// The Cargo-style document of a version, the other fields of the table
/// `package`, and the other fields of the document. `None` where either of
/// the two is no table.
pub open spec fn cargo_document(version: Version, package: Tree, others: Tree) -> Option<Tree> {
    match package.with("version"@, Tree::Text(format_version(version))) {
        Some(package) => others.with("package"@, package),
        None => None,
    }
}

/// What a Cargo-style manifest file holds, by its text. `None` where the
/// text is no TOML, or is TOML without a text `version` in a table `package`.
pub open spec fn cargo_parsed(text: Seq<char>) -> Option<(Version, Tree, Tree)> {
    match toml_tree(text) {
        Some(doc) => cargo_fields(doc),
        None => None,
    }
}

impl CargoToml {
    /// The version, the other fields of the table `package`, and the other
    /// fields of the document, the latter two as trees.
    pub open spec fn fields(&self) -> (Version, Tree, Tree) {
        (self.package.version, tree_of(self.package.others), tree_of(self.others))
    }

    /// The document that the manifest stands for.
    pub open spec fn document(&self) -> Option<Tree> {
        cargo_document(self.package.version, tree_of(self.package.others), tree_of(self.others))
    }

    /// Takes a manifest out of a document that was read from `path`.
    pub fn from_document(doc: serde_json::Value, path: &str) -> (manifest: Result<
        CargoToml,
        BumpError,
    >)
        ensures
            match cargo_fields(tree_of(doc)) {
                Some(fields) => {
                    &&& manifest matches Ok(m)
                    &&& m.fields() == fields
                    &&& m.package_path@ == path@
                },
                None => manifest matches Err(e) && e == BumpError::ManifestParseError,
            },
    {
        let mut others = doc;
        let mut package = match take_member(&mut others, "package") {
            Some(package) => package,
            None => {
                return Err(BumpError::ManifestParseError);
            },
        };
        let version = match take_member(&mut package, "version") {
            Some(member) => match Version::from_value(&member) {
                Some(version) => version,
                None => {
                    return Err(BumpError::ManifestParseError);
                },
            },
            None => {
                return Err(BumpError::ManifestParseError);
            },
        };
        Ok(
            CargoToml {
                package: CargoPackage { version, others: package },
                package_path: path.to_owned(),
                others,
            },
        )
    }

    /// Reads a manifest from the text of the file at `path`.
    pub fn parse(text: &str, path: &str) -> (manifest: Result<CargoToml, BumpError>)
        ensures
            match cargo_parsed(text@) {
                Some(fields) => {
                    &&& manifest matches Ok(m)
                    &&& m.fields() == fields
                    &&& m.package_path@ == path@
                },
                None => manifest matches Err(e) && e == BumpError::ManifestParseError,
            },
    {
        match toml_from_str(text) {
            Ok(doc) => CargoToml::from_document(doc, path),
            Err(_) => Err(BumpError::ManifestParseError),
        }
    }

    /// Puts the manifest together as one document: the other fields, and the
    /// table `package` with the version under `version`.
    pub fn to_document(&self) -> (doc: Result<serde_json::Value, BumpError>)
        ensures
            match self.document() {
                Some(tree) => doc matches Ok(d) && tree_of(d) == tree,
                None => doc matches Err(e) && e == BumpError::SerializeError,
            },
    {
        let mut package = copy_of(&self.package.others);
        if !put_member(&mut package, "version", self.package.version.to_value()) {
            return Err(BumpError::SerializeError);
        }
        let mut doc = copy_of(&self.others);
        if put_member(&mut doc, "package", package) {
            Ok(doc)
        } else {
            Err(BumpError::SerializeError)
        }
    }
}

impl PackageUtils for CargoToml {
    open spec fn version(&self) -> Version {
        self.package.version
    }

    open spec fn location(&self) -> Seq<char> {
        self.package_path@
    }

    open spec fn with_version(&self, version: Version) -> Self {
        CargoToml {
            package: CargoPackage { version, others: self.package.others },
            package_path: self.package_path,
            others: self.others,
        }
    }

    open spec fn rendered(&self) -> Option<Seq<char>> {
        match self.document() {
            Some(tree) => toml_text(tree),
            None => None,
        }
    }

    proof fn lemma_with_version(&self, version: Version) {
    }

    fn serialize(&self) -> (text: Result<String, BumpError>) {
        match self.to_document() {
            Ok(doc) => match toml_to_string_pretty(&doc) {
                Ok(text) => Ok(text),
                Err(_) => Err(BumpError::SerializeError),
            },
            Err(error) => Err(error),
        }
    }

    fn get_version(&mut self) -> (version: &Version) {
        &self.package.version
    }

    fn get_location(&self) -> (path: &String) {
        &self.package_path
    }

    fn increment_major(&mut self) -> (done: Result<(), BumpError>) {
        if self.package.version.major == u64::MAX {
            return Err(BumpError::VersionOverflow);
        }
        self.package.version.increment_major();
        Ok(())
    }

    fn increment_minor(&mut self) -> (done: Result<(), BumpError>) {
        if self.package.version.minor == u64::MAX {
            return Err(BumpError::VersionOverflow);
        }
        self.package.version.increment_minor();
        Ok(())
    }

    fn increment_patch(&mut self) -> (done: Result<(), BumpError>) {
        if self.package.version.patch == u64::MAX {
            return Err(BumpError::VersionOverflow);
        }
        self.package.version.increment_patch();
        Ok(())
    }
}

/// A manifest that was taken out of a document stands for that document
/// with one member of its table `package` rewritten: `version`, which holds
/// the canonical text of the manifest's version, whatever was done to the
/// version since. Every other member of the table, and every other member of
/// the document, is as in the document.
pub proof fn lemma_cargo_rewrite(doc: Tree, manifest: CargoToml)
    requires
        cargo_fields(doc) is Some,
        tree_of(manifest.package.others) == cargo_fields(doc).unwrap().1,
        tree_of(manifest.others) == cargo_fields(doc).unwrap().2,
    ensures
        ({
            let text = Tree::Text(format_version(manifest.package.version));
            let package = doc.member("package"@).unwrap().with("version"@, text);
            &&& package is Some
            &&& manifest.document() == doc.with("package"@, package.unwrap())
            &&& manifest.document() is Some
        }),
{
    let text = Tree::Text(format_version(manifest.package.version));
    let members = doc->Table_0;
    let inner = doc.member("package"@).unwrap()->Table_0;
    let package = Tree::Table(inner.insert("version"@, text));
    assert(inner.remove("version"@).insert("version"@, text) =~= inner.insert("version"@, text));
    assert(members.remove("package"@).insert("package"@, package) =~= members.insert(
        "package"@,
        package,
    ));
}

/// A manifest that was taken out of a document and not changed since stands
/// for that very document, same members and same values, and prints as it,
/// on the condition that the document gave the version in canonical text.
pub proof fn lemma_cargo_round_trip(doc: Tree, manifest: CargoToml)
    requires
        cargo_fields(doc) == Some(manifest.fields()),
        doc.member("package"@).unwrap().member("version"@) == Some(
            Tree::Text(format_version(manifest.package.version)),
        ),
    ensures
        manifest.document() == Some(doc),
        manifest.rendered() == toml_text(doc),
{
    lemma_cargo_rewrite(doc, manifest);
    let text = Tree::Text(format_version(manifest.package.version));
    let members = doc->Table_0;
    let inner = doc.member("package"@).unwrap()->Table_0;
    assert(inner.insert("version"@, text) =~= inner);
    assert(members.insert("package"@, doc.member("package"@).unwrap()) =~= members);
}

} // verus!
