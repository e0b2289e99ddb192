//! The npm-style manifest: a JSON object with a text member `version`.

use vstd::prelude::*;
use crate::error::BumpError;
use crate::packages::document::{
    copy_of,
    json_from_str,
    json_text,
    json_to_string_pretty,
    json_tree,
    put_member,
    take_member,
    tree_of,
    Tree,
};
use crate::packages::PackageUtils;
use crate::version::{format_version, parse_version, Version};

verus! {

/// An npm-style manifest.
#[derive(Debug)]
pub struct PackageJson {
    /// The version, read from the member `version`.
    pub version: Version,
    /// The path of the file that the manifest came from.
    pub package_path: String,
    /// The document without its member `version`.
    pub others: serde_json::Value,
}

/// What an npm-style document holds: the version that its member `version`
/// denotes, and the document without that member. `None` where the document
/// is no table, or has no member `version`, or has one that is no text.
pub open spec fn npm_fields(doc: Tree) -> Option<(Version, Tree)> {
    match doc.member("version"@) {
        Some(Tree::Text(text)) => Some((parse_version(text), doc.without("version"@))),
        _ => None,
    }
}

/// The npm-style document of a version and the other fields: the others with
/// the canonical text of the version as their member `version`. `None` where
/// the others are no table.
pub open spec fn npm_document(version: Version, others: Tree) -> Option<Tree> {
    others.with("version"@, Tree::Text(format_version(version)))
}

/// What an npm-style manifest file holds, by its text. `None` where the text
/// is no JSON, or is JSON without a text member `version`.
pub open spec fn npm_parsed(text: Seq<char>) -> Option<(Version, Tree)> {
    match json_tree(text) {
        Some(doc) => npm_fields(doc),
        None => None,
    }
}

impl PackageJson {
    /// The version and the other fields, as a tree.
    pub open spec fn fields(&self) -> (Version, Tree) {
        (self.version, tree_of(self.others))
    }

    /// The document that the manifest stands for.
    pub open spec fn document(&self) -> Option<Tree> {
        npm_document(self.version, tree_of(self.others))
    }

    /// Takes a manifest out of a document that was read from `path`.
    pub fn from_document(doc: serde_json::Value, path: &str) -> (manifest: Result<
        PackageJson,
        BumpError,
    >)
        ensures
            match npm_fields(tree_of(doc)) {
                Some(fields) => {
                    &&& manifest matches Ok(m)
                    &&& m.fields() == fields
                    &&& m.package_path@ == path@
                },
                None => manifest matches Err(e) && e == BumpError::ManifestParseError,
            },
    {
        let mut others = doc;
        let version = match take_member(&mut others, "version") {
            Some(member) => match Version::from_value(&member) {
                Some(version) => version,
                None => {
                    return Err(BumpError::ManifestParseError);
                },
            },
            None => {
                return Err(BumpError::ManifestParseError);
            },
        };
        Ok(PackageJson { version, package_path: path.to_owned(), others })
    }

    /// Reads a manifest from the text of the file at `path`.
    pub fn parse(text: &str, path: &str) -> (manifest: Result<PackageJson, BumpError>)
        ensures
            match npm_parsed(text@) {
                Some(fields) => {
                    &&& manifest matches Ok(m)
                    &&& m.fields() == fields
                    &&& m.package_path@ == path@
                },
                None => manifest matches Err(e) && e == BumpError::ManifestParseError,
            },
    {
        match json_from_str(text) {
            Ok(doc) => PackageJson::from_document(doc, path),
            Err(_) => Err(BumpError::ManifestParseError),
        }
    }

    /// Puts the manifest together as one document: the other fields, and the
    /// version under `version`.
    pub fn to_document(&self) -> (doc: Result<serde_json::Value, BumpError>)
        ensures
            match self.document() {
                Some(tree) => doc matches Ok(d) && tree_of(d) == tree,
                None => doc matches Err(e) && e == BumpError::SerializeError,
            },
    {
        let mut doc = copy_of(&self.others);
        if put_member(&mut doc, "version", self.version.to_value()) {
            Ok(doc)
        } else {
            Err(BumpError::SerializeError)
        }
    }
}

impl PackageUtils for PackageJson {
    open spec fn version(&self) -> Version {
        self.version
    }

    open spec fn location(&self) -> Seq<char> {
        self.package_path@
    }

    open spec fn with_version(&self, version: Version) -> Self {
        PackageJson { version, package_path: self.package_path, others: self.others }
    }

    open spec fn rendered(&self) -> Option<Seq<char>> {
        match self.document() {
            Some(tree) => json_text(tree),
            None => None,
        }
    }

    proof fn lemma_with_version(&self, version: Version) {
    }

    fn serialize(&self) -> (text: Result<String, BumpError>) {
        match self.to_document() {
            Ok(doc) => match json_to_string_pretty(&doc) {
                Ok(text) => Ok(text),
                Err(_) => Err(BumpError::SerializeError),
            },
            Err(error) => Err(error),
        }
    }

    fn get_version(&mut self) -> (version: &Version) {
        &self.version
    }

    fn get_location(&self) -> (path: &String) {
        &self.package_path
    }

    fn increment_major(&mut self) -> (done: Result<(), BumpError>) {
        if self.version.major == u64::MAX {
            return Err(BumpError::VersionOverflow);
        }
        self.version.increment_major();
        Ok(())
    }

    fn increment_minor(&mut self) -> (done: Result<(), BumpError>) {
        if self.version.minor == u64::MAX {
            return Err(BumpError::VersionOverflow);
        }
        self.version.increment_minor();
        Ok(())
    }

    fn increment_patch(&mut self) -> (done: Result<(), BumpError>) {
        if self.version.patch == u64::MAX {
            return Err(BumpError::VersionOverflow);
        }
        self.version.increment_patch();
        Ok(())
    }
}

/// A manifest that was taken out of a document stands for that document
/// with one member rewritten: `version`, which holds the canonical text of
/// the manifest's version, whatever was done to the version since. Every
/// other member is as in the document.
pub proof fn lemma_npm_rewrite(doc: Tree, manifest: PackageJson)
    requires
        npm_fields(doc) is Some,
        tree_of(manifest.others) == npm_fields(doc).unwrap().1,
    ensures
        manifest.document() == doc.with("version"@, Tree::Text(format_version(manifest.version))),
        manifest.document() is Some,
{
    let text = Tree::Text(format_version(manifest.version));
    let members = doc->Table_0;
    assert(members.remove("version"@).insert("version"@, text) =~= members.insert(
        "version"@,
        text,
    ));
}

/// A manifest that was taken out of a document and not changed since stands
/// for that very document, same members and same values, and prints as it,
/// on the condition that the document gave the version in canonical text.
pub proof fn lemma_npm_round_trip(doc: Tree, manifest: PackageJson)
    requires
        npm_fields(doc) == Some(manifest.fields()),
        doc.member("version"@) == Some(Tree::Text(format_version(manifest.version))),
    ensures
        manifest.document() == Some(doc),
        manifest.rendered() == json_text(doc),
{
    lemma_npm_rewrite(doc, manifest);
    let members = doc->Table_0;
    assert(members.insert("version"@, Tree::Text(format_version(manifest.version))) =~= members);
}

} // verus!
