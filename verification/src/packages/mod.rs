//! Project manifests of the supported kinds.
//!
//! A manifest carries the project's version among fields that this library
//! does not interpret. Each kind of manifest knows where the version sits in
//! its document and how the document is read and printed; what a bump does to
//! the version is the same for all of them.

pub mod cargo;
pub mod document;
pub mod npm;

use vstd::prelude::*;
use crate::error::BumpError;
use crate::packages::cargo::{cargo_parsed, CargoToml};
use crate::packages::npm::{npm_parsed, PackageJson};
use crate::version::{Increment, Version};

verus! {

/// What every kind of manifest can do.
pub trait PackageUtils: Sized {
    /// The version that the manifest holds.
    spec fn version(&self) -> Version;

    /// The path of the manifest's file.
    spec fn location(&self) -> Seq<char>;

    /// The same manifest with another version: every other field is as in
    /// `self`.
    spec fn with_version(&self, version: Version) -> Self;

    /// The text of the manifest's file, `None` where the document cannot be
    /// printed in the manifest's format.
    spec fn rendered(&self) -> Option<Seq<char>>;

    /// Replacing the version replaces nothing else.
    proof fn lemma_with_version(&self, version: Version)
        ensures
            self.with_version(version).version() == version,
            self.with_version(version).location() == self.location(),
            self.with_version(self.version()) == *self,
    ;

    /// Prints the whole manifest, version and all other fields, in its
    /// format. The caller writes the text to [`get_location`].
    ///
    /// [`get_location`]: PackageUtils::get_location
    fn serialize(&self) -> (text: Result<String, BumpError>)
        ensures
            match self.rendered() {
                Some(rendered) => text matches Ok(t) && t@ == rendered,
                None => text == Err::<String, BumpError>(BumpError::SerializeError),
            },
    ;

    /// The version that the manifest holds.
    fn get_version(&mut self) -> (version: &Version)
        ensures
            *version == old(self).version(),
            *final(self) == *old(self),
    ;

    /// The path of the manifest's file.
    fn get_location(&self) -> (path: &String)
        ensures
            path@ == self.location(),
    ;

    /// Raises the major component and resets the others. Fails, and changes
    /// nothing, where the major component cannot grow.
    fn increment_major(&mut self) -> (done: Result<(), BumpError>)
        ensures
            if old(self).version().can_raise(Increment::Major) {
                &&& done is Ok
                &&& *final(self) == old(self).with_version(
                    old(self).version().raised(Increment::Major),
                )
            } else {
                &&& done == Err::<(), BumpError>(BumpError::VersionOverflow)
                &&& *final(self) == *old(self)
            },
    ;

    /// Raises the minor component and resets the patch. Fails, and changes
    /// nothing, where the minor component cannot grow.
    fn increment_minor(&mut self) -> (done: Result<(), BumpError>)
        ensures
            if old(self).version().can_raise(Increment::Minor) {
                &&& done is Ok
                &&& *final(self) == old(self).with_version(
                    old(self).version().raised(Increment::Minor),
                )
            } else {
                &&& done == Err::<(), BumpError>(BumpError::VersionOverflow)
                &&& *final(self) == *old(self)
            },
    ;

    /// Raises the patch component. Fails, and changes nothing, where the
    /// patch component cannot grow.
    fn increment_patch(&mut self) -> (done: Result<(), BumpError>)
        ensures
            if old(self).version().can_raise(Increment::Patch) {
                &&& done is Ok
                &&& *final(self) == old(self).with_version(
                    old(self).version().raised(Increment::Patch),
                )
            } else {
                &&& done == Err::<(), BumpError>(BumpError::VersionOverflow)
                &&& *final(self) == *old(self)
            },
    ;
}

/// The kinds of manifest that are supported.
#[derive(Debug, Clone, Copy, PartialEq, Eq, Structural)]
pub enum ManifestKind {
    /// `Cargo.toml`.
    Cargo,
    /// `package.json`.
    Npm,
}

impl ManifestKind {
    /// The name of the file that holds a manifest of this kind.
    pub open spec fn path(self) -> Seq<char> {
        match self {
            ManifestKind::Cargo => "Cargo.toml"@,
            ManifestKind::Npm => "package.json"@,
        }
    }

    /// The name of the file that holds a manifest of this kind.
    pub fn file_name(&self) -> (name: &'static str)
        ensures
            name@ == self.path(),
    {
        match self {
            ManifestKind::Cargo => "Cargo.toml",
            ManifestKind::Npm => "package.json",
        }
    }
}

/// Chooses the kind of manifest to work on, given which manifest files are
/// present. A Cargo-style manifest takes precedence over an npm-style one;
/// with neither present there is nothing to work on.
pub fn resolve(cargo_toml: bool, package_json: bool) -> (kind: Result<ManifestKind, BumpError>)
    ensures
        cargo_toml ==> kind == Ok::<ManifestKind, BumpError>(ManifestKind::Cargo),
        !cargo_toml && package_json ==> kind == Ok::<ManifestKind, BumpError>(ManifestKind::Npm),
        !cargo_toml && !package_json ==> kind == Err::<ManifestKind, BumpError>(
            BumpError::ManifestNotFound,
        ),
{
    if cargo_toml {
        Ok(ManifestKind::Cargo)
    } else if package_json {
        Ok(ManifestKind::Npm)
    } else {
        Err(BumpError::ManifestNotFound)
    }
}

/// A manifest of either kind.
#[derive(Debug)]
pub enum Package {
    Cargo(CargoToml),
    Npm(PackageJson),
}

/// Reads the manifest of the given kind from the text of its file.
pub fn load(kind: ManifestKind, data: &str) -> (package: Result<Package, BumpError>)
    ensures
        match kind {
            ManifestKind::Cargo => match cargo_parsed(data@) {
                Some(fields) => {
                    &&& package matches Ok(Package::Cargo(m))
                    &&& m.fields() == fields
                    &&& m.package_path@ == kind.path()
                },
                None => package matches Err(e) && e == BumpError::ManifestParseError,
            },
            ManifestKind::Npm => match npm_parsed(data@) {
                Some(fields) => {
                    &&& package matches Ok(Package::Npm(m))
                    &&& m.fields() == fields
                    &&& m.package_path@ == kind.path()
                },
                None => package matches Err(e) && e == BumpError::ManifestParseError,
            },
        },
{
    match kind {
        ManifestKind::Cargo => match CargoToml::parse(data, kind.file_name()) {
            Ok(manifest) => Ok(Package::Cargo(manifest)),
            Err(error) => Err(error),
        },
        ManifestKind::Npm => match PackageJson::parse(data, kind.file_name()) {
            Ok(manifest) => Ok(Package::Npm(manifest)),
            Err(error) => Err(error),
        },
    }
}

impl PackageUtils for Package {
    open spec fn version(&self) -> Version {
        match self {
            Package::Cargo(manifest) => manifest.version(),
            Package::Npm(manifest) => manifest.version(),
        }
    }

    open spec fn location(&self) -> Seq<char> {
        match self {
            Package::Cargo(manifest) => manifest.location(),
            Package::Npm(manifest) => manifest.location(),
        }
    }

    open spec fn with_version(&self, version: Version) -> Self {
        match self {
            Package::Cargo(manifest) => Package::Cargo(manifest.with_version(version)),
            Package::Npm(manifest) => Package::Npm(manifest.with_version(version)),
        }
    }

    open spec fn rendered(&self) -> Option<Seq<char>> {
        match self {
            Package::Cargo(manifest) => manifest.rendered(),
            Package::Npm(manifest) => manifest.rendered(),
        }
    }

    proof fn lemma_with_version(&self, version: Version) {
    }

    fn serialize(&self) -> (text: Result<String, BumpError>) {
        match self {
            Package::Cargo(manifest) => manifest.serialize(),
            Package::Npm(manifest) => manifest.serialize(),
        }
    }

    fn get_version(&mut self) -> (version: &Version) {
        match self {
            Package::Cargo(manifest) => manifest.get_version(),
            Package::Npm(manifest) => manifest.get_version(),
        }
    }

    fn get_location(&self) -> (path: &String) {
        match self {
            Package::Cargo(manifest) => manifest.get_location(),
            Package::Npm(manifest) => manifest.get_location(),
        }
    }

    fn increment_major(&mut self) -> (done: Result<(), BumpError>) {
        match self {
            Package::Cargo(manifest) => manifest.increment_major(),
            Package::Npm(manifest) => manifest.increment_major(),
        }
    }

    fn increment_minor(&mut self) -> (done: Result<(), BumpError>) {
        match self {
            Package::Cargo(manifest) => manifest.increment_minor(),
            Package::Npm(manifest) => manifest.increment_minor(),
        }
    }

    fn increment_patch(&mut self) -> (done: Result<(), BumpError>) {
        match self {
            Package::Cargo(manifest) => manifest.increment_patch(),
            Package::Npm(manifest) => manifest.increment_patch(),
        }
    }
}

} // verus!
