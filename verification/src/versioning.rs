//! What a run records in the repository: one commit of the manifest, and a
//! tag on it.
//!
//! The repository itself is the caller's business. This module fixes what is
//! asked of it: which path is staged, what the commit and the tag are called,
//! and whose name they carry.

use vstd::prelude::*;
use vstd::string::StringExecFns;

verus! {

/// The commit that records a bump.
#[derive(Debug, PartialEq, Eq)]
pub struct CommitRecord {
    /// The one path that is staged: the manifest's.
    pub path: String,
    /// The commit message.
    pub message: String,
    /// The reference that is moved to the new commit, whose sole parent is
    /// the commit that the reference pointed to.
    pub reference: String,
}

/// The tag that marks the commit of a bump.
#[derive(Debug, PartialEq, Eq)]
pub struct TagRecord {
    /// The tag's name.
    pub name: String,
    /// The tag's message.
    pub message: String,
    /// Whether a tag of the same name is replaced.
    pub force: bool,
}

/// Who signs a commit or a tag.
#[derive(Debug, PartialEq, Eq)]
pub struct Identity {
    pub name: String,
    pub email: String,
}

impl Identity {
    /// The identity that signs by default where the repository is configured
    /// with none.
    pub fn fallback() -> (identity: Identity)
        ensures
            identity.name@ == "pvb"@,
            identity.email@ == "pvb@localhost"@,
    {
        Identity { name: String::from_str("pvb"), email: String::from_str("pvb@localhost") }
    }
}

/// The message of the commit that records `version`.
pub open spec fn commit_message(version: Seq<char>) -> Seq<char> {
    "build: "@ + version
}

/// The commit for a bump to `version` of the manifest at `path`: it stages
/// that path alone, its message is `build: ` followed by the version, and it
/// goes on top of `HEAD`.
pub fn commit_record(path: &str, version: &str) -> (record: CommitRecord)
    ensures
        record.path@ == path@,
        record.message@ == commit_message(version@),
        record.reference@ == "HEAD"@,
{
    CommitRecord {
        path: path.to_owned(),
        message: String::from_str("build: ").concat(version),
        reference: String::from_str("HEAD"),
    }
}

/// The tag for a bump to `version`: it is named exactly as the version, its
/// message is empty, and it replaces no tag that exists.
pub fn tag_record(version: &str) -> (record: TagRecord)
    ensures
        record.name@ == version@,
        record.message@ == Seq::<char>::empty(),
        !record.force,
{
    TagRecord { name: version.to_owned(), message: String::new(), force: false }
}

/// Chooses who signs: the identity that the repository is configured with,
/// and the fallback where it has none.
pub fn resolve_signature(configured: Option<Identity>, fallback: Identity) -> (identity: Identity)
    ensures
        identity == match configured {
            Some(configured) => configured,
            None => fallback,
        },
{
    match configured {
        Some(configured) => configured,
        None => fallback,
    }
}

} // verus!
