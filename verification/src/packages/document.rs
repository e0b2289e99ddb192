//! Manifest documents and the crates that read and print them.
//!
//! A manifest is held as a `serde_json::Value`, whatever its file format: the
//! JSON and TOML crates both fill one and both print one. The library does not
//! look inside such a value. It speaks of the [`Tree`] that the value holds,
//! and everything it knows of that tree comes from the contracts below, none
//! of which Verus has proved: each restates what the crate's source shows of
//! one call.

use vstd::prelude::*;
use crate::version::{format_version, parse_version, Version};

verus! {

/// `serde_json::Value`, the document value. Nothing of its inside is known
/// to the verifier.
#[verifier::external_type_specification]
#[verifier::external_body]
pub struct ExValue(serde_json::Value);

/// `serde_json::Error`, carried from a failed call to where it is mapped.
#[verifier::external_type_specification]
#[verifier::external_body]
pub struct ExJsonError(serde_json::Error);

/// `toml::de::Error`, carried from a failed call to where it is mapped.
#[verifier::external_type_specification]
#[verifier::external_body]
pub struct ExTomlDeError(toml::de::Error);

/// `toml::ser::Error`, carried from a failed call to where it is mapped.
#[verifier::external_type_specification]
#[verifier::external_body]
pub struct ExTomlSerError(toml::ser::Error);

/// The content of a document, as a mathematical value.
pub enum Tree {
    /// The absent value.
    Null,
    /// A truth value.
    Bool(bool),
    /// A number, by its decimal text.
    Number(Seq<char>),
    /// A text, by its characters.
    Text(Seq<char>),
    /// Values in a row.
    List(Seq<Tree>),
    /// Named members. A name occurs once, and the order of members is that of
    /// their names.
    Table(Map<Seq<char>, Tree>),
}

impl Tree {
    /// The member called `key`, where the tree is a table that has one.
    pub open spec fn member(self, key: Seq<char>) -> Option<Tree> {
        match self {
            Tree::Table(members) => if members.contains_key(key) {
                Some(members[key])
            } else {
                None
            },
            _ => None,
        }
    }

    /// The tree without its member `key`. A tree that has no such member is
    /// left as it is.
    pub open spec fn without(self, key: Seq<char>) -> Tree {
        match self {
            Tree::Table(members) => Tree::Table(members.remove(key)),
            _ => self,
        }
    }

    /// The table with `value` as its member `key`, in place of any member of
    /// that name. Only a table can take a member.
    pub open spec fn with(self, key: Seq<char>, value: Tree) -> Option<Tree> {
        match self {
            Tree::Table(members) => Some(Tree::Table(members.insert(key, value))),
            _ => None,
        }
    }

    /// The text that the tree consists of, where it is a text.
    pub open spec fn text(self) -> Option<Seq<char>> {
        match self {
            Tree::Text(text) => Some(text),
            _ => None,
        }
    }
}

/// The tree that a document value holds.
pub uninterp spec fn tree_of(value: serde_json::Value) -> Tree;

/// The tree that `serde_json::from_str` reads from a JSON text, `None` where
/// it rejects the text.
pub uninterp spec fn json_tree(text: Seq<char>) -> Option<Tree>;

/// The tree that `toml::from_str` reads from a TOML text, `None` where it
/// rejects the text.
pub uninterp spec fn toml_tree(text: Seq<char>) -> Option<Tree>;

/// The indented JSON text that `serde_json::to_string_pretty` prints for a
/// tree, `None` where it reports an error.
pub uninterp spec fn json_text(tree: Tree) -> Option<Seq<char>>;

/// The TOML text that `toml::to_string_pretty` prints for a tree, `None`
/// where it reports an error, as it does for a tree that TOML cannot hold.
pub uninterp spec fn toml_text(tree: Tree) -> Option<Seq<char>>;

/// `serde_json::from_str` at `serde_json::Value`: reads a whole JSON text.
/// Trusted: the outcome depends on the text alone, and is named `json_tree`.
#[verifier::external_body]
pub(crate) fn json_from_str(text: &str) -> (r: Result<serde_json::Value, serde_json::Error>)
    ensures
        match r {
            Ok(value) => json_tree(text@) == Some(tree_of(value)),
            Err(_) => json_tree(text@) is None,
        },
{
    serde_json::from_str::<serde_json::Value>(text)
}

/// `toml::from_str` at `serde_json::Value`: reads a whole TOML document.
/// Trusted: the outcome depends on the text alone, and is named `toml_tree`.
#[verifier::external_body]
pub(crate) fn toml_from_str(text: &str) -> (r: Result<serde_json::Value, toml::de::Error>)
    ensures
        match r {
            Ok(value) => toml_tree(text@) == Some(tree_of(value)),
            Err(_) => toml_tree(text@) is None,
        },
{
    toml::from_str::<serde_json::Value>(text)
}

/// `serde_json::to_string_pretty` of a document value. Trusted: the outcome
/// depends on the tree alone, and is named `json_text`.
#[verifier::external_body]
pub(crate) fn json_to_string_pretty(value: &serde_json::Value) -> (r: Result<
    String,
    serde_json::Error,
>)
    ensures
        match r {
            Ok(text) => json_text(tree_of(*value)) == Some(text@),
            Err(_) => json_text(tree_of(*value)) is None,
        },
{
    serde_json::to_string_pretty(value)
}

/// `toml::to_string_pretty` of a document value. Trusted: the outcome depends
/// on the tree alone, and is named `toml_text`.
#[verifier::external_body]
pub(crate) fn toml_to_string_pretty(value: &serde_json::Value) -> (r: Result<
    String,
    toml::ser::Error,
>)
    ensures
        match r {
            Ok(text) => toml_text(tree_of(*value)) == Some(text@),
            Err(_) => toml_text(tree_of(*value)) is None,
        },
{
    toml::to_string_pretty(value)
}

/// `serde_json::Map::remove` on the map of an object value. Trusted: a table
/// that has the member gives it up and keeps the others; any other value is
/// left alone and gives nothing.
#[verifier::external_body]
pub(crate) fn take_member(doc: &mut serde_json::Value, key: &str) -> (r: Option<
    serde_json::Value,
>)
    ensures
        match tree_of(*old(doc)).member(key@) {
            Some(member) => r matches Some(value) && tree_of(value) == member,
            None => r is None,
        },
        tree_of(*final(doc)) == tree_of(*old(doc)).without(key@),
{
    match doc {
        serde_json::Value::Object(members) => members.remove(key),
        _ => None,
    }
}

/// `serde_json::Map::insert` on the map of an object value. Trusted: a table
/// takes the member, in place of one of the same name, and `true` is
/// returned; any other value is left alone and `false` is returned.
#[verifier::external_body]
pub(crate) fn put_member(doc: &mut serde_json::Value, key: &str, member: serde_json::Value) -> (r:
    bool)
    ensures
        r == (tree_of(*old(doc)).with(key@, tree_of(member)) is Some),
        tree_of(*final(doc)) == match tree_of(*old(doc)).with(key@, tree_of(member)) {
            Some(tree) => tree,
            None => tree_of(*old(doc)),
        },
{
    match doc {
        serde_json::Value::Object(members) => {
            members.insert(key.to_owned(), member);
            true
        },
        _ => false,
    }
}

/// `serde_json::Value::as_str`. Trusted: a text value lends its text, any
/// other value gives nothing.
#[verifier::external_body]
pub(crate) fn as_text(value: &serde_json::Value) -> (r: Option<&str>)
    ensures
        match tree_of(*value).text() {
            Some(text) => r matches Some(s) && s@ == text,
            None => r is None,
        },
{
    value.as_str()
}

/// `serde_json::Value::from` a `String`. Trusted: the value is that text.
#[verifier::external_body]
pub(crate) fn text_value(text: String) -> (r: serde_json::Value)
    ensures
        tree_of(r) == Tree::Text(text@),
{
    serde_json::Value::from(text)
}

/// `Clone::clone` of a document value. Trusted: the copy holds the same tree.
#[verifier::external_body]
pub(crate) fn copy_of(value: &serde_json::Value) -> (r: serde_json::Value)
    ensures
        tree_of(r) == tree_of(*value),
{
    value.clone()
}

impl Version {
    /// The version as a document value: its canonical text.
    pub fn to_value(&self) -> (value: serde_json::Value)
        ensures
            tree_of(value) == Tree::Text(format_version(*self)),
    {
        text_value(self.to_string())
    }

    /// The version that a document value denotes: a text is read leniently,
    /// any other value denotes none.
    pub fn from_value(value: &serde_json::Value) -> (version: Option<Version>)
        ensures
            version == match tree_of(*value).text() {
                Some(text) => Some(parse_version(text)),
                None => None,
            },
    {
        match as_text(value) {
            Some(text) => Some(Version::from_str(text)),
            None => None,
        }
    }
}

} // verus!
