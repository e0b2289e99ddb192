//! Bumps the semantic version recorded in a project manifest.
//!
//! The library holds the rules of a bump: the version triple and its text
//! form, the manifest documents that carry it alongside fields they do not
//! interpret, the choice among manifest kinds, and the order in which a run
//! writes, commits and tags. Reading and writing files, talking to the
//! repository and asking the operator are left to the caller, which follows
//! the plan that [`workflow`] lays out.

pub mod decimal;
pub mod error;
pub mod packages;
pub mod precedence;
pub mod version;
pub mod versioning;
pub mod workflow;
