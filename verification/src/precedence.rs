//! The order of versions: by major, then minor, then patch.

use vstd::prelude::*;
use std::cmp::Ordering;
use crate::version::{Increment, Version};

verus! {

impl Version {
    /// Whether `self` comes before `other`: the most significant component
    /// in which they differ is smaller in `self`.
    pub open spec fn precedes(self, other: Version) -> bool {
        self.major < other.major || (self.major == other.major && (self.minor < other.minor || (
        self.minor == other.minor && self.patch < other.patch)))
    }

    /// How `self` stands to `other`.
    pub open spec fn ordering(self, other: Version) -> Ordering {
        if self.precedes(other) {
            Ordering::Less
        } else if self == other {
            Ordering::Equal
        } else {
            Ordering::Greater
        }
    }
}

impl PartialOrd for Version {
    fn partial_cmp(&self, other: &Version) -> (r: Option<Ordering>) {
        if self.major < other.major {
            Some(Ordering::Less)
        } else if self.major > other.major {
            Some(Ordering::Greater)
        } else if self.minor < other.minor {
            Some(Ordering::Less)
        } else if self.minor > other.minor {
            Some(Ordering::Greater)
        } else if self.patch < other.patch {
            Some(Ordering::Less)
        } else if self.patch > other.patch {
            Some(Ordering::Greater)
        } else {
            Some(Ordering::Equal)
        }
    }
}

impl vstd::std_specs::cmp::PartialOrdSpecImpl for Version {
    open spec fn obeys_partial_cmp_spec() -> bool {
        true
    }

    open spec fn partial_cmp_spec(&self, other: &Version) -> Option<Ordering> {
        Some(self.ordering(*other))
    }
}

/// Of two versions exactly one holds: the first precedes the second, they
/// are equal, or the second precedes the first.
pub proof fn lemma_order_is_total(a: Version, b: Version)
    ensures
        a.precedes(b) || a == b || b.precedes(a),
        !(a.precedes(b) && b.precedes(a)),
        !a.precedes(a),
{
}

/// What precedes a version precedes all that the version precedes.
pub proof fn lemma_order_is_transitive(a: Version, b: Version, c: Version)
    requires
        a.precedes(b),
        b.precedes(c),
    ensures
        a.precedes(c),
{
}

/// Every bump leads to a later version.
pub proof fn lemma_bump_goes_forward(v: Version, increment: Increment)
    requires
        v.can_raise(increment),
    ensures
        v.precedes(v.raised(increment)),
{
}

} // verus!
