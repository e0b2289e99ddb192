//! The semantic version triple and its text form.
//!
//! The text form is `major.minor.patch`. Reading is lenient: the text is cut
//! at its dots, the first three parts are read as unsigned integers, and a
//! part that is absent or is no such integer counts as 0.

use vstd::prelude::*;
use crate::decimal::{
    is_digit,
    lemma_numeral,
    lemma_parse_numeral,
    numeral,
    parse_u64,
    push_u64,
    read_u64,
};

verus! {

/// A semantic version: three non-negative components.
#[derive(Debug, Clone, Copy, PartialEq, Eq, Hash, Structural)]
pub struct Version {
    pub major: u64,
    pub minor: u64,
    pub patch: u64,
}

/// Which component of a version a bump raises.
#[derive(Debug, Clone, Copy, PartialEq, Eq, Hash, Structural)]
pub enum Increment {
    Major,
    Minor,
    Patch,
}

/// Whether `s` holds no dot.
pub open spec fn dot_free(s: Seq<char>) -> bool {
    forall|i: int| 0 <= i < s.len() ==> #[trigger] s[i] != '.'
}

/// How many dots `s` holds.
pub open spec fn dots(s: Seq<char>) -> nat
    decreases s.len(),
{
    if s.len() == 0 {
        0
    } else if s.last() == '.' {
        dots(s.drop_last()) + 1
    } else {
        dots(s.drop_last())
    }
}

/// Where the part of `s` that begins at `start` ends: at the first dot from
/// there on, or at the end of `s`.
pub open spec fn part_end(s: Seq<char>, start: int) -> int
    decreases s.len() - start,
{
    if start >= s.len() {
        s.len() as int
    } else if s[start] == '.' {
        start
    } else {
        part_end(s, start + 1)
    }
}

/// Where the `n`-th dot-separated part of `s` begins, counting from 0: right
/// after the `n`-th dot. `None` where `s` has fewer than `n` dots.
pub open spec fn part_start(s: Seq<char>, n: nat) -> Option<int>
    decreases n,
{
    if n == 0 {
        Some(0)
    } else {
        match part_start(s, (n - 1) as nat) {
            Some(start) => if part_end(s, start) < s.len() {
                Some(part_end(s, start) + 1)
            } else {
                None
            },
            None => None,
        }
    }
}

/// The `n`-th dot-separated part of `s`, counting from 0.
pub open spec fn part(s: Seq<char>, n: nat) -> Option<Seq<char>> {
    match part_start(s, n) {
        Some(start) => Some(s.subrange(start, part_end(s, start))),
        None => None,
    }
}

/// The number that the `n`-th part of `s` contributes: its value as an
/// unsigned integer, and 0 where the part is absent or is no such integer.
pub open spec fn component(s: Seq<char>, n: nat) -> u64 {
    match part(s, n) {
        Some(text) => match parse_u64(text) {
            Some(value) => value,
            None => 0,
        },
        None => 0,
    }
}

/// The version that a text denotes.
pub open spec fn parse_version(s: Seq<char>) -> Version {
    Version { major: component(s, 0), minor: component(s, 1), patch: component(s, 2) }
}

/// The canonical text of a version.
pub open spec fn format_version(v: Version) -> Seq<char> {
    numeral(v.major as nat) + seq!['.'] + numeral(v.minor as nat) + seq!['.'] + numeral(
        v.patch as nat,
    )
}

impl Version {
    /// The version with the major component raised by one and the others
    /// reset.
    pub open spec fn next_major(self) -> Version
        recommends
            self.major < u64::MAX,
    {
        Version { major: (self.major + 1) as u64, minor: 0, patch: 0 }
    }

    /// The version with the minor component raised by one and the patch
    /// reset.
    pub open spec fn next_minor(self) -> Version
        recommends
            self.minor < u64::MAX,
    {
        Version { major: self.major, minor: (self.minor + 1) as u64, patch: 0 }
    }

    /// The version with the patch component raised by one.
    pub open spec fn next_patch(self) -> Version
        recommends
            self.patch < u64::MAX,
    {
        Version { major: self.major, minor: self.minor, patch: (self.patch + 1) as u64 }
    }

    /// Whether the component that `increment` names can still grow.
    pub open spec fn can_raise(self, increment: Increment) -> bool {
        match increment {
            Increment::Major => self.major < u64::MAX,
            Increment::Minor => self.minor < u64::MAX,
            Increment::Patch => self.patch < u64::MAX,
        }
    }

    /// The version after the bump that `increment` names: that component
    /// raised by one, the less significant ones reset, the more significant
    /// ones kept.
    pub open spec fn raised(self, increment: Increment) -> Version
        recommends
            self.can_raise(increment),
    {
        match increment {
            Increment::Major => self.next_major(),
            Increment::Minor => self.next_minor(),
            Increment::Patch => self.next_patch(),
        }
    }

    /// Builds a version from its three components.
    pub fn new(major: u64, minor: u64, patch: u64) -> (v: Version)
        ensures
            v == (Version { major, minor, patch }),
    {
        Version { major, minor, patch }
    }

    /// Reads a version from its text. Never fails: a part that is missing or
    /// is not an unsigned integer that fits 64 bits counts as 0, and parts
    /// beyond the third are ignored.
    pub fn from_str(version: &str) -> (v: Version)
        ensures
            v == parse_version(version@),
    {
        let chars = chars_of(version);
        let (major, second) = read_component(&chars, Some(0), Ghost(0));
        let (minor, third) = read_component(&chars, second, Ghost(1));
        let (patch, _) = read_component(&chars, third, Ghost(2));
        Version { major, minor, patch }
    }

    /// Writes the version as `major.minor.patch`.
    pub fn to_string(&self) -> (text: String)
        ensures
            text@ == format_version(*self),
    {
        let mut text = String::new();
        push_u64(&mut text, self.major);
        text.push('.');
        push_u64(&mut text, self.minor);
        text.push('.');
        push_u64(&mut text, self.patch);
        text
    }

    /// Raises the major component by one and resets minor and patch to 0.
    pub fn increment_major(&mut self)
        requires
            old(self).major < u64::MAX,
        ensures
            *final(self) == old(self).next_major(),
            final(self).major == old(self).major + 1,
            final(self).minor == 0,
            final(self).patch == 0,
    {
        self.major += 1;
        self.minor = 0;
        self.patch = 0;
    }

    /// Raises the minor component by one and resets patch to 0. The major
    /// component stays.
    pub fn increment_minor(&mut self)
        requires
            old(self).minor < u64::MAX,
        ensures
            *final(self) == old(self).next_minor(),
            final(self).major == old(self).major,
            final(self).minor == old(self).minor + 1,
            final(self).patch == 0,
    {
        self.minor += 1;
        self.patch = 0;
    }

    /// Raises the patch component by one. Major and minor stay.
    pub fn increment_patch(&mut self)
        requires
            old(self).patch < u64::MAX,
        ensures
            *final(self) == old(self).next_patch(),
            final(self).major == old(self).major,
            final(self).minor == old(self).minor,
            final(self).patch == old(self).patch + 1,
    {
        self.patch += 1;
    }
}

/// The characters of `text`, one by one.
fn chars_of(text: &str) -> (chars: Vec<char>)
    ensures
        chars@ == text@,
{
    let mut chars: Vec<char> = Vec::new();
    for c in it: text.chars()
        invariant
            chars@ == it.seq().take(it.index() as int),
    {
        chars.push(c);
    }
    chars
}

/// Reads the part that begins at `start`, which is the `n`-th, and says where
/// the next one begins.
fn read_component(chars: &Vec<char>, start: Option<usize>, Ghost(n): Ghost<nat>) -> (r: (
    u64,
    Option<usize>,
))
    requires
        start matches Some(from) ==> from <= chars.len(),
        part_start(chars@, n) == match start {
            Some(from) => Some(from as int),
            None => None,
        },
    ensures
        r.0 == component(chars@, n),
        r.1 matches Some(from) ==> from <= chars.len(),
        part_start(chars@, n + 1) == match r.1 {
            Some(from) => Some(from as int),
            None => None,
        },
{
    match start {
        None => (0, None),
        Some(from) => {
            let mut end: usize = from;
            while end < chars.len() && chars[end] != '.'
                invariant
                    from <= end <= chars.len(),
                    part_end(chars@, from as int) == part_end(chars@, end as int),
                decreases chars.len() - end,
            {
                end += 1;
            }
            let value = match read_u64(chars, from, end) {
                Some(value) => value,
                None => 0,
            };
            let next = if end < chars.len() {
                Some(end + 1)
            } else {
                None
            };
            (value, next)
        },
    }
}

/// A part ends where its run of characters other than the dot ends.
pub proof fn lemma_part_end(s: Seq<char>, start: int, end: int)
    requires
        0 <= start <= end <= s.len(),
        dot_free(s.subrange(start, end)),
        end < s.len() ==> s[end] == '.',
    ensures
        part_end(s, start) == end,
    decreases end - start,
{
    if start < end {
        assert(s.subrange(start, end)[0] == s[start]);
        assert(s.subrange(start + 1, end) =~= s.subrange(start, end).skip(1));
        lemma_part_end(s, start + 1, end);
    }
}

/// Where the parts of a text lie. The `n`-th part begins at the start of
/// the text or right after a dot, with exactly `n` dots before it; it holds no
/// dot; and it ends at a dot or at the end of the text.
pub proof fn lemma_part_bounds(s: Seq<char>, n: nat)
    requires
        part_start(s, n) is Some,
    ensures
        ({
            let start = part_start(s, n).unwrap();
            let end = part_end(s, start);
            &&& 0 <= start <= end <= s.len()
            &&& part(s, n) == Some(s.subrange(start, end))
            &&& dot_free(s.subrange(start, end))
            &&& n > 0 ==> s[start - 1] == '.'
            &&& end < s.len() ==> s[end] == '.'
            &&& dots(s.take(start)) == n
        }),
    decreases n,
{
    if n == 0 {
        lemma_part_end_run(s, 0);
    } else {
        lemma_part_bounds(s, (n - 1) as nat);
        let before = part_start(s, (n - 1) as nat).unwrap();
        let dot = part_end(s, before);
        lemma_dots_of_run(s, before, dot);
        lemma_dots_step(s, dot);
        lemma_part_end_run(s, dot + 1);
    }
}

/// A text has one part more than it has dots.
pub proof fn lemma_part_exists(s: Seq<char>, n: nat)
    ensures
        part(s, n) is Some <==> n <= dots(s),
    decreases n,
{
    if part_start(s, n) is Some {
        lemma_part_bounds(s, n);
        lemma_dots_of_prefix(s, part_start(s, n).unwrap());
    }
    if n > 0 {
        lemma_part_exists(s, (n - 1) as nat);
        if part_start(s, (n - 1) as nat) is Some {
            lemma_part_bounds(s, (n - 1) as nat);
            let before = part_start(s, (n - 1) as nat).unwrap();
            let end = part_end(s, before);
            if end == s.len() {
                lemma_dots_of_run(s, before, end);
                assert(s.take(end) =~= s);
            }
        }
    }
}

/// Taking one more character of a text takes one more dot where that
/// character is a dot, and no more dots where it is not.
proof fn lemma_dots_step(s: Seq<char>, i: int)
    requires
        0 <= i < s.len(),
    ensures
        dots(s.take(i + 1)) == dots(s.take(i)) + if s[i] == '.' {
            1nat
        } else {
            0nat
        },
{
    assert(s.take(i + 1).drop_last() =~= s.take(i));
}

/// A stretch without dots adds no dots.
proof fn lemma_dots_of_run(s: Seq<char>, from: int, to: int)
    requires
        0 <= from <= to <= s.len(),
        dot_free(s.subrange(from, to)),
    ensures
        dots(s.take(to)) == dots(s.take(from)),
    decreases to - from,
{
    if from < to {
        assert(s.subrange(from, to)[to - 1 - from] == s[to - 1]);
        assert forall|i: int| 0 <= i < to - 1 - from implies #[trigger] s.subrange(from, to - 1)[i]
            != '.' by {
            assert(s.subrange(from, to)[i] == s[from + i]);
        }
        lemma_dots_of_run(s, from, to - 1);
        lemma_dots_step(s, to - 1);
    }
}

/// A prefix holds no more dots than the whole text.
proof fn lemma_dots_of_prefix(s: Seq<char>, k: int)
    requires
        0 <= k <= s.len(),
    ensures
        dots(s.take(k)) <= dots(s),
    decreases s.len() - k,
{
    if k == s.len() {
        assert(s.take(k) =~= s);
    } else {
        lemma_dots_step(s, k);
        lemma_dots_of_prefix(s, k + 1);
    }
}

/// From a position in the text up to the end of its part there is no dot.
proof fn lemma_part_end_run(s: Seq<char>, start: int)
    requires
        0 <= start <= s.len(),
    ensures
        start <= part_end(s, start) <= s.len(),
        dot_free(s.subrange(start, part_end(s, start))),
        part_end(s, start) < s.len() ==> s[part_end(s, start)] == '.',
    decreases s.len() - start,
{
    if start < s.len() && s[start] != '.' {
        lemma_part_end_run(s, start + 1);
        let end = part_end(s, start);
        assert forall|i: int| 0 <= i < end - start implies #[trigger] s.subrange(start, end)[i]
            != '.' by {
            if i > 0 {
                assert(s.subrange(start + 1, end)[i - 1] == s[start + i]);
            }
        }
    }
}

/// A numeral holds no dot.
proof fn lemma_numeral_is_dot_free(n: nat)
    ensures
        dot_free(numeral(n)),
{
    lemma_numeral(n);
}

/// Reading the canonical text of a version gives the version back.
pub proof fn lemma_parse_format(v: Version)
    ensures
        parse_version(format_version(v)) == v,
{
    let a = numeral(v.major as nat);
    let b = numeral(v.minor as nat);
    let c = numeral(v.patch as nat);
    let s = format_version(v);
    let first = a.len() as int;
    let second = first + 1 + b.len();
    lemma_numeral_is_dot_free(v.major as nat);
    lemma_numeral_is_dot_free(v.minor as nat);
    lemma_numeral_is_dot_free(v.patch as nat);
    lemma_parse_numeral(v.major);
    lemma_parse_numeral(v.minor);
    lemma_parse_numeral(v.patch);
    assert(s.subrange(0, first) =~= a);
    assert(s.subrange(first + 1, second) =~= b);
    assert(s.subrange(second + 1, s.len() as int) =~= c);
    lemma_part_end(s, 0, first);
    lemma_part_end(s, first + 1, second);
    lemma_part_end(s, second + 1, s.len() as int);
    assert(part_start(s, 2) == Some(second + 1)) by {
        reveal_with_fuel(part_start, 3);
    }
    assert(part(s, 0) == Some(a));
    assert(part(s, 1) == Some(b));
    assert(part(s, 2) == Some(c));
}

} // verus!
