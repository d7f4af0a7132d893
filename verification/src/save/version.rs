//! The version tag of a document: `major.minor`, each part one to nine
//! decimal digits.

use vstd::prelude::*;

verus! {

/// The version that this library writes.
pub const CURRENT_MAJOR: u32 = 1;

pub const CURRENT_MINOR: u32 = 0;

/// A document's version.
#[derive(Debug, Clone, Copy, PartialEq, Eq, Structural)]
pub struct Version {
    pub major: u32,
    pub minor: u32,
}

/// Whether `c` is a decimal digit.
pub open spec fn is_digit(c: char) -> bool {
    '0' <= c <= '9'
}

/// What a run of digits means, read as a decimal numeral.
pub open spec fn decimal_value(digits: Seq<char>) -> nat
    decreases digits.len(),
{
    if digits.len() == 0 {
        0
    } else {
        (decimal_value(digits.drop_last()) * 10 + (digits.last() as u32 - '0' as u32)) as nat
    }
}

/// The value of one part of a version: one to nine digits.
pub open spec fn part_value(digits: Seq<char>) -> Option<u32> {
    if 1 <= digits.len() <= 9 && (forall|i: int| 0 <= i < digits.len() ==> is_digit(digits[i])) {
        Some(decimal_value(digits) as u32)
    } else {
        None
    }
}

/// Where the first dot of `text` stands, or the length of `text` if it has
/// none.
pub open spec fn first_dot(text: Seq<char>) -> int
    decreases text.len(),
{
    if text.len() == 0 {
        0
    } else if text[0] == '.' {
        0
    } else {
        1 + first_dot(text.drop_first())
    }
}

/// The version that a tag spells: digits, a dot, digits.
pub open spec fn version_of(text: Seq<char>) -> Option<Version> {
    let dot = first_dot(text);
    if dot < text.len() {
        let major = part_value(text.subrange(0, dot));
        let minor = part_value(text.subrange(dot + 1, text.len() as int));
        if major is Some && minor is Some {
            Some(Version { major: major->0, minor: minor->0 })
        } else {
            None
        }
    } else {
        None
    }
}

impl Version {
    /// Whether this version is later than the one this library writes.
    pub open spec fn is_newer(self) -> bool {
        self.major > CURRENT_MAJOR || (self.major == CURRENT_MAJOR && self.minor > CURRENT_MINOR)
    }

    /// Whether this version is later than the one this library writes.
    pub fn newer_than_current(&self) -> (r: bool)
        ensures
            r == self.is_newer(),
    {
        self.major > CURRENT_MAJOR || (self.major == CURRENT_MAJOR && self.minor > CURRENT_MINOR)
    }
}

/// Ten to the power `n`.
pub open spec fn pow10(n: nat) -> nat
    decreases n,
{
    if n == 0 {
        1
    } else {
        10 * pow10((n - 1) as nat)
    }
}

/// Reads `text[from..to]` as one part of a version.
fn parse_part(text: &str, from: usize, to: usize) -> (r: Option<u32>)
    requires
        from <= to <= text@.len(),
    ensures
        r == part_value(text@.subrange(from as int, to as int)),
{
    let ghost digits = text@.subrange(from as int, to as int);
    if to - from < 1 || to - from > 9 {
        return None;
    }
    let mut value: u64 = 0;
    let mut i: usize = from;
    assert(digits.take(0) =~= Seq::empty());
    while i < to
        invariant
            from <= i <= to <= text@.len(),
            to - from <= 9,
            digits == text@.subrange(from as int, to as int),
            forall|k: int| 0 <= k < i - from ==> is_digit(digits[k]),
            value == decimal_value(digits.take(i - from)),
            value < pow10((i - from) as nat),
        decreases to - i,
    {
        let c = text.get_char(i);
        assert(digits[i - from] == c);
        if c < '0' || c > '9' {
            return None;
        }
        proof {
            let longer = digits.take(i - from + 1);
            assert(longer.drop_last() =~= digits.take(i - from));
            assert(longer.last() == c);
            reveal_with_fuel(pow10, 10);
        }
        value = value * 10 + (c as u32 - '0' as u32) as u64;
        i += 1;
    }
    proof {
        assert(digits.take(to - from) =~= digits);
        reveal_with_fuel(pow10, 10);
    }
    Some(value as u32)
}

/// Reads a version tag; `None` where the text is not digits, a dot, digits.
pub fn parse_version(text: &str) -> (r: Option<Version>)
    ensures
        r == version_of(text@),
{
    let len = text.unicode_len();
    let mut dot: usize = 0;
    assert(text@.skip(0) =~= text@);
    while dot < len && text.get_char(dot) != '.'
        invariant
            dot <= len == text@.len(),
            first_dot(text@) == dot + first_dot(text@.skip(dot as int)),
        decreases len - dot,
    {
        proof {
            let rest = text@.skip(dot as int);
            assert(rest[0] == text@[dot as int]);
            assert(rest.drop_first() =~= text@.skip(dot + 1));
        }
        dot += 1;
    }
    proof {
        let rest = text@.skip(dot as int);
        if dot < len {
            assert(rest[0] == text@[dot as int]);
        }
    }
    if dot >= len {
        return None;
    }
    match (parse_part(text, 0, dot), parse_part(text, dot + 1, len)) {
        (Some(major), Some(minor)) => Some(Version { major, minor }),
        _ => None,
    }
}

} // verus!
