//! Version numbers of three parts, as terminals report them.

use crate::utils::strings::{chars_of, decimal, find_between, push_decimal};
use vstd::prelude::*;
use vstd::std_specs::convert::FromSpecImpl;

verus! {

/// A version: major, minor and patch number.
#[derive(Copy, Clone, PartialEq, Eq, Structural, Debug)]
pub struct Version {
    pub major: u32,
    pub minor: u32,
    pub patch: u32,
}

/// The value of a decimal digit.
pub open spec fn digit_value(c: char) -> Option<nat> {
    if '0' <= c <= '9' {
        Some((c as nat - '0' as nat) as nat)
    } else {
        None
    }
}

/// Whether every character is a decimal digit.
pub open spec fn is_decimal(s: Seq<char>) -> bool {
    forall|i: int| 0 <= i < s.len() ==> (#[trigger] digit_value(s[i])) is Some
}

/// The number that the decimal digits write.
pub open spec fn decimal_value(s: Seq<char>) -> nat
    decreases s.len(),
{
    if s.len() == 0 {
        0
    } else {
        10 * decimal_value(s.drop_last()) + digit_value(s.last()).unwrap()
    }
}

/// The number that `s` writes: an optional plus sign, then at least one
/// decimal digit, and no more than fits 32 bits.
pub open spec fn parsed_u32(s: Seq<char>) -> Option<u32> {
    let digits = if s.len() > 0 && s[0] == '+' {
        s.skip(1)
    } else {
        s
    };
    if digits.len() > 0 && is_decimal(digits) && decimal_value(digits) <= u32::MAX {
        Some(decimal_value(digits) as u32)
    } else {
        None
    }
}

/// The number of times `c` stands at the start of `s`.
pub open spec fn leading_count(s: Seq<char>, c: char) -> nat
    decreases s.len(),
{
    if s.len() > 0 && s[0] == c {
        1 + leading_count(s.drop_first(), c)
    } else {
        0
    }
}

/// What stands before the first dot of `s`: all of it where there is none.
pub open spec fn first_field(s: Seq<char>) -> Seq<char> {
    match s.index_of_first('.') {
        Some(dot) => s.take(dot),
        None => s,
    }
}

/// What follows the first dot of `s`, if there is one.
pub open spec fn after_first_field(s: Seq<char>) -> Option<Seq<char>> {
    match s.index_of_first('.') {
        Some(dot) => Some(s.skip(dot + 1)),
        None => None,
    }
}

/// The number at the start of what is left of a version: zero where nothing
/// is left.
pub open spec fn next_number(rest: Option<Seq<char>>) -> Option<u32> {
    match rest {
        Some(r) => parsed_u32(first_field(r)),
        None => Some(0u32),
    }
}

/// What follows the number at the start of what is left of a version.
pub open spec fn after_next_number(rest: Option<Seq<char>>) -> Option<Seq<char>> {
    match rest {
        Some(r) => after_first_field(r),
        None => None,
    }
}

/// The version that `s` writes: any number of `v` first, then up to three
/// numbers with dots between them. The first must be there, the others
/// count as zero where they are left out, and what follows a third dot is
/// not read.
pub open spec fn parsed_version(s: Seq<char>) -> Option<Version> {
    let body = Some(s.skip(leading_count(s, 'v') as int));
    let after_major = after_next_number(body);
    let after_minor = after_next_number(after_major);
    match (next_number(body), next_number(after_major), next_number(after_minor)) {
        (Some(major), Some(minor), Some(patch)) => Some(Version { major, minor, patch }),
        _ => None,
    }
}

/// The digits of a longer number write no less than those it starts with.
proof fn lemma_decimal_value_grows(s: Seq<char>, n: int)
    requires
        0 <= n <= s.len(),
    ensures
        decimal_value(s.take(n)) <= decimal_value(s),
    decreases s.len() - n,
{
    if n == s.len() {
        assert(s.take(n) == s);
    } else {
        assert(s.take(n + 1).drop_last() == s.take(n));
        lemma_decimal_value_grows(s, n + 1);
    }
}

fn digit_of(c: char) -> (value: Option<u64>)
    ensures
        match digit_value(c) {
            Some(d) => value == Some(d as u64) && d < 10,
            None => value is None,
        },
{
    if '0' <= c && c <= '9' {
        Some((c as u32 - '0' as u32) as u64)
    } else {
        None
    }
}

/// The number that `chars[from..to]` writes.
fn parse_u32(chars: &Vec<char>, from: usize, to: usize) -> (value: Option<u32>)
    requires
        from <= to <= chars.len(),
    ensures
        value == parsed_u32(chars@.subrange(from as int, to as int)),
{
    let ghost s = chars@.subrange(from as int, to as int);
    let start: usize = if from < to && chars[from] == '+' {
        from + 1
    } else {
        from
    };
    let ghost digits = chars@.subrange(start as int, to as int);
    assert(digits == if s.len() > 0 && s[0] == '+' {
        s.skip(1)
    } else {
        s
    });
    if start == to {
        return None;
    }
    let mut v: u64 = 0;
    let mut i: usize = start;
    assert(digits.take(0) == Seq::<char>::empty());
    while i < to
        invariant
            from <= start <= i <= to <= chars.len(),
            start < to,
            digits == chars@.subrange(start as int, to as int),
            s == chars@.subrange(from as int, to as int),
            digits == if s.len() > 0 && s[0] == '+' {
                s.skip(1)
            } else {
                s
            },
            is_decimal(digits.take(i - start)),
            v == decimal_value(digits.take(i - start)),
            v <= u32::MAX,
        decreases to - i,
    {
        let ghost next = digits.take(i - start + 1);
        assert(next.drop_last() == digits.take(i - start));
        assert(next.last() == chars@[i as int]);
        match digit_of(chars[i]) {
            Some(d) => {
                v = 10 * v + d;
            },
            None => {
                assert(digit_value(digits[i - start]) is None);
                return None;
            },
        }
        assert forall|j: int| 0 <= j < next.len() implies (#[trigger] digit_value(next[j])) is Some by {
            if j < i - start {
                assert(next[j] == digits.take(i - start)[j]);
            }
        }
        if v > 0xffff_ffff {
            proof {
                lemma_decimal_value_grows(digits, i - start + 1);
            }
            return None;
        }
        i += 1;
    }
    assert(digits.take(to - start) == digits);
    Some(v as u32)
}

/// Where the field that starts at `from` ends, and where the next one
/// starts, if there is one.
fn field_at(chars: &Vec<char>, from: usize) -> (bounds: (usize, Option<usize>))
    requires
        from <= chars.len(),
    ensures
        from <= bounds.0 <= chars.len(),
        chars@.subrange(from as int, bounds.0 as int) == first_field(chars@.skip(from as int)),
        match bounds.1 {
            Some(next) => next <= chars.len() && after_first_field(chars@.skip(from as int)) == Some(
                chars@.skip(next as int),
            ),
            None => after_first_field(chars@.skip(from as int)) is None,
        },
{
    let ghost rest = chars@.skip(from as int);
    assert(rest == chars@.subrange(from as int, chars.len() as int));
    match find_between(chars, '.', from, chars.len()) {
        Some(dot) => {
            assert(rest.take(dot - from) == chars@.subrange(from as int, dot as int));
            assert(rest.skip(dot - from + 1) == chars@.skip(dot + 1));
            (dot, Some(dot + 1))
        },
        None => (chars.len(), None),
    }
}

/// The number of the field that starts at `from`, and where the next field
/// starts. Without a field the number is zero.
fn number_at(chars: &Vec<char>, from: Option<usize>) -> (r: (Option<u32>, Option<usize>))
    requires
        from matches Some(k) ==> k <= chars.len(),
    ensures
        r.0 == next_number(rest_from(chars@, from)),
        r.1 matches Some(k) ==> k <= chars.len(),
        rest_from(chars@, r.1) == after_next_number(rest_from(chars@, from)),
{
    match from {
        Some(k) => {
            let (end, next) = field_at(chars, k);
            (parse_u32(chars, k, end), next)
        },
        None => (Some(0), None),
    }
}

/// What is left of `s` from the place `from` on.
pub open spec fn rest_from(s: Seq<char>, from: Option<usize>) -> Option<Seq<char>> {
    match from {
        Some(k) => Some(s.skip(k as int)),
        None => None,
    }
}

impl Version {
    pub fn parse(s: &str) -> (version: Option<Version>)
        ensures
            version == parsed_version(s@),
    {
        let chars = chars_of(s);
        let mut start: usize = 0;
        assert(chars@.skip(0) == chars@);
        while start < chars.len() && chars[start] == 'v'
            invariant
                start <= chars.len(),
                start + leading_count(chars@.skip(start as int), 'v') == leading_count(chars@, 'v'),
            decreases chars.len() - start,
        {
            assert(chars@.skip(start as int).drop_first() == chars@.skip(start + 1));
            start += 1;
        }
        let (major, after_major) = number_at(&chars, Some(start));
        let (minor, after_minor) = number_at(&chars, after_major);
        let (patch, _) = number_at(&chars, after_minor);
        match (major, minor, patch) {
            (Some(major), Some(minor), Some(patch)) => Some(Version { major, minor, patch }),
            _ => None,
        }
    }

    /// The version as it is written: its three numbers with dots between.
    pub open spec fn text(self) -> Seq<char> {
        decimal(self.major as nat) + "."@ + decimal(self.minor as nat) + "."@ + decimal(
            self.patch as nat,
        )
    }

    pub fn to_string(&self) -> (out: String)
        ensures
            out@ == self.text(),
    {
        let mut out = String::new();
        push_decimal(&mut out, self.major);
        out.push('.');
        push_decimal(&mut out, self.minor);
        out.push('.');
        push_decimal(&mut out, self.patch);
        proof {
            reveal_strlit(".");
            assert("."@ == seq!['.']);
        }
        out
    }
}

impl From<[u32; 3]> for Version {
    fn from(v: [u32; 3]) -> (version: Self) {
        Version { major: v[0], minor: v[1], patch: v[2] }
    }
}

impl FromSpecImpl<[u32; 3]> for Version {
    open spec fn obeys_from_spec() -> bool {
        true
    }

    open spec fn from_spec(v: [u32; 3]) -> Self {
        Version { major: v[0], minor: v[1], patch: v[2] }
    }
}

impl From<Version> for [u32; 3] {
    fn from(v: Version) -> (parts: Self) {
        [v.major, v.minor, v.patch]
    }
}

impl FromSpecImpl<Version> for [u32; 3] {
    open spec fn obeys_from_spec() -> bool {
        true
    }

    open spec fn from_spec(v: Version) -> Self {
        [v.major, v.minor, v.patch]
    }
}

} // verus!
