//! Protocol revisions.

use vstd::prelude::*;
use vstd::string::*;
use crate::text::{decimal, decimal_text, parse_plain_u8, plain_u8};

verus! {

/// A revision of the registration protocol, written `v<major>.<minor>`.
#[derive(Clone, Copy, Debug, PartialEq, Eq, Structural)]
pub struct APIVersion {
    pub major: u8,
    pub minor: u8,
}

/// The place of the first `.` in `s`, or the length of `s` if it has none.
pub open spec fn first_dot(s: Seq<char>) -> int
    decreases s.len(),
{
    if s.len() == 0 {
        0
    } else if s[0] == '.' {
        0
    } else {
        1 + first_dot(s.subrange(1, s.len() as int))
    }
}

/// The revision that `s` writes: a `v`, the major number, a `.`, the minor
/// number, each number below 256 and made of digits alone.
pub open spec fn version_value(s: Seq<char>) -> Option<APIVersion> {
    if s.len() == 0 || s[0] != 'v' {
        None
    } else {
        let rest = s.subrange(1, s.len() as int);
        let dot = first_dot(rest);
        if dot >= rest.len() {
            None
        } else {
            match (
                plain_u8(rest.subrange(0, dot)),
                plain_u8(rest.subrange(dot + 1, rest.len() as int)),
            ) {
                (Some(major), Some(minor)) => Some(APIVersion { major, minor }),
                _ => None,
            }
        }
    }
}

impl APIVersion {
    /// The first revision.
    pub fn v1_0() -> (r: APIVersion)
        ensures
            r == (APIVersion { major: 1, minor: 0 }),
    {
        APIVersion { major: 1, minor: 0 }
    }

    /// The current revision.
    pub fn v1_3() -> (r: APIVersion)
        ensures
            r == (APIVersion { major: 1, minor: 3 }),
    {
        APIVersion { major: 1, minor: 3 }
    }

    /// Whether payloads can be written for this revision: they can for 1.0
    /// and for 1.3.
    pub open spec fn supported(self) -> bool {
        self.major == 1 && (self.minor == 0 || self.minor == 3)
    }

    /// The text `v<major>.<minor>`.
    pub open spec fn text(self) -> Seq<char> {
        seq!['v'] + decimal(self.major as nat) + seq!['.'] + decimal(self.minor as nat)
    }

    pub fn is_supported(&self) -> (r: bool)
        ensures
            r == self.supported(),
    {
        self.major == 1 && (self.minor == 0 || self.minor == 3)
    }

    /// Writes the revision as `v<major>.<minor>`.
    pub fn to_text(&self) -> (r: String)
        ensures
            r@ == self.text(),
    {
        proof {
            reveal_strlit("v");
            reveal_strlit(".");
        }
        let mut r: String = "v".to_owned();
        let major = decimal_text(self.major as u64);
        r.append(major.as_str());
        r.append(".");
        let minor = decimal_text(self.minor as u64);
        r.append(minor.as_str());
        assert(r@ =~= self.text());
        r
    }

    /// Reads a revision; `None` for any text that is not `v`, digits, `.`,
    /// digits with both numbers below 256.
    pub fn parse(s: &str) -> (r: Option<APIVersion>)
        ensures
            r == version_value(s@),
    {
        let n: usize = s.unicode_len();
        if n == 0 || s.get_char(0) != 'v' {
            return None;
        }
        let ghost rest = s@.subrange(1, n as int);
        let mut i: usize = 1;
        proof {
            assert(rest.subrange(0, rest.len() as int) =~= rest);
        }
        while i < n && s.get_char(i) != '.'
            invariant
                1 <= i <= n,
                n == s@.len(),
                rest == s@.subrange(1, n as int),
                first_dot(rest) == (i - 1) + first_dot(rest.subrange(i - 1, rest.len() as int)),
            decreases n - i,
        {
            proof {
                let tail = rest.subrange(i - 1, rest.len() as int);
                assert(tail[0] == s@[i as int]);
                assert(tail.subrange(1, tail.len() as int) =~= rest.subrange(
                    i as int,
                    rest.len() as int,
                ));
            }
            i = i + 1;
        }
        proof {
            let tail = rest.subrange(i - 1, rest.len() as int);
            if i < n {
                assert(tail[0] == s@[i as int]);
            }
            assert(first_dot(rest) == i - 1);
        }
        if i >= n {
            return None;
        }
        let major_text = s.substring_char(1, i);
        let minor_text = s.substring_char(i + 1, n);
        proof {
            assert(major_text@ =~= rest.subrange(0, i - 1));
            assert(minor_text@ =~= rest.subrange(i as int, rest.len() as int));
        }
        match (parse_plain_u8(major_text), parse_plain_u8(minor_text)) {
            (Some(major), Some(minor)) => Some(APIVersion { major, minor }),
            _ => None,
        }
    }
}

} // verus!
