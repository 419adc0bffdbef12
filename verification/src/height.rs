//! Revision-scoped block heights.
//!
//! A height is a pair `(revision_number, revision_height)`; heights are
//! ordered lexicographically on the pair. The zero height (both components
//! zero) is used by packets to mean "never time out by height".

use vstd::prelude::*;
use crate::decimal::{dec_str, lemma_dec_round_trip, lemma_dec_str_val, parse_u64, spec_parse_u64,
    u64_to_dec};

verus! {

/// A block height, scoped by the chain revision that produced it.
#[derive(Clone, Copy, Debug, PartialEq, Eq, Hash, Structural)]
pub struct Height {
    pub revision_number: u64,
    pub revision_height: u64,
}

/// Lexicographic order on `(revision_number, revision_height)`.
pub open spec fn height_lt(a: Height, b: Height) -> bool {
    a.revision_number < b.revision_number || (a.revision_number == b.revision_number
        && a.revision_height < b.revision_height)
}

/// `a` is at or before `b` in the lexicographic order.
pub open spec fn height_le(a: Height, b: Height) -> bool {
    height_lt(a, b) || a == b
}

impl Height {
    pub fn new(revision_number: u64, revision_height: u64) -> (r: Height)
        ensures
            r.revision_number == revision_number,
            r.revision_height == revision_height,
    {
        Height { revision_number, revision_height }
    }

    pub fn zero() -> (r: Height)
        ensures
            r == (Height { revision_number: 0u64, revision_height: 0u64 }),
    {
        Height { revision_number: 0, revision_height: 0 }
    }

    /// Both components zero: a packet timeout height of zero is disabled.
    pub fn is_zero(&self) -> (r: bool)
        ensures
            r == (self.revision_number == 0 && self.revision_height == 0),
    {
        self.revision_number == 0 && self.revision_height == 0
    }

    /// Strictly before `other` in the lexicographic order.
    pub fn lt(&self, other: &Height) -> (r: bool)
        ensures
            r == height_lt(*self, *other),
    {
        self.revision_number < other.revision_number || (self.revision_number
            == other.revision_number && self.revision_height < other.revision_height)
    }

    /// At or before `other` in the lexicographic order.
    pub fn le(&self, other: &Height) -> (r: bool)
        ensures
            r == height_le(*self, *other),
    {
        self.lt(other) || (self.revision_number == other.revision_number
            && self.revision_height == other.revision_height)
    }

    /// The successor height within the same revision, saturating at the
    /// largest representable height.
    pub open spec fn increment_spec(&self) -> Height {
        Height {
            revision_number: self.revision_number,
            revision_height: if self.revision_height == u64::MAX {
                u64::MAX
            } else {
                (self.revision_height + 1) as u64
            },
        }
    }

    /// The successor height within the same revision, saturating at the
    /// largest representable height.
    pub fn increment(&self) -> (r: Height)
        ensures
            r == self.increment_spec(),
    {
        Height {
            revision_number: self.revision_number,
            revision_height: self.revision_height.saturating_add(1),
        }
    }
}

impl Default for Height {
    /// The zero height.
    fn default() -> (r: Height)
        ensures
            r == (Height { revision_number: 0u64, revision_height: 0u64 }),
    {
        Height { revision_number: 0, revision_height: 0 }
    }
}

/// The lexicographic order is total.
pub proof fn lemma_height_order_total(a: Height, b: Height)
    ensures
        height_le(a, b) || height_le(b, a),
        height_le(a, b) && height_le(b, a) ==> a == b,
{
}

/// The lexicographic order is transitive.
pub proof fn lemma_height_order_transitive(a: Height, b: Height, c: Height)
    requires
        height_le(a, b),
        height_le(b, c),
    ensures
        height_le(a, c),
{
}

/// The wire text of a height: `revision_number-revision_height`, both in
/// decimal.
pub open spec fn height_str(h: Height) -> Seq<char> {
    dec_str(h.revision_number as nat) + seq!['-'] + dec_str(h.revision_height as nat)
}

/// The position of the first occurrence of `c`, or a negative value when
/// there is none.
pub open spec fn find_char(s: Seq<char>, c: char) -> int
    decreases s.len(),
{
    if s.len() == 0 {
        -1
    } else if s[0] == c {
        0
    } else {
        if find_char(s.drop_first(), c) < 0 {
            -1
        } else {
            find_char(s.drop_first(), c) + 1
        }
    }
}

/// `find_char` returns the first matching position.
pub proof fn lemma_find_char_at(s: Seq<char>, c: char, k: int)
    requires
        0 <= k < s.len(),
        s[k] == c,
        forall|j: int| 0 <= j < k ==> s[j] != c,
    ensures
        find_char(s, c) == k,
    decreases k,
{
    if k > 0 {
        assert(forall|j: int| 0 <= j < k - 1 ==> s.drop_first()[j] == s[j + 1]);
        lemma_find_char_at(s.drop_first(), c, k - 1);
    }
}

/// `find_char` reports absence when no position matches.
pub proof fn lemma_find_char_none(s: Seq<char>, c: char)
    requires
        forall|j: int| 0 <= j < s.len() ==> s[j] != c,
    ensures
        find_char(s, c) < 0,
    decreases s.len(),
{
    if s.len() > 0 {
        assert(forall|j: int| 0 <= j < s.len() - 1 ==> s.drop_first()[j] == s[j + 1]);
        lemma_find_char_none(s.drop_first(), c);
    }
}

/// A height string parses iff a dash splits it into two decimal numbers.
pub open spec fn spec_parse_height(s: Seq<char>) -> Option<Height> {
    if find_char(s, '-') < 0 {
        None
    } else {
        match (
            spec_parse_u64(s.take(find_char(s, '-'))),
            spec_parse_u64(s.skip(find_char(s, '-') + 1)),
        ) {
            (Some(a), Some(b)) => Some(Height { revision_number: a, revision_height: b }),
            _ => None,
        }
    }
}

/// Print a height as `revision_number-revision_height`.
pub fn height_string(h: &Height) -> (r: String)
    ensures
        r@ == height_str(*h),
{
    let mut s = u64_to_dec(h.revision_number);
    s.append("-");
    let tail = u64_to_dec(h.revision_height);
    s.append(tail.as_str());
    proof {
        reveal_strlit("-");
        assert(s@ =~= height_str(*h));
    }
    s
}

/// Parse the wire text of a height.
pub fn parse_height(s: &str) -> (r: Option<Height>)
    ensures
        r == spec_parse_height(s@),
{
    let n = s.unicode_len();
    let mut i: usize = 0;
    let mut dash: Option<usize> = None;
    while i < n
        invariant_except_break
            dash is None,
        invariant
            0 <= i <= n,
            n == s@.len(),
            forall|j: int| 0 <= j < i ==> s@[j] != '-',
        ensures
            match dash {
                Some(d) => d < n && s@[d as int] == '-' && (forall|j: int|
                    0 <= j < d ==> s@[j] != '-'),
                None => forall|j: int| 0 <= j < n ==> s@[j] != '-',
            },
        decreases n - i,
    {
        if s.get_char(i) == '-' {
            dash = Some(i);
            break ;
        }
        i = i + 1;
    }
    match dash {
        None => {
            proof {
                lemma_find_char_none(s@, '-');
            }
            None
        },
        Some(d) => {
            proof {
                lemma_find_char_at(s@, '-', d as int);
            }
            let head = s.substring_char(0, d);
            let tail = s.substring_char(d + 1, n);
            proof {
                assert(head@ =~= s@.take(d as int));
                assert(tail@ =~= s@.skip(d as int + 1));
            }
            match (parse_u64(head), parse_u64(tail)) {
                (Some(a), Some(b)) => Some(Height { revision_number: a, revision_height: b }),
                _ => None,
            }
        },
    }
}

/// Parsing the printed form of a height yields the height back.
pub proof fn lemma_height_str_round_trip(h: Height)
    ensures
        spec_parse_height(height_str(h)) == Some(h),
{
    let a = dec_str(h.revision_number as nat);
    let b = dec_str(h.revision_height as nat);
    let s = height_str(h);
    lemma_dec_str_val(h.revision_number as nat);
    lemma_dec_str_val(h.revision_height as nat);
    assert(forall|j: int| 0 <= j < a.len() ==> s[j] == a[j]);
    assert(forall|j: int|
        0 <= j < a.len() ==> crate::decimal::is_digit(#[trigger] a[j]) && a[j] != '-');
    assert(s[a.len() as int] == '-');
    lemma_find_char_at(s, '-', a.len() as int);
    assert(s.take(a.len() as int) =~= a);
    assert(s.skip(a.len() as int + 1) =~= b);
    lemma_dec_round_trip(h.revision_number);
    lemma_dec_round_trip(h.revision_height);
}

} // verus!
