//! Resource paths of the hub: the identifier a path ends in.

use vstd::prelude::*;
use crate::DeviceId;

verus! {

/// Where the last segment of `path` begins: just behind its last `/`, or at 0
/// where it holds none.
pub open spec fn segment_start(path: Seq<char>) -> int
    decreases path.len(),
{
    if path.len() == 0 {
        0
    } else if path.last() == '/' {
        path.len() as int
    } else {
        segment_start(path.drop_last())
    }
}

/// What follows the last `/` of `path`; all of it where it holds none.
pub open spec fn last_segment(path: Seq<char>) -> Seq<char> {
    path.skip(segment_start(path))
}

pub open spec fn is_digit(c: char) -> bool {
    '0' <= c <= '9'
}

pub open spec fn all_digits(s: Seq<char>) -> bool {
    forall|i: int| 0 <= i < s.len() ==> is_digit(#[trigger] s[i])
}

/// The number that the decimal digits `s` write.
pub open spec fn decimal_value(s: Seq<char>) -> nat
    decreases s.len(),
{
    if s.len() == 0 {
        0
    } else {
        decimal_value(s.drop_last()) * 10 + (s.last() as nat - '0' as nat) as nat
    }
}

/// `segment` without the one `+` that may lead it.
pub open spec fn without_sign(segment: Seq<char>) -> Seq<char> {
    if segment.len() > 0 && segment[0] == '+' {
        segment.skip(1)
    } else {
        segment
    }
}

/// The number a segment writes: decimal digits, at least one, behind at most
/// one `+`, with a value that fits 32 bits.
pub open spec fn segment_number(segment: Seq<char>) -> Option<u32> {
    let digits = without_sign(segment);
    if digits.len() > 0 && all_digits(digits) && decimal_value(digits) <= u32::MAX {
        Some(decimal_value(digits) as u32)
    } else {
        None
    }
}

/// The number in the last segment of a resource path, if it is one.
pub open spec fn trailing_number(path: Seq<char>) -> Option<u32> {
    segment_number(last_segment(path))
}

/// `segment_start` is the one place behind a `/` (or the start) from which no
/// `/` follows.
pub proof fn lemma_segment_start(path: Seq<char>, k: int)
    requires
        0 <= k <= path.len(),
        k == 0 || path[k - 1] == '/',
        forall|j: int| k <= j < path.len() ==> path[j] != '/',
    ensures
        segment_start(path) == k,
    decreases path.len(),
{
    if path.len() == 0 {
    } else if path.last() == '/' {
    } else {
        let shorter = path.drop_last();
        assert(k < path.len());
        assert forall|j: int| k <= j < shorter.len() implies shorter[j] != '/' by {
            assert(shorter[j] == path[j]);
        }
        lemma_segment_start(shorter, k);
    }
}

/// A longer run of digits writes no smaller number than its beginning.
pub proof fn lemma_decimal_value_grows(s: Seq<char>, k: int)
    requires
        0 <= k <= s.len(),
        all_digits(s),
    ensures
        decimal_value(s.take(k)) <= decimal_value(s),
    decreases s.len() - k,
{
    if k == s.len() {
        assert(s.take(k) =~= s);
    } else {
        let shorter = s.drop_last();
        assert(is_digit(s[s.len() - 1]));
        assert forall|i: int| 0 <= i < shorter.len() implies is_digit(#[trigger] shorter[i]) by {
            assert(shorter[i] == s[i]);
        }
        assert(shorter.take(k) =~= s.take(k));
        lemma_decimal_value_grows(shorter, k);
    }
}

/// Index of the first character of the last segment of `path`.
fn find_segment_start(path: &str) -> (start: usize)
    ensures
        start == segment_start(path@),
        start <= path@.len(),
{
    let n = path.unicode_len();
    let mut start: usize = n;
    let mut found = false;
    while start > 0 && !found
        invariant
            start <= n,
            n == path@.len(),
            forall|j: int| start <= j < n ==> path@[j] != '/',
            found ==> start > 0 && path@[start - 1] == '/',
        decreases start + (if found { 0int } else { 1int }),
    {
        if path.get_char(start - 1) == '/' {
            found = true;
        } else {
            start = start - 1;
        }
    }
    proof {
        lemma_segment_start(path@, start as int);
    }
    start
}

/// The device a resource path names: the number in its last segment.
pub fn device_id_of(href: &str) -> (id: Option<DeviceId>)
    ensures
        match id {
            Some(device) => trailing_number(href@) == Some(device@),
            None => trailing_number(href@) is None,
        },
{
    let n = href.unicode_len();
    let start = find_segment_start(href);
    let ghost segment = last_segment(href@);
    let mut first: usize = start;
    if first < n && href.get_char(first) == '+' {
        first = first + 1;
    }
    let ghost digits = without_sign(segment);
    assert(digits =~= href@.skip(first as int));
    if first == n {
        return None;
    }
    let mut value: u64 = 0;
    let mut i: usize = first;
    while i < n
        invariant
            first <= i <= n,
            n == href@.len(),
            digits == href@.skip(first as int),
            digits == without_sign(last_segment(href@)),
            all_digits(digits.take(i - first)),
            value == decimal_value(digits.take(i - first)),
            value <= u32::MAX,
        decreases n - i,
    {
        let c = href.get_char(i);
        let ghost seen = digits.take(i - first + 1);
        assert(seen.drop_last() =~= digits.take(i - first));
        assert(seen.last() == c);
        if c < '0' || c > '9' {
            assert(!is_digit(digits[i - first]));
            return None;
        }
        let digit: u64 = (c as u32 - '0' as u32) as u64;
        value = value * 10 + digit;
        assert(all_digits(seen)) by {
            assert forall|j: int| 0 <= j < seen.len() implies is_digit(#[trigger] seen[j]) by {
                if j < i - first {
                    assert(seen[j] == digits.take(i - first)[j]);
                }
            }
        }
        if value > u32::MAX as u64 {
            proof {
                if all_digits(digits) {
                    lemma_decimal_value_grows(digits, i - first + 1);
                }
            }
            return None;
        }
        i = i + 1;
    }
    assert(digits.take(i - first) =~= digits);
    Some(DeviceId::new(value as u32))
}

} // verus!
