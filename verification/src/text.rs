//! Where a long text node of a chapter is split, so that no piece of text
//! is longer than `MAX_LENGTH` and byte positions stay fine-grained.

use vstd::prelude::*;
use vstd::string::StringSliceAdditionalSpecFns;

verus! {

/// The length above which a text node is split.
pub const MAX_LENGTH: u32 = 400;

/// The byte of a full stop.
pub const PERIOD: u8 = 46;

/// The first full stop at or after byte `i` of `b`, or -1 where none is.
pub open spec fn first_period_from(b: Seq<u8>, i: int) -> int
    decreases b.len() - i,
{
    if i < 0 || i >= b.len() {
        -1
    } else if b[i] == PERIOD {
        i
    } else {
        first_period_from(b, i + 1)
    }
}

/// The last full stop before byte `i` of `b`, or 0 where none is.
pub open spec fn last_period_below(b: Seq<u8>, i: int) -> int
    decreases i,
{
    if i <= 0 || i > b.len() {
        0
    } else if b[i - 1] == PERIOD {
        i - 1
    } else {
        last_period_below(b, i - 1)
    }
}

/// Where a text node of `length` whose text has the bytes `b` is split:
/// after the last full stop before the first one past `MAX_LENGTH` (in
/// half where that last one is at 0 or missing); with no full stop past
/// `MAX_LENGTH`, in half but at most at `MAX_LENGTH`.
pub open spec fn spec_split_offset(length: u32, b: Seq<u8>) -> int {
    let p = first_period_from(b, MAX_LENGTH + 1);
    if p >= 0 {
        let last = last_period_below(b, p);
        if last == 0 {
            (length / 2) as int
        } else {
            last + 1
        }
    } else if length / 2 < MAX_LENGTH {
        (length / 2) as int
    } else {
        MAX_LENGTH as int
    }
}

proof fn lemma_first_period_found(b: Seq<u8>, k: int, i: int)
    requires
        0 <= k <= i < b.len(),
        b[i] == PERIOD,
        forall|j: int| k <= j < i ==> b[j] != PERIOD,
    ensures
        first_period_from(b, k) == i,
    decreases i - k,
{
    if k < i {
        lemma_first_period_found(b, k + 1, i);
    }
}

proof fn lemma_first_period_missing(b: Seq<u8>, k: int)
    requires
        0 <= k,
        forall|j: int| k <= j < b.len() ==> b[j] != PERIOD,
    ensures
        first_period_from(b, k) == -1,
    decreases b.len() - k,
{
    if k < b.len() {
        lemma_first_period_missing(b, k + 1);
    }
}

/// Where the text node of `length` holding `data` is split next.
pub fn split_offset(length: u32, data: &str) -> (r: u32)
    ensures
        r == spec_split_offset(length, data.spec_bytes()),
{
    let bytes = data.as_bytes();
    let ghost b = bytes@;
    let limit: usize = 400;
    let mut last: usize = 0;
    let mut i: usize = 0;
    while i < bytes.len()
        invariant
            b == bytes@,
            b == data.spec_bytes(),
            limit == MAX_LENGTH,
            i <= b.len(),
            forall|j: int| limit < j < i ==> b[j] != PERIOD,
            last == last_period_below(b, i as int),
            last <= limit,
        decreases b.len() - i,
    {
        if bytes[i] == PERIOD {
            if i > limit {
                proof {
                    lemma_first_period_found(b, MAX_LENGTH + 1, i as int);
                }
                if last == 0 {
                    return length / 2;
                } else {
                    return (last + 1) as u32;
                }
            }
            last = i;
        }
        i = i + 1;
    }
    proof {
        lemma_first_period_missing(b, MAX_LENGTH + 1);
    }
    if length / 2 < MAX_LENGTH {
        length / 2
    } else {
        MAX_LENGTH
    }
}

proof fn lemma_first_period_from_bounds(b: Seq<u8>, i: int)
    requires
        0 <= i,
    ensures
        first_period_from(b, i) == -1 || (i <= first_period_from(b, i) < b.len() && b[first_period_from(b, i)]
            == PERIOD),
    decreases b.len() - i,
{
    if i < b.len() && b[i] != PERIOD {
        lemma_first_period_from_bounds(b, i + 1);
    }
}

proof fn lemma_last_period_below_bounds(b: Seq<u8>, i: int)
    requires
        0 < i <= b.len(),
    ensures
        0 <= last_period_below(b, i) < i,
    decreases i,
{
    if b[i - 1] != PERIOD {
        if i > 1 {
            lemma_last_period_below_bounds(b, i - 1);
        } else {
            assert(last_period_below(b, 0) == 0);
        }
    }
}

/// On text of one byte per unit that is longer than `MAX_LENGTH`, the split
/// falls strictly inside the text, so splitting again and again ends.
pub proof fn law_split_offset_inside(length: u32, b: Seq<u8>)
    requires
        b.len() == length,
        length > MAX_LENGTH,
    ensures
        0 < spec_split_offset(length, b) < length,
{
    lemma_first_period_from_bounds(b, MAX_LENGTH + 1);
    let p = first_period_from(b, MAX_LENGTH + 1);
    if p >= 0 {
        lemma_last_period_below_bounds(b, p);
    }
}

proof fn lemma_last_period_below_greatest(b: Seq<u8>, i: int)
    requires
        0 <= i <= b.len(),
    ensures
        last_period_below(b, i) > 0 ==> b[last_period_below(b, i)] == PERIOD,
        forall|j: int| last_period_below(b, i) < j < i ==> b[j] != PERIOD,
    decreases i,
{
    if i > 0 && b[i - 1] != PERIOD {
        lemma_last_period_below_greatest(b, i - 1);
    }
}

/// Where a full stop stands past `MAX_LENGTH` and another stands before the
/// first such one at a byte other than 0, the text is split right after the
/// full stop nearest before that first one: the byte before the split is a
/// full stop, and no full stop lies between it and the first one past
/// `MAX_LENGTH`.
pub proof fn law_split_after_nearest_period(length: u32, b: Seq<u8>, p: int, k: int)
    requires
        MAX_LENGTH < p < b.len(),
        b[p] == PERIOD,
        forall|j: int| MAX_LENGTH < j < p ==> b[j] != PERIOD,
        0 < k < p,
        b[k] == PERIOD,
    ensures
        k < spec_split_offset(length, b) <= p,
        b[spec_split_offset(length, b) - 1] == PERIOD,
        forall|j: int| spec_split_offset(length, b) <= j < p ==> b[j] != PERIOD,
{
    lemma_first_period_found(b, MAX_LENGTH + 1, p);
    lemma_last_period_below_greatest(b, p);
    lemma_last_period_below_bounds(b, p);
}

} // verus!
