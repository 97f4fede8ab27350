//! Splitting byte strings at a separator byte, as byte ranges.
use vstd::prelude::*;
use vstd::string::StringSliceAdditionalSpecFns;

verus! {

/// `parts` lists, in order, the byte ranges `[start, end)` of the pieces of `b`
/// between occurrences of `sep`: each piece holds no `sep`, and consecutive
/// pieces are separated by exactly one `sep`. An empty `b` has one empty piece.
/// No byte of `b` in `[lo, hi)` is `sep`.
pub open spec fn free_of(b: Seq<u8>, sep: u8, lo: int, hi: int) -> bool {
    forall|j: int| lo <= j < hi ==> b[j] != sep
}

pub open spec fn is_split(b: Seq<u8>, sep: u8, parts: Seq<(usize, usize)>) -> bool {
    &&& parts.len() >= 1
    &&& parts[0].0 == 0
    &&& parts.last().1 == b.len()
    &&& forall|k: int|
        0 <= k < parts.len() ==> parts[k].0 <= parts[k].1 <= b.len() && free_of(
            b,
            sep,
            parts[k].0 as int,
            parts[k].1 as int,
        )
    &&& forall|k: int|
        0 <= k < parts.len() - 1 ==> parts[k + 1].0 == parts[k].1 + 1 && b[parts[k].1 as int]
            == sep
}

/// The pieces of `b` between occurrences of `sep`, as byte ranges.
pub fn split_ranges(b: &[u8], sep: u8) -> (parts: Vec<(usize, usize)>)
    ensures
        is_split(b@, sep, parts@),
{
    let mut parts: Vec<(usize, usize)> = Vec::new();
    let mut start: usize = 0;
    let mut i: usize = 0;
    while i < b.len()
        invariant
            start <= i <= b@.len(),
            parts@.len() == 0 ==> start == 0,
            parts@.len() > 0 ==> parts@[0].0 == 0 && parts@.last().1 + 1 == start && b@[parts@.last().1 as int] == sep,
            forall|k: int|
                0 <= k < parts@.len() ==> parts@[k].0 <= parts@[k].1 < start && free_of(
                    b@,
                    sep,
                    parts@[k].0 as int,
                    parts@[k].1 as int,
                ),
            forall|k: int|
                0 <= k < parts@.len() - 1 ==> parts@[k + 1].0 == parts@[k].1 + 1
                    && b@[parts@[k].1 as int] == sep,
            free_of(b@, sep, start as int, i as int),
        decreases b@.len() - i,
    {
        if b[i] == sep {
            parts.push((start, i));
            start = i + 1;
        }
        i = i + 1;
    }
    parts.push((start, b.len()));
    parts
}

/// How many `sep` bytes `b` holds.
pub open spec fn count_of(b: Seq<u8>, sep: u8) -> nat
    decreases b.len(),
{
    if b.len() == 0 {
        0
    } else {
        count_of(b.drop_last(), sep) + if b.last() == sep {
            1nat
        } else {
            0nat
        }
    }
}

/// How many bytes of `b` follow its last `sep` (all of them, where it has none).
pub open spec fn tail_after(b: Seq<u8>, sep: u8) -> nat
    decreases b.len(),
{
    if b.len() == 0 {
        0
    } else if b.last() == sep {
        0
    } else {
        tail_after(b.drop_last(), sep) + 1
    }
}

/// How far typing `text` moves the cursor: one row down for each line break, and
/// to the right by the byte length of the text after the last one.
pub fn typing_offset(text: &str) -> (r: (usize, usize))
    ensures
        r.0 == count_of(text.spec_bytes(), 10u8),
        r.1 == tail_after(text.spec_bytes(), 10u8),
{
    let b = text.as_bytes();
    let mut rows: usize = 0;
    let mut cols: usize = 0;
    let mut i: usize = 0;
    while i < b.len()
        invariant
            i <= b@.len(),
            b@ == text.spec_bytes(),
            rows == count_of(b@.subrange(0, i as int), 10u8),
            cols == tail_after(b@.subrange(0, i as int), 10u8),
            rows <= i,
            cols <= i,
        decreases b@.len() - i,
    {
        assert(b@.subrange(0, i + 1).drop_last() =~= b@.subrange(0, i as int));
        if b[i] == 10u8 {
            rows = rows + 1;
            cols = 0;
        } else {
            cols = cols + 1;
        }
        i = i + 1;
    }
    assert(b@.subrange(0, b@.len() as int) =~= b@);
    (rows, cols)
}

} // verus!
