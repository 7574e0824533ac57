//! Corpus sampling: a configured number of variable-length records, each
//! an owned copy of a contiguous slice of a fixed source text. Record
//! lengths and offsets come from the deterministic generator started at
//! the all-zero state, so the corpus is a pure function of the source
//! bytes, the count and the length bound.

use crate::generator::{nth_output, state_after, Random};
use vstd::prelude::*;
use vstd::slice::{slice_subrange, slice_to_vec};

verus! {

/// Length of record `i`: generator output `2 * i`, reduced mod `max_len`.
pub open spec fn record_len(max_len: int, i: int) -> int {
    nth_output(0, (2 * i) as nat) as int % max_len
}

/// Offset of record `i` in the source: generator output `2 * i + 1`,
/// reduced mod the room the record leaves.
pub open spec fn record_offset(source_len: int, max_len: int, i: int) -> int {
    nth_output(0, (2 * i + 1) as nat) as int % (source_len - record_len(max_len, i))
}

/// The bytes of record `i`: the contiguous slice of the source starting
/// at its offset.
pub open spec fn record_view(source: Seq<u8>, max_len: int, i: int) -> Seq<u8> {
    let len = record_len(max_len, i);
    let off = record_offset(source.len() as int, max_len, i);
    source.subrange(off, off + len)
}

/// Corpus bounds: under the loader's precondition, every record is
/// shorter than `max_len` and its byte range lies fully inside the
/// source.
pub proof fn lemma_record_in_bounds(source_len: int, max_len: int, i: int)
    requires
        0 < max_len < source_len,
        0 <= i,
    ensures
        0 <= record_len(max_len, i) < max_len,
        0 <= record_offset(source_len, max_len, i),
        record_offset(source_len, max_len, i) + record_len(max_len, i) <= source_len,
{
    let len = record_len(max_len, i);
    assert(0 <= len < max_len);
    assert(source_len - len > 0);
    let off = record_offset(source_len, max_len, i);
    assert(0 <= off < source_len - len);
}

/// Sample `count` records from `source`. Each iteration draws one
/// generator value for the length (`mod max_len`) and one for the offset
/// (`mod (source_len - length)`), then copies that slice out of the
/// source; records appear in draw order. The result is exactly the
/// sequence of `record_view` slices: always `count` of them, each shorter
/// than `max_len`, each a contiguous substring of the source.
pub fn load_corpus(source: &[u8], count: usize, max_len: usize) -> (corpus: Vec<Vec<u8>>)
    requires
        0 < max_len < source@.len(),
    ensures
        corpus@.len() == count,
        forall|i: int|
            0 <= i < count ==> corpus@[i]@ == record_view(source@, max_len as int, i),
        forall|i: int| 0 <= i < count ==> corpus@[i]@.len() < max_len,
{
    let mut corpus: Vec<Vec<u8>> = Vec::new();
    let mut r = Random::default();
    while corpus.len() < count
        invariant
            0 < max_len < source@.len(),
            corpus@.len() <= count,
            r.0 == state_after(0, 2 * corpus@.len()),
            forall|i: int|
                0 <= i < corpus@.len() ==> corpus@[i]@ == record_view(
                    source@,
                    max_len as int,
                    i,
                ),
            forall|i: int| 0 <= i < corpus@.len() ==> corpus@[i]@.len() < max_len,
        decreases count - corpus@.len(),
    {
        let ghost k = corpus@.len() as int;
        let v1 = r.next();
        proof {
            assert(r.0 == state_after(0, (2 * k + 1) as nat));
            assert(v1 == nth_output(0, (2 * k) as nat));
        }
        let len_word = v1 % (max_len as u64);
        let len = len_word as usize;
        assert(len as int == record_len(max_len as int, k));
        let v2 = r.next();
        proof {
            assert(r.0 == state_after(0, (2 * k + 2) as nat));
            assert(v2 == nth_output(0, (2 * k + 1) as nat));
        }
        let room = source.len() - len;
        let off_word = v2 % (room as u64);
        let off = off_word as usize;
        assert(off as int == record_offset(source@.len() as int, max_len as int, k));
        let record = slice_to_vec(slice_subrange(source, off, off + len));
        assert(record@ == record_view(source@, max_len as int, k));
        corpus.push(record);
        proof {
            assert(2 * corpus@.len() == 2 * k + 2);
        }
    }
    corpus
}

} // verus!
