//! The measurement fold: hash every corpus record, in order, for a fixed
//! number of rounds, folding each hash value into a 64-bit sink. The sink
//! is the harness's defence against dead-code elimination: the returned
//! value depends on every hash computed, so no call can be elided, and
//! the caller need only observe the single returned word.

use crate::adapter::{hash_one, hash_spec, Algorithm};
use vstd::prelude::*;

verus! {

/// The sink after folding in the hashes of the first `i` records, on top
/// of an accumulator `acc`.
pub open spec fn round_sink(alg: Algorithm, records: Seq<Seq<u8>>, i: nat, acc: u64) -> u64
    decreases i,
{
    if i == 0 {
        acc
    } else {
        round_sink(alg, records, (i - 1) as nat, acc).wrapping_add(hash_spec(alg, records[i - 1]))
    }
}

/// The sink after `rounds` full passes over all records, starting from
/// `acc`.
pub open spec fn workload_sink(alg: Algorithm, records: Seq<Seq<u8>>, rounds: nat, acc: u64) -> u64
    decreases rounds,
{
    if rounds == 0 {
        acc
    } else {
        round_sink(alg, records, records.len(), workload_sink(alg, records, (rounds - 1) as nat, acc))
    }
}

/// Hash every record once per round, folding each value into the sink
/// with wrapping addition. The result is exactly the fold of all `rounds * count`
/// hashes, so every one of them is observably consumed: a body that
/// skipped any call could not return this value.
pub fn run_workload(alg: Algorithm, corpus: &Vec<Vec<u8>>, rounds: usize) -> (sink: u64)
    ensures
        sink == workload_sink(alg, corpus.deep_view(), rounds as nat, 0),
{
    let ghost dv = corpus.deep_view();
    let mut sink: u64 = 0;
    let mut round: usize = 0;
    while round < rounds
        invariant
            round <= rounds,
            dv == corpus.deep_view(),
            sink == workload_sink(alg, dv, round as nat, 0),
        decreases rounds - round,
    {
        let ghost base = sink;
        let mut j: usize = 0;
        while j < corpus.len()
            invariant
                j <= corpus@.len(),
                dv == corpus.deep_view(),
                dv.len() == corpus@.len(),
                sink == round_sink(alg, dv, j as nat, base),
            decreases corpus@.len() - j,
        {
            let h = hash_one(alg, corpus[j].as_slice());
            proof {
                assert(dv[j as int] == corpus@[j as int].deep_view());
                assert(corpus@[j as int].deep_view() =~= corpus@[j as int]@);
                assert(h == hash_spec(alg, dv[j as int]));
            }
            sink = sink.wrapping_add(h);
            j = j + 1;
        }
        round = round + 1;
        proof {
            assert(sink == round_sink(alg, dv, dv.len(), base));
            assert(sink == workload_sink(alg, dv, round as nat, 0));
        }
    }
    sink
}

} // verus!
