use hashbench::adapter::{hash_one, Algorithm};
use hashbench::corpus::load_corpus;
use hashbench::generator::Random;
use hashbench::runner::run_workload;

const ALL_ALGORITHMS: [Algorithm; 17] = [
    Algorithm::Fnv,
    Algorithm::AHash,
    Algorithm::FxHash,
    Algorithm::Xxh64,
    Algorithm::SeaHash,
    Algorithm::ZwoHash,
    Algorithm::Mur3_32,
    Algorithm::Mur3_128,
    Algorithm::Highway,
    Algorithm::SipHash,
    Algorithm::Crc32,
    Algorithm::WyHash,
    Algorithm::MetroHash64,
    Algorithm::MetroHash128,
    Algorithm::KomiHash,
    Algorithm::T1ha,
    Algorithm::MuseAir,
];

/// A reproducible source text for sampling tests.
fn make_source(len: usize) -> Vec<u8> {
    let mut source = Vec::with_capacity(len);
    for i in 0..len {
        source.push((i % 251) as u8);
    }
    source
}

#[test]
fn generator_first_outputs_match_hand_computation() {
    let mut r = Random::default();
    let mut s: u64 = 0;
    for _ in 0..3 {
        s ^= 0x4f2357a2e6b9d8c1;
        s = s.wrapping_mul(0x8d1f5e2c84560baf);
        s = s.wrapping_add(0xf0c3be9a71d8246e);
        assert_eq!(r.next(), s);
    }
}

#[test]
fn generator_first_three_outputs_from_zero_state() {
    let mut r = Random::default();
    assert_eq!(r.next(), 0x70491c3e7c099b5d);
    assert_eq!(r.next(), 0x6d0eea30e9a61012);
    assert_eq!(r.next(), 0x11cc129769157dab);
}

#[test]
fn generator_is_deterministic() {
    let mut a = Random::default();
    let mut b = Random::default();
    for _ in 0..1000 {
        assert_eq!(a.next(), b.next());
    }
}

#[test]
fn corpus_scenario_five_records_from_thousand_byte_source() {
    let source = make_source(1000);
    let corpus = load_corpus(&source, 5, 10);
    assert_eq!(corpus.len(), 5);
    let expected: [(usize, usize); 5] = [(1, 661), (7, 844), (9, 388), (7, 775), (3, 470)];
    for (record, (len, off)) in corpus.iter().zip(expected.iter()) {
        assert_eq!(record.len(), *len);
        assert!(record.len() < 10);
        assert_eq!(&record[..], &source[*off..*off + *len]);
    }
}

#[test]
fn corpus_count_is_exact() {
    let source = make_source(300);
    assert_eq!(load_corpus(&source, 0, 5).len(), 0);
    assert_eq!(load_corpus(&source, 1, 5).len(), 1);
    assert_eq!(load_corpus(&source, 17, 5).len(), 17);
}

#[test]
fn corpus_records_are_bounded_substrings() {
    let source = make_source(500);
    let corpus = load_corpus(&source, 50, 40);
    assert_eq!(corpus.len(), 50);
    for record in &corpus {
        assert!(record.len() < 40);
        if !record.is_empty() {
            let found = source
                .windows(record.len())
                .any(|window| window == &record[..]);
            assert!(found);
        }
    }
}

#[test]
fn adapter_known_values() {
    assert_eq!(hash_one(Algorithm::Fnv, b""), 0xcbf29ce484222325);
    assert_eq!(hash_one(Algorithm::Crc32, b"123456789"), 0xcbf43926);
    assert_eq!(hash_one(Algorithm::Xxh64, b""), 0xef46db3751d8e999);
}

#[test]
fn adapter_empty_input_is_stable() {
    for alg in ALL_ALGORITHMS {
        assert_eq!(hash_one(alg, b""), hash_one(alg, b""));
    }
}

#[test]
fn adapter_repeated_calls_agree() {
    let message = b"the quick brown fox jumps over the lazy dog";
    for alg in ALL_ALGORITHMS {
        let first = hash_one(alg, message);
        let second = hash_one(alg, message);
        let third = hash_one(alg, message);
        assert_eq!(first, second);
        assert_eq!(first, third);
    }
}

#[test]
fn adapter_distinguishes_inputs() {
    for alg in ALL_ALGORITHMS {
        assert_ne!(hash_one(alg, b"abc"), hash_one(alg, b"abd"));
    }
}

#[test]
fn workload_zero_rounds_returns_zero() {
    let corpus = vec![b"alpha".to_vec(), b"beta".to_vec()];
    for alg in ALL_ALGORITHMS {
        assert_eq!(run_workload(alg, &corpus, 0), 0);
    }
}

#[test]
fn workload_matches_manual_fold() {
    let corpus = vec![b"alpha".to_vec(), b"beta".to_vec(), b"gamma".to_vec()];
    let rounds: usize = 2;
    for alg in ALL_ALGORITHMS {
        let mut expected: u64 = 0;
        for _ in 0..rounds {
            for record in &corpus {
                expected = expected.wrapping_add(hash_one(alg, record));
            }
        }
        assert_eq!(run_workload(alg, &corpus, rounds), expected);
    }
}

#[test]
fn workload_sink_scales_with_rounds() {
    let corpus = vec![b"alpha".to_vec(), b"beta".to_vec(), b"gamma".to_vec()];
    let one_round = run_workload(Algorithm::Fnv, &corpus, 1);
    let two_rounds = run_workload(Algorithm::Fnv, &corpus, 2);
    assert_ne!(one_round, 0);
    assert_ne!(two_rounds, one_round);
    assert_eq!(two_rounds, one_round.wrapping_mul(2));
}
