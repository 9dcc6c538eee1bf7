use vanity_search::cells::OperationCounter;
use vanity_search::cells::TerminationFlag;
use vanity_search::worker::generate_candidates;
use vanity_search::worker::run_batch;
use vanity_search::worker::BATCH_SIZE;

// A batch holds exactly BATCH_SIZE fresh candidates, each with a
// non-empty public and private encoding. Were the generator handing
// back its input unchanged there would be nothing here at all.
#[test]
fn batch_has_fixed_size_fresh_candidates() {
    let candidates = generate_candidates();
    assert_eq!(candidates.len(), BATCH_SIZE);
    for (public_key, private_material) in &candidates {
        assert!(!public_key.is_empty());
        assert!(!private_material.is_empty());
        // A fresh keypair's base58-encoded 32-byte public key is 32 to
        // 44 characters; its 64-byte private material 86 to 88.
        assert!(public_key.len() >= 32 && public_key.len() <= 44);
        assert!(private_material.len() >= 86 && private_material.len() <= 88);
    }
}

// Two batches repeat no public key: the generator draws fresh
// randomness each time.
#[test]
fn batches_do_not_repeat() {
    let a = generate_candidates();
    let b = generate_candidates();
    for (pk_a, _) in &a {
        for (pk_b, _) in &b {
            assert_ne!(pk_a, pk_b);
        }
    }
}

// A target longer than any possible encoding can never match: the batch
// emits nothing, leaves the flag unset, and still counts all its
// operations.
#[test]
fn impossible_target_matches_nothing() {
    let target = vec![b'z'; 50];
    let flag = TerminationFlag::new();
    let counter = OperationCounter::new();
    let matched = run_batch(&target, false, true, &flag, &counter);
    assert_eq!(matched, 0);
    assert!(!flag.is_set());
    assert_eq!(counter.drain(), BATCH_SIZE);
}

// An empty target is guaranteed satisfiable: every candidate matches,
// and with stop-on-match the flag is set within one batch.
#[test]
fn empty_target_stops_within_one_batch() {
    let target = Vec::new();
    let flag = TerminationFlag::new();
    let counter = OperationCounter::new();
    let matched = run_batch(&target, true, true, &flag, &counter);
    assert_eq!(matched, BATCH_SIZE);
    assert!(flag.is_set());
    assert_eq!(counter.drain(), BATCH_SIZE);
}

// Counter conservation over several batches: the counter holds exactly
// batches-completed times the batch size.
#[test]
fn counter_conservation_across_batches() {
    let target = vec![b'z'; 50];
    let flag = TerminationFlag::new();
    let counter = OperationCounter::new();
    for _ in 0..3 {
        run_batch(&target, false, false, &flag, &counter);
    }
    assert_eq!(counter.drain(), 3 * BATCH_SIZE);
}
