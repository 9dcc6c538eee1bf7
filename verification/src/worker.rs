//! One search worker's unit of work: a fixed-size batch of
//! generate/test/emit attempts between two observations of the shared
//! state. The unbounded loop around it — check the termination flag,
//! run a batch, repeat — is driven by the caller, since it terminates
//! only when the flag is set and may by design run forever.

use crate::cells::OperationCounter;
use crate::cells::TerminationFlag;
use crate::predicate::spec_matches;
use solana_sdk::signer::keypair::Keypair;
use solana_sdk::signer::Signer;
use std::io::Write;
use vstd::prelude::*;

verus! {

/// Number of generate/test attempts a worker performs between two
/// updates of the shared operation counter. A tunable design constant:
/// batching amortizes the cost of the shared atomic update.
pub const BATCH_SIZE: usize = 10;

/// How many of the candidates match the target: the number of indices
/// whose public-key encoding satisfies the predicate.
pub open spec fn match_count(
    candidates: Seq<(Vec<u8>, Vec<u8>)>,
    target: Seq<u8>,
    ignore_case: bool,
) -> nat
    decreases candidates.len(),
{
    if candidates.len() == 0 {
        0
    } else {
        match_count(candidates.drop_last(), target, ignore_case) + if spec_matches(
            candidates.last().0@,
            target,
            ignore_case,
        ) {
            1nat
        } else {
            0nat
        }
    }
}

/// At most every candidate can match.
pub proof fn lemma_match_count_le_len(
    candidates: Seq<(Vec<u8>, Vec<u8>)>,
    target: Seq<u8>,
    ignore_case: bool,
)
    ensures
        match_count(candidates, target, ignore_case) <= candidates.len(),
    decreases candidates.len(),
{
    if candidates.len() > 0 {
        lemma_match_count_le_len(candidates.drop_last(), target, ignore_case);
    }
}

/// The result line for one match: the public-key encoding, one space,
/// the private-material encoding.
pub open spec fn spec_match_line(public_key: Seq<u8>, private_material: Seq<u8>) -> Seq<u8> {
    public_key + seq![32u8] + private_material
}

/// Builds the result line for one match: `<public_key> <private_material>`,
/// space-separated.
pub fn format_match_line(public_key: &Vec<u8>, private_material: &Vec<u8>) -> (r: Vec<u8>)
    ensures
        r@ == spec_match_line(public_key@, private_material@),
{
    let mut line: Vec<u8> = Vec::new();
    let mut i: usize = 0;
    while i < public_key.len()
        invariant
            0 <= i <= public_key@.len(),
            line@ == public_key@.take(i as int),
        decreases public_key@.len() - i,
    {
        line.push(public_key[i]);
        assert(line@ =~= public_key@.take(i + 1));
        i += 1;
    }
    assert(line@ =~= public_key@);
    line.push(32);
    let mut j: usize = 0;
    while j < private_material.len()
        invariant
            0 <= j <= private_material@.len(),
            line@ == public_key@ + seq![32u8] + private_material@.take(j as int),
        decreases private_material@.len() - j,
    {
        line.push(private_material[j]);
        assert(line@ =~= public_key@ + seq![32u8] + private_material@.take(j + 1));
        j += 1;
    }
    assert(line@ =~= spec_match_line(public_key@, private_material@));
    line
}

/// Relies on `solana_sdk`'s `Keypair::new` to produce a fresh random
/// Ed25519 keypair from the operating system's randomness, on the
/// `Signer::pubkey` accessor with the public key's base58 `Display`
/// form for the public encoding, and on `Keypair::to_base58_string`
/// for the private-material encoding. The result is random, so nothing
/// is promised of it; `Keypair::new` aborts only when the machine has
/// no randomness source, which the surrounding design treats as fatal.
#[allow(deprecated)]
#[verifier::external_body]
fn generate_keypair() -> (r: (Vec<u8>, Vec<u8>))
{
    let kp = Keypair::new();
    let public_key = kp.pubkey().to_string().into_bytes();
    let private_material = kp.to_base58_string().into_bytes();
    (public_key, private_material)
}

/// Relies on `writeln!` to the process's standard output stream, the
/// result channel: writes the given bytes as one line. The write's
/// success is not observed; result emission is fire-and-forget.
#[verifier::external_body]
fn emit_line(line: &Vec<u8>)
{
    let _ = writeln!(std::io::stdout(), "{}", String::from_utf8_lossy(line));
}

/// Generates one batch of fresh candidates: each is the pair of the
/// public-key encoding and the private-material encoding of a fresh
/// random keypair.
pub fn generate_candidates() -> (r: Vec<(Vec<u8>, Vec<u8>)>)
    ensures
        r@.len() == BATCH_SIZE,
{
    let mut out: Vec<(Vec<u8>, Vec<u8>)> = Vec::new();
    let mut i: usize = 0;
    while i < BATCH_SIZE
        invariant
            out@.len() == i,
            0 <= i <= BATCH_SIZE,
        decreases BATCH_SIZE - i,
    {
        out.push(generate_keypair());
        i += 1;
    }
    out
}

/// Tests every candidate against the target. Each match is emitted on
/// the result channel immediately and unconditionally — every match is
/// reported, not just the first — and, when `stop_on_match` is set,
/// also sets the shared termination flag. Returns how many candidates
/// matched.
pub fn process_batch(
    candidates: &Vec<(Vec<u8>, Vec<u8>)>,
    target: &Vec<u8>,
    ignore_case: bool,
    stop_on_match: bool,
    flag: &TerminationFlag,
) -> (matched: usize)
    ensures
        matched == match_count(candidates@, target@, ignore_case),
{
    let mut matched: usize = 0;
    let mut i: usize = 0;
    while i < candidates.len()
        invariant
            0 <= i <= candidates@.len(),
            matched == match_count(candidates@.take(i as int), target@, ignore_case),
            matched <= i,
        decreases candidates@.len() - i,
    {
        let pair = &candidates[i];
        if crate::predicate::matches(&pair.0, target, ignore_case) {
            let line = format_match_line(&pair.0, &pair.1);
            emit_line(&line);
            if stop_on_match {
                flag.set();
            }
            matched += 1;
        }
        proof {
            assert(candidates@.take(i + 1).drop_last() =~= candidates@.take(i as int));
            assert(candidates@.take(i + 1).last() == candidates@[i as int]);
        }
        i += 1;
    }
    assert(candidates@.take(candidates@.len() as int) =~= candidates@);
    matched
}

/// One full worker batch at a batch boundary: generates `BATCH_SIZE`
/// fresh candidates, tests and emits as [`process_batch`] does, then
/// adds the whole batch size to the shared operation counter in one
/// atomic increment. Returns how many of the batch's candidates
/// matched; which ones is up to the randomness of the generator.
pub fn run_batch(
    target: &Vec<u8>,
    ignore_case: bool,
    stop_on_match: bool,
    flag: &TerminationFlag,
    counter: &OperationCounter,
) -> (matched: usize)
    ensures
        matched <= BATCH_SIZE,
{
    let candidates = generate_candidates();
    let matched = process_batch(&candidates, target, ignore_case, stop_on_match, flag);
    proof {
        lemma_match_count_le_len(candidates@, target@, ignore_case);
    }
    counter.add(BATCH_SIZE);
    matched
}

} // verus!
