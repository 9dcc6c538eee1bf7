//! The match predicate: does an encoded public key start with the target,
//! optionally ignoring ASCII case?

use vstd::prelude::*;

verus! {

/// ASCII lower-casing of a single byte: `'A'..='Z'` maps to `'a'..='z'`,
/// every other byte is unchanged.
pub open spec fn lower_byte(b: u8) -> u8 {
    if 65 <= b && b <= 90 {
        (b + 32) as u8
    } else {
        b
    }
}

/// ASCII lower-casing of a byte string, byte by byte.
pub open spec fn lower_bytes(s: Seq<u8>) -> Seq<u8> {
    s.map_values(|b: u8| lower_byte(b))
}

/// `t` is a prefix of `s`: `s` begins with exactly the bytes of `t`.
pub open spec fn is_prefix(t: Seq<u8>, s: Seq<u8>) -> bool {
    &&& t.len() <= s.len()
    &&& forall|i: int| 0 <= i < t.len() ==> s[i] == t[i]
}

/// What the match predicate decides: with `ignore_case` both sides are
/// ASCII-lower-cased before the prefix comparison, otherwise the bytes
/// are compared exactly.
pub open spec fn spec_matches(encoded: Seq<u8>, target: Seq<u8>, ignore_case: bool) -> bool {
    if ignore_case {
        is_prefix(lower_bytes(target), lower_bytes(encoded))
    } else {
        is_prefix(target, encoded)
    }
}

/// ASCII lower-casing of a single byte.
fn lower_byte_exec(b: u8) -> (r: u8)
    ensures
        r == lower_byte(b),
{
    if 65 <= b && b <= 90 {
        b + 32
    } else {
        b
    }
}

/// Decides whether `encoded` starts with `target`, case-insensitively
/// (over ASCII) when `ignore_case` is set. Pure: no side effects, no
/// failure modes; an empty target always matches, a target longer than
/// `encoded` never does.
pub fn matches(encoded: &Vec<u8>, target: &Vec<u8>, ignore_case: bool) -> (r: bool)
    ensures
        r == spec_matches(encoded@, target@, ignore_case),
{
    if target.len() > encoded.len() {
        return false;
    }
    let mut i: usize = 0;
    while i < target.len()
        invariant
            0 <= i <= target@.len(),
            target@.len() <= encoded@.len(),
            forall|j: int|
                0 <= j < i ==> if ignore_case {
                    lower_byte(encoded@[j]) == lower_byte(target@[j])
                } else {
                    encoded@[j] == target@[j]
                },
        decreases target@.len() - i,
    {
        let a = if ignore_case {
            lower_byte_exec(encoded[i])
        } else {
            encoded[i]
        };
        let b = if ignore_case {
            lower_byte_exec(target[i])
        } else {
            target[i]
        };
        if a != b {
            assert(!spec_matches(encoded@, target@, ignore_case)) by {
                if ignore_case {
                    assert(lower_bytes(encoded@)[i as int] != lower_bytes(target@)[i as int]);
                }
            }
            return false;
        }
        i += 1;
    }
    assert(spec_matches(encoded@, target@, ignore_case)) by {
        if ignore_case {
            assert forall|j: int| 0 <= j < lower_bytes(target@).len() implies lower_bytes(
                encoded@,
            )[j] == lower_bytes(target@)[j] by {
                assert(lower_byte(encoded@[j]) == lower_byte(target@[j]));
            }
        }
    }
    true
}

/// An empty target matches every encoding.
pub proof fn lemma_empty_target_matches(encoded: Seq<u8>, ignore_case: bool)
    ensures
        spec_matches(encoded, Seq::<u8>::empty(), ignore_case),
{
    assert(lower_bytes(Seq::<u8>::empty()).len() == 0);
}

/// Without case folding, a match is exactly the byte-for-byte prefix
/// relation.
pub proof fn lemma_exact_match_is_prefix(encoded: Seq<u8>, target: Seq<u8>)
    ensures
        spec_matches(encoded, target, false) == is_prefix(target, encoded),
{
}

/// With case folding, a match is exactly the prefix relation between the
/// two lower-cased strings.
pub proof fn lemma_folded_match_is_prefix(encoded: Seq<u8>, target: Seq<u8>)
    ensures
        spec_matches(encoded, target, true) == is_prefix(lower_bytes(target), lower_bytes(encoded)),
{
}

/// A target longer than the encoding never matches.
pub proof fn lemma_long_target_never_matches(encoded: Seq<u8>, target: Seq<u8>, ignore_case: bool)
    requires
        target.len() > encoded.len(),
    ensures
        !spec_matches(encoded, target, ignore_case),
{
}

} // verus!
