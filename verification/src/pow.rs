//! The proof-of-work engine: a candidate proof is valid against the previous
//! block's proof when the digest of the decimal text of `proof^2 -
//! previous^2` begins with four zero characters.

use vstd::prelude::*;
use vstd::string::StrSliceExecFns;
use crate::errors::ErrorKind;
use crate::hashing::{sha256_hex, sha256_hex_of};
use crate::numerals::{decimal_of, u128_to_decimal};

verus! {

/// The text whose digest decides the puzzle: the decimal numeral of the
/// difference of the squares of the candidate and the previous proof.
pub open spec fn spec_proof_payload(proof: u64, previous_proof: u64) -> Seq<char>
    recommends
        previous_proof <= proof,
{
    decimal_of((proof * proof - previous_proof * previous_proof) as nat)
}

/// Whether a digest text meets the difficulty: its first four characters are
/// the zero digit.
pub open spec fn spec_meets_difficulty(h: Seq<char>) -> bool {
    h.len() >= 4 && h[0] == '0' && h[1] == '0' && h[2] == '0' && h[3] == '0'
}

/// The proof-of-work predicate between a candidate proof and the previous
/// block's proof. A candidate below the previous proof is never valid; the
/// difference of squares would have no meaning for it.
pub open spec fn spec_proof_valid(proof: u64, previous_proof: u64) -> bool {
    &&& previous_proof <= proof
    &&& spec_meets_difficulty(sha256_hex_of(spec_proof_payload(proof, previous_proof)))
}

/// Whether `proof` is the first valid candidate strictly after
/// `previous_proof` — exactly what the proof search returns.
pub open spec fn spec_first_valid_proof(proof: u64, previous_proof: u64) -> bool {
    &&& previous_proof < proof
    &&& spec_proof_valid(proof, previous_proof)
    &&& forall|q: u64|
        previous_proof < q < proof ==> !spec_proof_valid(q, previous_proof)
}

/// Law: the proof search is deterministic. Any two proofs that are each the
/// first valid candidate after the same previous proof are equal, and such a
/// proof passes verification.
pub proof fn lemma_proof_search_deterministic(previous_proof: u64, p1: u64, p2: u64)
    requires
        spec_first_valid_proof(p1, previous_proof),
        spec_first_valid_proof(p2, previous_proof),
    ensures
        p1 == p2,
        spec_proof_valid(p1, previous_proof),
{
    if p1 < p2 {
        assert(!spec_proof_valid(p1, previous_proof));
    }
    if p2 < p1 {
        assert(!spec_proof_valid(p2, previous_proof));
    }
}

/// Re-applies the acceptance test of the proof search to a candidate.
pub fn verify_proof(proof: u64, previous_proof: u64) -> (r: bool)
    ensures
        r == spec_proof_valid(proof, previous_proof),
{
    if proof < previous_proof {
        return false;
    }
    let p = proof as u128;
    let q = previous_proof as u128;
    proof {
        assert(p * p <= u128::MAX && q * q <= p * p) by (nonlinear_arith)
            requires
                q <= p,
                p < 0x1_0000_0000_0000_0000,
        ;
        assert(p * p - q * q == proof * proof - previous_proof * previous_proof);
    }
    let calc: u128 = p * p - q * q;
    let payload = u128_to_decimal(calc);
    let digest = sha256_hex(payload.as_str());
    let d = digest.as_str();
    d.get_char(0) == '0' && d.get_char(1) == '0' && d.get_char(2) == '0' && d.get_char(3) == '0'
}

/// Searches upward from `previous_proof + 1` for the first candidate that
/// satisfies the proof-of-work predicate. The search is capped at the top of
/// the counter's range: where no candidate in that range is valid, the search
/// reports `ProofNotFound` instead of running forever.
pub fn find_proof(previous_proof: u64) -> (r: Result<u64, ErrorKind>)
    ensures
        match r {
            Ok(p) => spec_first_valid_proof(p, previous_proof),
            Err(e) => {
                &&& e == ErrorKind::ProofNotFound
                &&& forall|q: u64| previous_proof < q ==> !spec_proof_valid(q, previous_proof)
            },
        },
{
    let mut candidate: u64 = previous_proof;
    while candidate < u64::MAX
        invariant
            previous_proof <= candidate,
            forall|q: u64|
                previous_proof < q <= candidate ==> !spec_proof_valid(q, previous_proof),
        decreases u64::MAX - candidate,
    {
        let next = candidate + 1;
        if verify_proof(next, previous_proof) {
            return Ok(next);
        }
        candidate = next;
    }
    Err(ErrorKind::ProofNotFound)
}

} // verus!
