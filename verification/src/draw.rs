use vstd::prelude::*;
use vstd::string::*;

use rand::rngs::StdRng;
use rand::Rng;
use rand::SeedableRng;
use sha2::{Digest, Sha256};

use crate::strfmt::{dec_rep, push_dec_u64};

verus! {

/// The numbers a draw generates: the output stream of the standard generator
/// seeded with `seed`, cut to `n` draws from `0..u64::MAX`.
pub uninterp spec fn std_rng_draws(seed: u64, n: nat) -> Seq<u64>;

/// Relies on rand::rngs::StdRng::seed_from_u64 and rand::Rng::gen_range: a
/// generator built by seed_from_u64 produces a stream that depends on the
/// seed alone, and every draw from `0..u64::MAX` lies below `u64::MAX` (the
/// upper bound is exclusive; the range is never empty, so gen_range cannot
/// panic).
#[verifier::external_body]
pub(crate) fn generate_random_numbers_for_participants(num_participants: usize, rng_seed: u64) -> (r:
    Vec<u64>)
    ensures
        r@ == std_rng_draws(rng_seed, num_participants as nat),
        r@.len() == num_participants,
        forall|i: int| 0 <= i < r@.len() ==> r@[i] < u64::MAX,
{
    let mut rng = StdRng::seed_from_u64(rng_seed);
    let mut random_numbers: Vec<u64> = Vec::with_capacity(num_participants);
    for _ in 0..num_participants {
        let random_number = rng.gen_range(0..u64::MAX);
        random_numbers.push(random_number);
    }
    random_numbers
}

/// The lowercase hexadecimal SHA-256 digest of the UTF-8 bytes of `s`.
pub uninterp spec fn sha256_hex_of(s: Seq<char>) -> Seq<char>;

/// Relies on sha2::Sha256 (new, update, finalize) and on the LowerHex
/// rendering of the digest: the digest depends on the input bytes alone, and
/// it prints as exactly 64 lowercase hexadecimal digits, two per digest byte.
#[verifier::external_body]
pub(crate) fn sha256_hex(s: &str) -> (r: String)
    ensures
        r@ == sha256_hex_of(s@),
        r@.len() == 64,
{
    let mut hasher = Sha256::new();
    hasher.update(s.as_bytes());
    format!("{:x}", hasher.finalize())
}

/// The text whose digest is published beside a draw: the lottery id, the
/// winner identity and the winning index, joined by `-`.
pub open spec fn verification_text(id: Seq<char>, winner: Seq<char>, index: u64) -> Seq<char> {
    id + "-"@ + winner + "-"@ + dec_rep(index as nat)
}

/// Recomputes the verification hash for a published draw outcome, so that any
/// observer can hold a stored hash against the announced winner and index.
pub fn verification_hash_for(id: &str, winner: &str, index: u64) -> (r: String)
    ensures
        r@ == sha256_hex_of(verification_text(id@, winner@, index)),
{
    let mut text = String::from_str(id);
    text.append("-");
    text.append(winner);
    text.append("-");
    push_dec_u64(&mut text, index);
    proof {
        assert(text@ =~= verification_text(id@, winner@, index));
    }
    sha256_hex(text.as_str())
}

} // verus!
