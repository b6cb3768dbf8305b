//! The proof-of-work puzzle: find a nonce such that the SHA-256 digest of
//! seed and nonce starts with as many zero bits as the difficulty asks.
use vstd::prelude::*;

use crate::encodings::random_array;

verus! {

/// The SHA-256 digest of some bytes.
pub uninterp spec fn sha256_of(data: Seq<u8>) -> Seq<u8>;

/// Relies on sha2's `Sha256::digest`: the 32-byte SHA-256 digest of the
/// data.
#[verifier::external_body]
fn sha256(data: &[u8]) -> (r: Vec<u8>)
    ensures
        r@ == sha256_of(data@),
        r@.len() == 32,
{
    <sha2::Sha256 as sha2::Digest>::digest(data).to_vec()
}

/// The eight big-endian bytes of `x`.
pub open spec fn be_bytes(x: u64) -> Seq<u8> {
    seq![
        (x >> 56u64) as u8,
        (x >> 48u64) as u8,
        (x >> 40u64) as u8,
        (x >> 32u64) as u8,
        (x >> 24u64) as u8,
        (x >> 16u64) as u8,
        (x >> 8u64) as u8,
        x as u8,
    ]
}

/// The number that the first eight bytes of `b` spell in big-endian order.
pub open spec fn be_u64(b: Seq<u8>) -> u64
    recommends
        b.len() >= 8,
{
    (b[0] as u64) << 56u64 | (b[1] as u64) << 48u64 | (b[2] as u64) << 40u64 | (b[3] as u64)
        << 32u64 | (b[4] as u64) << 24u64 | (b[5] as u64) << 16u64 | (b[6] as u64) << 8u64 | (
    b[7] as u64)
}

/// The work value of a nonce: the leading 64 bits of the SHA-256 digest of
/// seed and nonce, both big-endian.
pub open spec fn work(seed: u64, nonce: u64) -> u64 {
    be_u64(sha256_of(be_bytes(seed) + be_bytes(nonce)))
}

fn puzzle_input(seed: u64, nonce: u64) -> (r: Vec<u8>)
    ensures
        r@ == be_bytes(seed) + be_bytes(nonce),
{
    let r = vec![
        (seed >> 56u64) as u8,
        (seed >> 48u64) as u8,
        (seed >> 40u64) as u8,
        (seed >> 32u64) as u8,
        (seed >> 24u64) as u8,
        (seed >> 16u64) as u8,
        (seed >> 8u64) as u8,
        seed as u8,
        (nonce >> 56u64) as u8,
        (nonce >> 48u64) as u8,
        (nonce >> 40u64) as u8,
        (nonce >> 32u64) as u8,
        (nonce >> 24u64) as u8,
        (nonce >> 16u64) as u8,
        (nonce >> 8u64) as u8,
        nonce as u8,
    ];
    assert(r@ =~= be_bytes(seed) + be_bytes(nonce));
    r
}

/// The largest work value that meets `difficulty`: each step halves the share of
/// nonces that solve the puzzle.
pub open spec fn threshold(difficulty: u8) -> u64 {
    if difficulty >= 64 {
        0
    } else {
        u64::MAX >> difficulty
    }
}

/// A puzzle: a seed and the number of leading zero bits that a solution's
/// digest must have.
#[derive(Debug, Clone, Copy, PartialEq, Eq, Structural)]
pub struct PowChallenge {
    pub seed: u64,
    pub difficulty: u8,
}

impl PowChallenge {
    /// Whether `solution` solves the puzzle.
    pub open spec fn accepts(&self, solution: u64) -> bool {
        work(self.seed, solution) <= threshold(self.difficulty)
    }

    pub fn new(seed: u64, difficulty: u8) -> (r: Self)
        ensures
            r.seed == seed,
            r.difficulty == difficulty,
    {
        PowChallenge { seed, difficulty }
    }

    /// A puzzle whose seed is `bytes` read in big-endian order.
    pub fn from_seed_bytes(bytes: [u8; 8], difficulty: u8) -> (r: Self)
        ensures
            r.seed == be_u64(bytes@),
            r.difficulty == difficulty,
    {
        let seed = (bytes[0] as u64) << 56u64 | (bytes[1] as u64) << 48u64 | (bytes[2] as u64)
            << 40u64 | (bytes[3] as u64) << 32u64 | (bytes[4] as u64) << 24u64 | (bytes[5] as u64)
            << 16u64 | (bytes[6] as u64) << 8u64 | (bytes[7] as u64);
        PowChallenge { seed, difficulty }
    }

    /// A fresh puzzle whose seed is eight bytes from a cryptographically
    /// secure generator.
    pub fn generate(difficulty: u8) -> (r: Self)
        ensures
            r.difficulty == difficulty,
            exists|b: Seq<u8>| b.len() == 8 && r.seed == #[trigger] be_u64(b),
    {
        let bytes = random_array::<8>();
        Self::from_seed_bytes(bytes, difficulty)
    }

    /// Tells whether `solution` solves the puzzle.
    pub fn is_valid_solution(&self, solution: u64) -> (r: bool)
        ensures
            r == self.accepts(solution),
    {
        let input = puzzle_input(self.seed, solution);
        let h = sha256(input.as_slice());
        let z = (h[0] as u64) << 56u64 | (h[1] as u64) << 48u64 | (h[2] as u64) << 40u64 | (
        h[3] as u64) << 32u64 | (h[4] as u64) << 24u64 | (h[5] as u64) << 16u64 | (h[6] as u64)
            << 8u64 | (h[7] as u64);
        let limit = if self.difficulty >= 64 {
            0
        } else {
            u64::MAX >> self.difficulty
        };
        z <= limit
    }

    /// The least solution, found by trying nonces in order; `None` when no
    /// nonce solves the puzzle.
    pub fn solve(&self) -> (r: Option<u64>)
        ensures
            r matches Some(s) ==> self.accepts(s) && forall|t: u64| t < s ==> !self.accepts(t),
            r is None ==> forall|t: u64| !self.accepts(t),
    {
        let mut n: u64 = 0;
        loop
            invariant
                forall|t: u64| t < n ==> !self.accepts(t),
            decreases u64::MAX - n,
        {
            if self.is_valid_solution(n) {
                return Some(n);
            }
            if n == u64::MAX {
                assert forall|t: u64| !self.accepts(t) by {
                    if t < n {
                    }
                }
                return None;
            }
            n = n + 1;
        }
    }
}

} // verus!
