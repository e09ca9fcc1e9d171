//! The pseudo-random numbers by which tokens are drawn.
//!
//! A number is drawn from the block timestamp and a salt that counts the
//! draws. The construction is cheap and biased: the product of two bytes
//! reaches few of the values below 65536, and whoever can foresee the
//! timestamp can foresee the number. It decides which token is handed out,
//! never whether a mint succeeds.

use vstd::prelude::*;

verus! {

/// The Keccak-256 digest of a byte string.
pub uninterp spec fn keccak256(input: Seq<u8>) -> Seq<u8>;

/// Calls `ink::env::hash_bytes` with `ink::env::hash::Keccak256`, which
/// fills a 32-byte array with the Keccak-256 digest of the input. The
/// contract gives that digest its name and claims nothing more of it.
#[verifier::external_body]
fn keccak_256(input: &[u8]) -> (digest: [u8; 32])
    ensures
        digest@ == keccak256(input@),
{
    let mut digest = [0u8; 32];
    ink::env::hash_bytes::<ink::env::hash::Keccak256>(input, &mut digest);
    digest
}

/// The eight bytes of a number, most significant first.
pub open spec fn be_bytes(x: u64) -> Seq<u8> {
    Seq::new(8, |i: int| ((x as int / pow256(7 - i)) % 256) as u8)
}

/// 256 to the power `n`.
pub open spec fn pow256(n: int) -> int
    decreases n,
{
    if n <= 0 {
        1
    } else {
        256 * pow256(n - 1)
    }
}

/// What is hashed for a draw: the timestamp, then the salt, each as eight
/// bytes, most significant first.
pub open spec fn entropy_input(seed: u64, salt: u64) -> Seq<u8> {
    be_bytes(seed) + be_bytes(salt)
}

/// The number that a digest stands for within `0..=max_value`: the product
/// of its first two bytes, reduced modulo `max_value + 1`.
pub open spec fn number_of_digest(digest: Seq<u8>, max_value: u64) -> int {
    (digest[0] as int * digest[1] as int) % (max_value as int + 1)
}

/// The number drawn at timestamp `seed` with the salt at `salt`.
pub open spec fn pseudo_random(seed: u64, salt: u64, max_value: u64) -> int {
    number_of_digest(keccak256(entropy_input(seed, salt)), max_value)
}

/// A drawn number lies in `0..=max_value`, whatever the digest.
pub proof fn lemma_number_in_range(digest: Seq<u8>, max_value: u64)
    ensures
        0 <= number_of_digest(digest, max_value) <= max_value,
{
    let product = digest[0] as int * digest[1] as int;
    assert(0 <= product) by (nonlinear_arith)
        requires
            product == digest[0] as int * digest[1] as int,
            0 <= digest[0] as int,
            0 <= digest[1] as int,
    ;
    let modulus = max_value as int + 1;
    assert(0 <= product % modulus < modulus) by (nonlinear_arith)
        requires
            0 <= product,
            0 < modulus,
    ;
}

/// Appends the eight bytes of `x`, most significant first.
pub fn push_be_bytes(out: &mut Vec<u8>, x: u64)
    ensures
        final(out)@ == old(out)@ + be_bytes(x),
{
    let ghost before = out@;
    let mut divisor: u64 = 0x0100_0000_0000_0000;
    let mut i: usize = 0;
    proof {
        reveal_with_fuel(pow256, 9);
    }
    while i < 8
        invariant
            i <= 8,
            divisor as int == pow256(7 - i as int) || (i == 8 && divisor == 0),
            i < 8 ==> divisor > 0,
            out@ == before + be_bytes(x).subrange(0, i as int),
        decreases 8 - i,
    {
        let byte: u8 = ((x / divisor) % 256) as u8;
        out.push(byte);
        proof {
            assert(byte == be_bytes(x)[i as int]);
            assert(out@ =~= before + be_bytes(x).subrange(0, i as int + 1));
            reveal_with_fuel(pow256, 2);
        }
        divisor = divisor / 256;
        i += 1;
    }
    assert(be_bytes(x).subrange(0, 8) =~= be_bytes(x));
}

/// The number that a digest stands for within `0..=max_value`.
pub fn number_from_digest(digest: &[u8; 32], max_value: u64) -> (number: u64)
    ensures
        number == number_of_digest(digest@, max_value),
        number <= max_value,
{
    let first: u128 = digest[0] as u128;
    let second: u128 = digest[1] as u128;
    assert(first * second <= 65025) by (nonlinear_arith)
        requires
            first <= 255,
            second <= 255,
    ;
    let product: u128 = first * second;
    let modulus: u128 = max_value as u128 + 1;
    proof {
        lemma_number_in_range(digest@, max_value);
    }
    (product % modulus) as u64
}

/// Draws a number in `0..=max_value` from the timestamp and the salt, and
/// advances the salt by one.
pub fn get_pseudo_random(salt: &mut u64, seed: u64, max_value: u64) -> (number: u64)
    requires
        *old(salt) < u64::MAX,
    ensures
        *final(salt) == *old(salt) + 1,
        number == pseudo_random(seed, *old(salt), max_value),
        number <= max_value,
{
    let mut input: Vec<u8> = Vec::new();
    push_be_bytes(&mut input, seed);
    push_be_bytes(&mut input, *salt);
    assert(input@ =~= entropy_input(seed, *salt));
    let digest = keccak_256(input.as_slice());
    *salt = *salt + 1;
    number_from_digest(&digest, max_value)
}

} // verus!
