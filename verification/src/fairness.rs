//! Commit-reveal fairness primitives: the SHA-256 digest (named, computed by
//! an outside crate), an exact model of lowercase hex encoding, decimal
//! rendering of the nonce, and the seed-concatenation that feeds the outcome
//! digest.

use sha2::Digest;
use vstd::prelude::*;

verus! {

/// The SHA-256 digest of `data`: a fixed function of the input bytes alone,
/// left unstated here because its definition is the hash algorithm itself.
pub uninterp spec fn sha256_of(data: Seq<u8>) -> Seq<u8>;

/// Relies on sha2's `Sha256::digest`: the 32-byte SHA-256 digest of the
/// input, depending on the input bytes alone.
#[verifier::external_body]
pub(crate) fn sha256(data: &[u8]) -> (r: Vec<u8>)
    ensures
        r@ == sha256_of(data@),
        r@.len() == 32,
{
    sha2::Sha256::digest(data).to_vec()
}

/// The ASCII code of the lowercase hex digit for `n` (meaningful for n < 16).
pub open spec fn hex_digit(n: u8) -> u8 {
    if n < 10 {
        (48 + n) as u8  // '0'..'9'
    } else {
        (87 + n) as u8  // 'a'..'f'
    }
}

/// Lowercase hex encoding as bytes: two digits per input byte, high nibble
/// first.
pub open spec fn hex_of(bytes: Seq<u8>) -> Seq<u8> {
    Seq::new(
        bytes.len() * 2,
        |i: int| if i % 2 == 0 {
            hex_digit(bytes[i / 2] / 16)
        } else {
            hex_digit(bytes[i / 2] % 16)
        },
    )
}

/// Relies on hex's `encode`: lowercase hex, two digits per byte, high nibble
/// first; returned here as its ASCII bytes.
#[verifier::external_body]
pub(crate) fn hex_encode(data: &[u8]) -> (r: Vec<u8>)
    ensures
        r@ == hex_of(data@),
{
    hex::encode(data).into_bytes()
}

/// The ASCII decimal rendering of `n`, most significant digit first, with no
/// leading zeros (a single `'0'` for zero).
pub open spec fn dec_of(n: nat) -> Seq<u8>
    decreases n,
{
    if n < 10 {
        seq![(48 + n) as u8]
    } else {
        dec_of(n / 10) + seq![(48 + n % 10) as u8]
    }
}

/// Renders `n` in ASCII decimal, exactly as `dec_of` states.
pub fn dec_bytes(n: u64) -> (r: Vec<u8>)
    ensures
        r@ == dec_of(n as nat),
    decreases n,
{
    if n < 10 {
        let mut v: Vec<u8> = Vec::new();
        v.push(48 + (n as u8));
        assert(v@ =~= dec_of(n as nat));
        v
    } else {
        let mut v = dec_bytes(n / 10);
        v.push(48 + ((n % 10) as u8));
        assert(v@ =~= dec_of(n as nat));
        v
    }
}

/// The exact byte string that is hashed to derive a game's outcome:
/// `server`, `'-'`, `client`, `'-'`, and the decimal nonce, concatenated.
pub open spec fn combined_of(server: Seq<u8>, client: Seq<u8>, nonce: u64) -> Seq<u8> {
    server + seq![45u8] + client + seq![45u8] + dec_of(nonce as nat)
}

/// Builds the seed-concatenation whose digest is the sole source of game
/// randomness.
pub fn combined_seed(server: &[u8], client: &[u8], nonce: u64) -> (r: Vec<u8>)
    ensures
        r@ == combined_of(server@, client@, nonce),
{
    let mut v: Vec<u8> = Vec::new();
    v.extend_from_slice(server);
    v.push(45);
    v.extend_from_slice(client);
    v.push(45);
    let mut tail = dec_bytes(nonce);
    v.append(&mut tail);
    assert(v@ =~= combined_of(server@, client@, nonce));
    v
}

/// Byte-for-byte equality of two byte strings; the fairness comparison is
/// exact, never normalized.
pub fn bytes_eq(a: &[u8], b: &[u8]) -> (r: bool)
    ensures
        r <==> a@ == b@,
{
    if a.len() != b.len() {
        assert(a@ != b@);
        return false;
    }
    let n = a.len();
    let mut i: usize = 0;
    while i < n
        invariant
            n == a@.len() == b@.len(),
            i <= n,
            forall|j: int| 0 <= j < i ==> a@[j] == b@[j],
        decreases n - i,
    {
        if a[i] != b[i] {
            return false;
        }
        i += 1;
    }
    assert(a@ =~= b@);
    true
}

} // verus!
