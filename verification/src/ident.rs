use vstd::arithmetic::power::pow;
use vstd::prelude::*;

verus! {

/// The SHA-256 digest of a byte string.
pub uninterp spec fn sha256(data: Seq<u8>) -> Seq<u8>;

/// The eight bytes of `n`, most significant first: its digits in base 256.
pub open spec fn be_bytes(n: u64) -> Seq<u8> {
    Seq::new(8, |i: int| ((n as int / pow(256, (7 - i) as nat)) % 256) as u8)
}

/// The identifier that the `counter`-th remittance carries.
pub open spec fn id_bytes(counter: u64) -> Seq<u8> {
    sha256(be_bytes(counter))
}

/// Splits a counter into its big-endian bytes.
pub fn counter_bytes(n: u64) -> (bytes: [u8; 8])
    ensures
        bytes@ == be_bytes(n),
{
    let bytes: [u8; 8] = [
        (n / 0x100_0000_0000_0000) as u8,
        ((n / 0x1_0000_0000_0000) % 256) as u8,
        ((n / 0x100_0000_0000) % 256) as u8,
        ((n / 0x1_0000_0000) % 256) as u8,
        ((n / 0x100_0000) % 256) as u8,
        ((n / 0x1_0000) % 256) as u8,
        ((n / 0x100) % 256) as u8,
        (n % 256) as u8,
    ];
    assert(bytes@ =~= be_bytes(n)) by {
        reveal_with_fuel(pow, 8);
    }
    bytes
}

/// Calls `soroban_sdk::crypto::Crypto::sha256` on a fresh default `Env`.
/// Trusted: the result is the SHA-256 digest of the eight input bytes, a
/// function of those bytes alone.
#[verifier::external_body]
fn sha256_digest(data: &[u8; 8]) -> (digest: [u8; 32])
    ensures
        digest@ == sha256(data@),
{
    let env = soroban_sdk::Env::default();
    let input = soroban_sdk::Bytes::from_array(&env, data);
    env.crypto().sha256(&input).to_array()
}

/// Derives the identifier of the `counter`-th remittance: the SHA-256 digest
/// of the counter's big-endian bytes.
pub fn remittance_id(counter: u64) -> (id: [u8; 32])
    ensures
        id@ == id_bytes(counter),
{
    let bytes = counter_bytes(counter);
    sha256_digest(&bytes)
}

} // verus!
