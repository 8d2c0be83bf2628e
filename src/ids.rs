//! Stable identifiers for the objects of a project file.
//!
//! A token is a pure function of the package's seed, a namespace and a name,
//! so regenerating a project gives every object the token it had before.
use vstd::prelude::*;
use vstd::bytes::{spec_u64_to_le_bytes, u64_to_le_bytes};
use vstd::utf8::encode_utf8;
use crate::text::{
    hex_padded, hex_string, lemma_hex_padded_injective, lemma_hex_padded_len, pow16,
};

verus! {

/// The CRC-64/ECMA-182 checksum of a byte sequence.
pub uninterp spec fn crc64_ecma_182(bytes: Seq<u8>) -> u64;

/// Relies on `crc::Crc::<u64>::checksum` with the `CRC_64_ECMA_182`
/// algorithm: the checksum depends on the bytes alone.
#[verifier::external_body]
fn crc64_checksum(bytes: &[u8]) -> (r: u64)
    ensures
        r == crc64_ecma_182(bytes@),
{
    crc::Crc::<u64>::new(&crc::CRC_64_ECMA_182).checksum(bytes)
}

/// The seed of a package: the checksum of its unique identity string.
pub open spec fn seed_of(identity: Seq<char>) -> u64 {
    crc64_ecma_182(encode_utf8(identity))
}

/// The token of `name` in `namespace` under `seed`: a fixed prefix, eight
/// digits from the seed and namespace, then the first twelve digits of the
/// name's checksum padded to twelve.
pub open spec fn token_for(seed: u64, namespace: Seq<char>, name: Seq<char>) -> Seq<char> {
    let ns = crc64_ecma_182(spec_u64_to_le_bytes(seed) + encode_utf8(namespace));
    let nm = crc64_ecma_182(encode_utf8(name));
    "CA60"@ + hex_padded((ns % 0x1_0000_0000) as nat, 8) + hex_padded(nm as nat, 12).take(12)
}

/// Two names get the same token only where their checksums collide: the
/// namespace checksums agree in their low 32 bits, and the name checksums
/// agree in their leading twelve digits (in full where both fit in twelve).
/// Distinct objects can share a token by such a collision only.
pub proof fn lemma_equal_tokens_need_colliding_checksums(
    seed: u64,
    namespace1: Seq<char>,
    name1: Seq<char>,
    namespace2: Seq<char>,
    name2: Seq<char>,
)
    requires
        token_for(seed, namespace1, name1) == token_for(seed, namespace2, name2),
    ensures
        crc64_ecma_182(spec_u64_to_le_bytes(seed) + encode_utf8(namespace1)) % 0x1_0000_0000
            == crc64_ecma_182(spec_u64_to_le_bytes(seed) + encode_utf8(namespace2))
            % 0x1_0000_0000,
        hex_padded(crc64_ecma_182(encode_utf8(name1)) as nat, 12).take(12) == hex_padded(
            crc64_ecma_182(encode_utf8(name2)) as nat,
            12,
        ).take(12),
        crc64_ecma_182(encode_utf8(name1)) < pow16(12) && crc64_ecma_182(encode_utf8(name2))
            < pow16(12) ==> crc64_ecma_182(encode_utf8(name1)) == crc64_ecma_182(
            encode_utf8(name2),
        ),
{
    let ns1 = (crc64_ecma_182(spec_u64_to_le_bytes(seed) + encode_utf8(namespace1))
        % 0x1_0000_0000) as nat;
    let ns2 = (crc64_ecma_182(spec_u64_to_le_bytes(seed) + encode_utf8(namespace2))
        % 0x1_0000_0000) as nat;
    let nm1 = crc64_ecma_182(encode_utf8(name1)) as nat;
    let nm2 = crc64_ecma_182(encode_utf8(name2)) as nat;
    reveal_strlit("CA60");
    reveal_with_fuel(pow16, 13);
    lemma_hex_padded_len(ns1, 8);
    lemma_hex_padded_len(ns2, 8);
    lemma_hex_padded_len(nm1, 12);
    lemma_hex_padded_len(nm2, 12);
    let t = token_for(seed, namespace1, name1);
    let a1 = hex_padded(ns1, 8);
    let a2 = hex_padded(ns2, 8);
    let b1 = hex_padded(nm1, 12).take(12);
    let b2 = hex_padded(nm2, 12).take(12);
    assert(t == "CA60"@ + a1 + b1);
    assert(t == "CA60"@ + a2 + b2);
    assert(a1 =~= t.subrange(4, 12));
    assert(a2 =~= t.subrange(4, 12));
    assert(b1 =~= t.subrange(12, 24));
    assert(b2 =~= t.subrange(12, 24));
    lemma_hex_padded_injective(ns1, ns2, 8);
    if nm1 < pow16(12) && nm2 < pow16(12) {
        assert(hex_padded(nm1, 12).take(12) =~= hex_padded(nm1, 12));
        assert(hex_padded(nm2, 12).take(12) =~= hex_padded(nm2, 12));
        lemma_hex_padded_injective(nm1, nm2, 12);
    }
}

/// Allocates tokens for one package.
pub struct IdAllocator {
    pub seed: u64,
}

impl IdAllocator {
    /// The allocator of the package whose unique identity is `identity`.
    pub fn new(identity: &str) -> (r: IdAllocator)
        ensures
            r.seed == seed_of(identity@),
    {
        IdAllocator { seed: crc64_checksum(identity.as_bytes()) }
    }

    /// The token of `name` in `namespace`: 24 characters, a function of the
    /// seed, the namespace and the name alone.
    pub fn make_id(&self, namespace: &str, name: &str) -> (r: String)
        ensures
            r@ == token_for(self.seed, namespace@, name@),
            r@.len() == 24,
    {
        let mut bytes = u64_to_le_bytes(self.seed);
        let mut ns_bytes = namespace.as_bytes_vec();
        bytes.append(&mut ns_bytes);
        let ns = crc64_checksum(bytes.as_slice());
        let nm = crc64_checksum(name.as_bytes());
        let mut r = String::from_str("CA60");
        let ns_hex = hex_string(ns % 0x1_0000_0000, 8);
        r.append(ns_hex.as_str());
        let nm_hex = hex_string(nm, 12);
        proof {
            lemma_hex_padded_len(nm as nat, 12);
            lemma_hex_padded_len((ns % 0x1_0000_0000) as nat, 8);
            reveal_strlit("CA60");
            reveal_with_fuel(pow16, 9);
        }
        r.append(nm_hex.as_str().substring_char(0, 12));
        r
    }
}

} // verus!
