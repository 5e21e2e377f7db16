use vstd::prelude::*;
use blake2::digest::Digest;

verus! {

/// The 256-bit digest of a byte string: 32 bytes, a function of the input
/// bytes alone. The digest itself is computed by an outside crate; nothing
/// is assumed of its value beyond its length.
pub uninterp spec fn blake2b256_of(input: Seq<u8>) -> Seq<u8>;

/// The 16-bit identifier derived from a name: the first two bytes of the
/// 256-bit digest of the name's UTF-8 encoding, most significant byte first.
pub open spec fn id16_of(name: Seq<char>) -> u16 {
    let d = blake2b256_of(vstd::utf8::encode_utf8(name));
    (d[0] * 0x100 + d[1]) as u16
}

/// The 32-bit dispatch key derived from a name: the first four bytes of the
/// 256-bit digest of the name's UTF-8 encoding, most significant byte first.
pub open spec fn id32_of(name: Seq<char>) -> u32 {
    let d = blake2b256_of(vstd::utf8::encode_utf8(name));
    (d[0] * 0x100_0000 + d[1] * 0x1_0000 + d[2] * 0x100 + d[3]) as u32
}

/// Relies on blake2::Blake2b256 (Blake2b with a 32-byte output size): fills
/// `output` with the 256-bit digest of `input`, a deterministic function of
/// `input` alone.
#[verifier::external_body]
pub fn blake2b_256(input: &[u8], output: &mut [u8; 32])
    ensures
        final(output)@ == blake2b256_of(input@),
        final(output)@.len() == 32,
{
    let mut hasher = blake2::Blake2b256::new();
    hasher.update(input);
    output.copy_from_slice(hasher.finalize().as_slice());
}

/// Derives a name's 16-bit identifier from the leading digest bytes.
pub fn into_u16(name: &str) -> (r: u16)
    ensures
        r == id16_of(name@),
{
    let mut output: [u8; 32] = [0u8; 32];
    blake2b_256(name.as_bytes(), &mut output);
    let d = output.as_slice();
    (d[0] as u16) * 0x100 + (d[1] as u16)
}

/// Derives a name's 32-bit dispatch key from the leading digest bytes.
pub fn into_u32(name: &str) -> (r: u32)
    ensures
        r == id32_of(name@),
{
    let mut output: [u8; 32] = [0u8; 32];
    blake2b_256(name.as_bytes(), &mut output);
    let d = output.as_slice();
    (d[0] as u32) * 0x100_0000 + (d[1] as u32) * 0x1_0000 + (d[2] as u32) * 0x100 + (d[3] as u32)
}

/// Copies a vector of strings.
pub fn clone_strings(v: &Vec<String>) -> (r: Vec<String>)
    ensures
        r@ == v@,
{
    let mut r: Vec<String> = Vec::new();
    let n = v.len();
    let mut k: usize = 0;
    while k < n
        invariant
            k <= n == v@.len(),
            r@.len() == k,
            forall|i: int| 0 <= i < k ==> r@[i] == v@[i],
        decreases n - k,
    {
        r.push(v[k].clone());
        k += 1;
    }
    proof {
        assert(r@ =~= v@);
    }
    r
}

/// The 32-bit wire address of one operation of one interface: the interface
/// identifier in the high half, the operation identifier in the low half.
pub open spec fn spec_wire_address(ext: u16, method: u16) -> u32 {
    ((ext as u32) << 16) | (method as u32)
}

/// Combines an interface identifier and an operation identifier into the
/// call's wire address.
pub fn wire_address(ext: u16, method: u16) -> (r: u32)
    ensures
        r == spec_wire_address(ext, method),
{
    ((ext as u32) << 16) | (method as u32)
}

/// A wire address splits back into exactly the pair it was built from: the
/// high sixteen bits are the interface identifier and the low sixteen bits
/// are the operation identifier.
pub proof fn lemma_wire_address_round_trip(ext: u16, method: u16)
    ensures
        spec_wire_address(ext, method) >> 16 == ext as u32,
        spec_wire_address(ext, method) & 0xffff == method as u32,
{
    assert((((ext as u32) << 16) | (method as u32)) >> 16 == ext as u32) by (bit_vector);
    assert((((ext as u32) << 16) | (method as u32)) & 0xffff == method as u32) by (bit_vector);
}

/// Deriving an identifier is a pure function of the name: equal names give
/// equal 16-bit identifiers and equal 32-bit dispatch keys, on every call.
pub proof fn lemma_id_derivation_deterministic(n1: Seq<char>, n2: Seq<char>)
    requires
        n1 == n2,
    ensures
        id16_of(n1) == id16_of(n2),
        id32_of(n1) == id32_of(n2),
{
}

} // verus!
