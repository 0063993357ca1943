//! The two integrity primitives of the info block: CRC-32 and UUID comparison.
use vstd::prelude::*;

verus! {

/// The reflected form of the CRC-32 polynomial 0x04C11DB7.
pub open spec fn crc32_poly_reflected() -> u32 {
    0xEDB8_8320
}

/// One bit of the reflected CRC-32 shift register: shift right, and fold the polynomial
/// back in when a one falls out.
pub open spec fn crc32_step(c: u32) -> u32 {
    if c & 1 == 1 {
        (c >> 1) ^ crc32_poly_reflected()
    } else {
        c >> 1
    }
}

/// The register after taking in the byte `b`, low bit first.
pub open spec fn crc32_byte(c: u32, b: u8) -> u32 {
    crc32_step(crc32_step(crc32_step(crc32_step(crc32_step(crc32_step(crc32_step(crc32_step(
        c ^ (b as u32),
    ))))))))
}

/// The register after taking in `bytes`, starting from all ones.
pub open spec fn crc32_register(bytes: Seq<u8>) -> u32
    decreases bytes.len(),
{
    if bytes.len() == 0 {
        0xFFFF_FFFF
    } else {
        crc32_byte(crc32_register(bytes.drop_last()), bytes.last())
    }
}

/// The CRC-32/ISO-HDLC checksum of `bytes`: polynomial 0x04C11DB7, input and output
/// reflected, initial value and final XOR 0xFFFFFFFF.
pub open spec fn crc32_iso_hdlc(bytes: Seq<u8>) -> u32 {
    crc32_register(bytes) ^ 0xFFFF_FFFF
}

/// Calls `crc::Crc::<u32>::new(&crc::CRC_32_ISO_HDLC).checksum`. The `crc` crate computes
/// the algorithm that `crc_catalog` describes by these parameters (width 32, polynomial
/// 0x04C11DB7, initial value 0xFFFFFFFF, input and output reflected, final XOR 0xFFFFFFFF),
/// which is the bitwise register above run over the bytes in order; the contract claims
/// that the crate's table-driven code gives that value.
#[verifier::external_body]
pub(crate) fn crc32(bytes: &[u8]) -> (r: u32)
    ensures
        r == crc32_iso_hdlc(bytes@),
{
    crc::Crc::<u32>::new(&crc::CRC_32_ISO_HDLC).checksum(bytes)
}

proof fn lemma_step_injective(x: u32, y: u32)
    by (bit_vector)
    requires
        crc32_step(x) == crc32_step(y),
    ensures
        x == y,
{
}

proof fn lemma_xor_cancels(a: u32, b: u32, m: u32)
    by (bit_vector)
    requires
        a ^ m == b ^ m,
    ensures
        a == b,
{
}

/// Taking in a byte is one to one in the register for a fixed byte, and in the byte for
/// a fixed register.
pub proof fn lemma_byte_injective(c1: u32, b1: u8, c2: u32, b2: u8)
    requires
        crc32_byte(c1, b1) == crc32_byte(c2, b2),
        c1 == c2 || b1 == b2,
    ensures
        c1 == c2,
        b1 == b2,
{
    let x1 = c1 ^ (b1 as u32);
    let x2 = c2 ^ (b2 as u32);
    // Peel the eight steps off, outermost first.
    let p1 = crc32_step(crc32_step(crc32_step(crc32_step(crc32_step(crc32_step(crc32_step(x1)))))));
    let p2 = crc32_step(crc32_step(crc32_step(crc32_step(crc32_step(crc32_step(crc32_step(x2)))))));
    lemma_step_injective(p1, p2);
    let q1 = crc32_step(crc32_step(crc32_step(crc32_step(crc32_step(crc32_step(x1))))));
    let q2 = crc32_step(crc32_step(crc32_step(crc32_step(crc32_step(crc32_step(x2))))));
    lemma_step_injective(q1, q2);
    let r1 = crc32_step(crc32_step(crc32_step(crc32_step(crc32_step(x1)))));
    let r2 = crc32_step(crc32_step(crc32_step(crc32_step(crc32_step(x2)))));
    lemma_step_injective(r1, r2);
    let u1 = crc32_step(crc32_step(crc32_step(crc32_step(x1))));
    let u2 = crc32_step(crc32_step(crc32_step(crc32_step(x2))));
    lemma_step_injective(u1, u2);
    let v1 = crc32_step(crc32_step(crc32_step(x1)));
    let v2 = crc32_step(crc32_step(crc32_step(x2)));
    lemma_step_injective(v1, v2);
    let w1 = crc32_step(crc32_step(x1));
    let w2 = crc32_step(crc32_step(x2));
    lemma_step_injective(w1, w2);
    lemma_step_injective(crc32_step(x1), crc32_step(x2));
    lemma_step_injective(x1, x2);
    assert(x1 == x2);
    if c1 == c2 {
        assert(b1 == b2) by (bit_vector)
            requires
                c1 ^ (b1 as u32) == c2 ^ (b2 as u32),
                c1 == c2,
        ;
    } else {
        lemma_xor_cancels(c1, c2, b1 as u32);
    }
}

/// Changing one byte of the input changes the register.
pub proof fn lemma_register_detects_byte_change(s: Seq<u8>, i: int, x: u8)
    requires
        0 <= i < s.len(),
        x != s[i],
    ensures
        crc32_register(s.update(i, x)) != crc32_register(s),
    decreases s.len(),
{
    let t = s.update(i, x);
    let n = s.len() - 1;
    if i == n {
        assert(t.drop_last() =~= s.drop_last());
        if crc32_register(t) == crc32_register(s) {
            lemma_byte_injective(crc32_register(t.drop_last()), t.last(), crc32_register(s.drop_last()), s.last());
        }
    } else {
        assert(t.drop_last() =~= s.drop_last().update(i, x));
        lemma_register_detects_byte_change(s.drop_last(), i, x);
        if crc32_register(t) == crc32_register(s) {
            lemma_byte_injective(crc32_register(t.drop_last()), t.last(), crc32_register(s.drop_last()), s.last());
        }
    }
}

/// CRC-32 detects every single-byte change: two inputs that differ in one byte have
/// different checksums.
pub proof fn lemma_crc32_detects_byte_change(s: Seq<u8>, i: int, x: u8)
    requires
        0 <= i < s.len(),
        x != s[i],
    ensures
        crc32_iso_hdlc(s.update(i, x)) != crc32_iso_hdlc(s),
{
    lemma_register_detects_byte_change(s, i, x);
    if crc32_iso_hdlc(s.update(i, x)) == crc32_iso_hdlc(s) {
        lemma_xor_cancels(crc32_register(s.update(i, x)), crc32_register(s), 0xFFFF_FFFF);
    }
}

/// Compares `uuid::Uuid::from_bytes(bytes)` with `uuid::Uuid::nil()`. `Uuid` is a
/// transparent wrapper of its 16 bytes with a derived `PartialEq`, and the nil UUID is
/// the one whose bytes are all zero; so the result is whether every byte is zero.
#[verifier::external_body]
pub(crate) fn uuid_is_nil(bytes: [u8; 16]) -> (r: bool)
    ensures
        r == (forall|i: int| 0 <= i < 16 ==> bytes@[i] == 0),
{
    uuid::Uuid::from_bytes(bytes) == uuid::Uuid::nil()
}

/// Compares `uuid::Uuid::from_bytes(a)` with `uuid::Uuid::from_bytes(b)`; by the derived
/// `PartialEq` of `Uuid` over its bytes, the result is whether the bytes are equal.
#[verifier::external_body]
pub(crate) fn uuid_eq(a: [u8; 16], b: [u8; 16]) -> (r: bool)
    ensures
        r == (a@ == b@),
{
    uuid::Uuid::from_bytes(a) == uuid::Uuid::from_bytes(b)
}

} // verus!
