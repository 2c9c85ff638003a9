//! Keys as byte arrays, their comparison, and little-endian encoding.

use vstd::prelude::*;

verus! {

/// The 32-byte form of a public key.
pub type Key = [u8; 32];

/// The key made of 32 zero bytes (the default key; also the system program).
pub open spec fn zero_key() -> Seq<u8> {
    Seq::new(32, |i: int| 0u8)
}

/// The eight little-endian bytes of `x`.
pub open spec fn le_bytes(x: u64) -> Seq<u8> {
    seq![
        (x % 0x100) as u8,
        ((x / 0x100) % 0x100) as u8,
        ((x / 0x1_0000) % 0x100) as u8,
        ((x / 0x100_0000) % 0x100) as u8,
        ((x / 0x1_0000_0000) % 0x100) as u8,
        ((x / 0x100_0000_0000) % 0x100) as u8,
        ((x / 0x1_0000_0000_0000) % 0x100) as u8,
        ((x / 0x100_0000_0000_0000) % 0x100) as u8,
    ]
}

/// Compares two keys byte by byte.
pub fn keys_equal(a: &Key, b: &Key) -> (r: bool)
    ensures
        r == (a@ == b@),
{
    let mut i: usize = 0;
    while i < 32
        invariant
            0 <= i <= 32,
            forall|j: int| 0 <= j < i ==> a@[j] == b@[j],
        decreases 32 - i,
    {
        if a[i] != b[i] {
            assert(a@[i as int] != b@[i as int]);
            return false;
        }
        i = i + 1;
    }
    assert(a@ =~= b@);
    true
}

/// Whether `k` is the all-zero default key.
pub fn is_zero_key(k: &Key) -> (r: bool)
    ensures
        r == (k@ == zero_key()),
{
    let mut i: usize = 0;
    while i < 32
        invariant
            0 <= i <= 32,
            forall|j: int| 0 <= j < i ==> k@[j] == 0u8,
        decreases 32 - i,
    {
        if k[i] != 0 {
            assert(k@[i as int] != zero_key()[i as int]);
            return false;
        }
        i = i + 1;
    }
    assert(k@ =~= zero_key());
    true
}

/// The bytes of a key as a vector.
pub fn key_to_vec(k: &Key) -> (r: Vec<u8>)
    ensures
        r@ == k@,
{
    vstd::slice::slice_to_vec(k.as_slice())
}

/// The little-endian encoding of `x`, as `u64::to_le_bytes` gives it.
pub fn u64_le_bytes(x: u64) -> (r: Vec<u8>)
    ensures
        r@ == le_bytes(x),
{
    let r: Vec<u8> = vec![
        (x % 0x100) as u8,
        ((x / 0x100) % 0x100) as u8,
        ((x / 0x1_0000) % 0x100) as u8,
        ((x / 0x100_0000) % 0x100) as u8,
        ((x / 0x1_0000_0000) % 0x100) as u8,
        ((x / 0x100_0000_0000) % 0x100) as u8,
        ((x / 0x1_0000_0000_0000) % 0x100) as u8,
        ((x / 0x100_0000_0000_0000) % 0x100) as u8,
    ];
    assert(r@ =~= le_bytes(x));
    r
}

} // verus!

verus! {

/// Different numbers have different little-endian encodings.
pub proof fn le_bytes_injective(a: u64, b: u64)
    requires
        le_bytes(a) == le_bytes(b),
    ensures
        a == b,
{
    assert(le_bytes(a)[0] == le_bytes(b)[0]);
    assert(le_bytes(a)[1] == le_bytes(b)[1]);
    assert(le_bytes(a)[2] == le_bytes(b)[2]);
    assert(le_bytes(a)[3] == le_bytes(b)[3]);
    assert(le_bytes(a)[4] == le_bytes(b)[4]);
    assert(le_bytes(a)[5] == le_bytes(b)[5]);
    assert(le_bytes(a)[6] == le_bytes(b)[6]);
    assert(le_bytes(a)[7] == le_bytes(b)[7]);
    let c1: u64 = 0x100;
    let c2: u64 = 0x1_0000;
    let c3: u64 = 0x100_0000;
    let c4: u64 = 0x1_0000_0000;
    let c5: u64 = 0x100_0000_0000;
    let c6: u64 = 0x1_0000_0000_0000;
    let c7: u64 = 0x100_0000_0000_0000;
    assert(a % c1 == b % c1);
    assert((a / c1) % c1 == (b / c1) % c1);
    assert((a / c2) % c1 == (b / c2) % c1);
    assert((a / c3) % c1 == (b / c3) % c1);
    assert((a / c4) % c1 == (b / c4) % c1);
    assert((a / c5) % c1 == (b / c5) % c1);
    assert((a / c6) % c1 == (b / c6) % c1);
    assert((a / c7) % c1 == (b / c7) % c1);
    assert(a == b) by (bit_vector)
        requires
            c1 == 0x100u64,
            c2 == 0x1_0000u64,
            c3 == 0x100_0000u64,
            c4 == 0x1_0000_0000u64,
            c5 == 0x100_0000_0000u64,
            c6 == 0x1_0000_0000_0000u64,
            c7 == 0x100_0000_0000_0000u64,
            a % c1 == b % c1,
            (a / c1) % c1 == (b / c1) % c1,
            (a / c2) % c1 == (b / c2) % c1,
            (a / c3) % c1 == (b / c3) % c1,
            (a / c4) % c1 == (b / c4) % c1,
            (a / c5) % c1 == (b / c5) % c1,
            (a / c6) % c1 == (b / c6) % c1,
            (a / c7) % c1 == (b / c7) % c1,
    ;
}

} // verus!
