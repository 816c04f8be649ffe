use vstd::prelude::*;

verus! {

/// A 32-byte value: a block, transaction or topic hash.
pub type B256 = [u8; 32];

/// A 20-byte account address.
pub type Address = [u8; 20];

/// A 256-byte logs bloom filter.
pub type Bloom = [u8; 256];

/// An 8-byte proof-of-work nonce.
pub type BlockNonce = [u8; 8];

/// A 48-byte KZG commitment or proof.
pub type Bytes48 = [u8; 48];

/// A 256-bit unsigned integer as four 64-bit limbs, least significant first.
pub type U256Limbs = [u64; 4];

/// The number a four-limb 256-bit integer stands for.
pub open spec fn limbs_value(l: Seq<u64>) -> nat {
    l[0] as nat + l[1] as nat * 0x1_0000_0000_0000_0000 + l[2] as nat * 0x1_0000_0000_0000_0000
        * 0x1_0000_0000_0000_0000 + l[3] as nat * 0x1_0000_0000_0000_0000 * 0x1_0000_0000_0000_0000
        * 0x1_0000_0000_0000_0000
}

/// A point in time in whole seconds since 1970-01-01T00:00:00Z (a UTC date-time).
#[derive(Clone, Copy, Debug, PartialEq, Eq, Structural)]
pub struct BlockTime {
    pub secs: i64,
}

/// A calendar date as the number of days since 1970-01-01.
#[derive(Clone, Copy, Debug, PartialEq, Eq, Structural)]
pub struct BlockDate {
    pub days: i64,
}

/// The day on which a point in time falls (the date part of a UTC date-time).
pub open spec fn date_of(t: BlockTime) -> BlockDate {
    BlockDate { days: (t.secs / 86_400) as i64 }
}

/// Whether two 32-byte values are equal, byte by byte.
pub fn bytes32_eq(a: &B256, b: &B256) -> (r: bool)
    ensures
        r == (*a == *b),
{
    let mut i: usize = 0;
    while i < 32
        invariant
            i <= 32,
            forall|k: int| 0 <= k < i ==> a[k] == b[k],
        decreases 32 - i,
    {
        if a[i] != b[i] {
            return false;
        }
        i = i + 1;
    }
    assert(*a =~= *b);
    true
}

/// The date part of a point in time.
pub fn date_naive(t: BlockTime) -> (d: BlockDate)
    ensures
        d == date_of(t),
{
    let days = t.secs.checked_div_euclid(86_400).unwrap();
    BlockDate { days }
}

} // verus!
