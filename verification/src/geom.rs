use vstd::prelude::*;

verus! {

/// Bit pattern of the 64-bit IEEE-754 value one.
pub const ONE_BITS: u64 = 0x3FF0000000000000;

/// A point in space. Each component holds the bit pattern of a 64-bit
/// IEEE-754 value. The verified core carries these patterns around without
/// interpreting them; all numeric evaluation happens in the caller.
#[derive(Clone, Copy, PartialEq, Eq, Debug)]
pub struct Coord {
    pub x: u64,
    pub y: u64,
    pub z: u64,
}

impl Coord {
    pub fn new(x: u64, y: u64, z: u64) -> (r: Coord)
        ensures
            r == (Coord { x, y, z }),
    {
        Coord { x, y, z }
    }

    /// The origin: every component is the bit pattern of positive zero.
    pub fn zero() -> (r: Coord)
        ensures
            r == (Coord { x: 0u64, y: 0u64, z: 0u64 }),
    {
        Coord { x: 0, y: 0, z: 0 }
    }
}

/// A 4x4 matrix of 64-bit IEEE-754 bit patterns, stored row first:
/// entry `(r, c)` lives at `m[r * 4 + c]`. Quadrics are symmetric, so the
/// two triangles hold identical patterns.
#[derive(Clone, Copy, PartialEq, Eq, Debug)]
pub struct Quadric {
    pub m: [u64; 16],
}

impl Quadric {
    /// The zero quadric: every entry is the bit pattern of positive zero.
    pub fn zero() -> (r: Quadric)
        ensures
            forall|i: int| 0 <= i < 16 ==> r.m@[i] == 0u64,
    {
        Quadric { m: [0u64; 16] }
    }

    /// The matrix whose inverse yields the optimal contraction point: the
    /// upper triangle of this quadric mirrored into the first three rows,
    /// and `[0 0 0 1]` as the bottom row.
    pub fn optimisation_matrix(&self) -> (r: Quadric)
        ensures
            r.m@[0] == self.m@[0] && r.m@[1] == self.m@[1] && r.m@[2] == self.m@[2] && r.m@[3]
                == self.m@[3],
            r.m@[4] == self.m@[1] && r.m@[5] == self.m@[5] && r.m@[6] == self.m@[6] && r.m@[7]
                == self.m@[7],
            r.m@[8] == self.m@[2] && r.m@[9] == self.m@[6] && r.m@[10] == self.m@[10] && r.m@[11]
                == self.m@[11],
            r.m@[12] == 0u64 && r.m@[13] == 0u64 && r.m@[14] == 0u64,
            r.m@[15] == ONE_BITS,
    {
        Quadric {
            m: [
                self.m[0],
                self.m[1],
                self.m[2],
                self.m[3],
                self.m[1],
                self.m[5],
                self.m[6],
                self.m[7],
                self.m[2],
                self.m[6],
                self.m[10],
                self.m[11],
                0u64,
                0u64,
                0u64,
                ONE_BITS,
            ],
        }
    }
}

/// The heap key of a cost: the standard monotone map from the total order
/// on 64-bit IEEE-754 values to the order on unsigned integers. A pattern
/// with the sign bit clear maps above the half range in its own order; a
/// pattern with the sign bit set is complemented, which reverses the order
/// of the negative range and places it below.
pub open spec fn spec_order_key(bits: u64) -> u64 {
    if bits >= 0x8000000000000000 {
        !bits
    } else {
        bits | 0x8000000000000000
    }
}

/// Executable form of [`spec_order_key`].
pub fn order_key(bits: u64) -> (r: u64)
    ensures
        r == spec_order_key(bits),
{
    if bits >= 0x8000000000000000 {
        !bits
    } else {
        bits | 0x8000000000000000
    }
}

/// Bit pattern of the distance threshold for candidate pairs: edges
/// longer than this are never seeded.
pub const PAIR_DISTANCE_THRESHOLD_BITS: u64 = 0x4024000000000000;

/// Whether a distance, given as a bit pattern, is within the candidate
/// threshold. The comparison runs over the order key, which is monotone
/// in the value over the patterns a distance takes (non-negative or
/// invalid); an invalid distance lands above the threshold and the edge
/// is not seeded.
pub fn within_pair_threshold(dist_bits: u64) -> (r: bool)
    ensures
        r == (spec_order_key(dist_bits) <= spec_order_key(PAIR_DISTANCE_THRESHOLD_BITS)),
{
    order_key(dist_bits) <= order_key(PAIR_DISTANCE_THRESHOLD_BITS)
}

/// Two costs with the same heap key are the same bit pattern: ordering by
/// keys loses nothing.
pub proof fn lemma_order_key_injective(a: u64, b: u64)
    ensures
        spec_order_key(a) == spec_order_key(b) ==> a == b,
{
    assert((if a >= 0x8000000000000000 {
        !a
    } else {
        a | 0x8000000000000000
    }) == (if b >= 0x8000000000000000 {
        !b
    } else {
        b | 0x8000000000000000
    }) ==> a == b) by (bit_vector);
}

} // verus!
