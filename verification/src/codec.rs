use vstd::prelude::*;

use crate::cell::{CellState, InputState, Rule, RuleState};

verus! {

/// Number of distinct encoded neighborhoods, and so the size of a rule table.
pub const TABLE_SIZE: usize = 512;

/// The index formed by nine ordered cells: cell `k` contributes bit `k`,
/// with bit 0 the upper-left neighbor and bit 8 the lower-right one.
pub open spec fn spec_encode9(
    s0: CellState,
    s1: CellState,
    s2: CellState,
    s3: CellState,
    s4: CellState,
    s5: CellState,
    s6: CellState,
    s7: CellState,
    s8: CellState,
) -> u32 {
    s0.spec_bit() | (s1.spec_bit() << 1) | (s2.spec_bit() << 2) | (s3.spec_bit() << 3) | (
    s4.spec_bit() << 4) | (s5.spec_bit() << 5) | (s6.spec_bit() << 6) | (s7.spec_bit() << 7) | (
    s8.spec_bit() << 8)
}

/// The index of a whole neighborhood value.
pub open spec fn spec_encode(x: InputState) -> u32 {
    spec_encode9(x.0[0], x.0[1], x.0[2], x.0[3], x.0[4], x.0[5], x.0[6], x.0[7], x.0[8])
}

/// The cell that bit `k` of an index stands for.
pub open spec fn spec_bit_cell(v: u32, k: u32) -> CellState {
    if (v >> k) & 1 == 1 {
        CellState::On
    } else {
        CellState::Off
    }
}

/// The neighborhood that an index decodes to; only the low nine bits matter.
pub open spec fn spec_decode(v: u32) -> InputState {
    InputState(
        [
            spec_bit_cell(v, 0),
            spec_bit_cell(v, 1),
            spec_bit_cell(v, 2),
            spec_bit_cell(v, 3),
            spec_bit_cell(v, 4),
            spec_bit_cell(v, 5),
            spec_bit_cell(v, 6),
            spec_bit_cell(v, 7),
            spec_bit_cell(v, 8),
        ],
    )
}

/// Encode a neighborhood into its index. The domain is total and the result
/// always lies below `TABLE_SIZE`.
pub fn encode(x: &InputState) -> (r: RuleState)
    ensures
        r.0 == spec_encode(*x),
        r.0 < 512,
{
    let b0 = x.0[0].bit();
    let b1 = x.0[1].bit();
    let b2 = x.0[2].bit();
    let b3 = x.0[3].bit();
    let b4 = x.0[4].bit();
    let b5 = x.0[5].bit();
    let b6 = x.0[6].bit();
    let b7 = x.0[7].bit();
    let b8 = x.0[8].bit();
    let v = b0 | (b1 << 1) | (b2 << 2) | (b3 << 3) | (b4 << 4) | (b5 << 5) | (b6 << 6) | (b7 << 7)
        | (b8 << 8);
    assert(v < 512) by (bit_vector)
        requires
            b0 <= 1 && b1 <= 1 && b2 <= 1 && b3 <= 1 && b4 <= 1 && b5 <= 1 && b6 <= 1 && b7 <= 1
                && b8 <= 1,
            v == b0 | (b1 << 1) | (b2 << 2) | (b3 << 3) | (b4 << 4) | (b5 << 5) | (b6 << 6) | (b7
                << 7) | (b8 << 8),
    ;
    RuleState(v)
}

/// Read one bit of an index back as a cell.
fn bit_cell(v: u32, k: u32) -> (r: CellState)
    requires
        k < 32,
    ensures
        r == spec_bit_cell(v, k),
{
    if (v >> k) & 1 == 1 {
        CellState::On
    } else {
        CellState::Off
    }
}

/// Decode an index back into the neighborhood it encodes; the exact inverse
/// of `encode` on the low nine bits.
pub fn decode(v: RuleState) -> (r: InputState)
    ensures
        r == spec_decode(v.0),
{
    InputState(
        [
            bit_cell(v.0, 0),
            bit_cell(v.0, 1),
            bit_cell(v.0, 2),
            bit_cell(v.0, 3),
            bit_cell(v.0, 4),
            bit_cell(v.0, 5),
            bit_cell(v.0, 6),
            bit_cell(v.0, 7),
            bit_cell(v.0, 8),
        ],
    )
}

impl Rule {
    /// Unpack a ten-bit rule word: the low nine bits name the neighborhood,
    /// bit nine the output cell.
    pub fn from_bits(bits: u32) -> (r: Rule)
        ensures
            r.input == spec_decode(bits),
            r.output == spec_bit_cell(bits, 9),
    {
        Rule { input: decode(RuleState(bits)), output: bit_cell(bits, 9) }
    }
}

/// The index formed by a three-cell row neighborhood: bit 0 the left
/// neighbor, bit 1 the center, bit 2 the right neighbor.
pub open spec fn spec_encode3(l: CellState, c: CellState, r: CellState) -> u32 {
    l.spec_bit() | (c.spec_bit() << 1) | (r.spec_bit() << 2)
}

/// Encode a three-cell row neighborhood into its index.
pub fn encode3(l: CellState, c: CellState, r: CellState) -> (v: u32)
    ensures
        v == spec_encode3(l, c, r),
        v < 8,
{
    let b0 = l.bit();
    let b1 = c.bit();
    let b2 = r.bit();
    let v = b0 | (b1 << 1) | (b2 << 2);
    assert(v < 8) by (bit_vector)
        requires
            b0 <= 1 && b1 <= 1 && b2 <= 1,
            v == b0 | (b1 << 1) | (b2 << 2),
    ;
    v
}

/// Decoding an encoded neighborhood gives the neighborhood back, for every
/// one of the 512 possible neighborhoods.
pub proof fn lemma_codec_round_trip(x: InputState)
    ensures
        spec_decode(spec_encode(x)) == x,
{
    let b0 = x.0[0].spec_bit();
    let b1 = x.0[1].spec_bit();
    let b2 = x.0[2].spec_bit();
    let b3 = x.0[3].spec_bit();
    let b4 = x.0[4].spec_bit();
    let b5 = x.0[5].spec_bit();
    let b6 = x.0[6].spec_bit();
    let b7 = x.0[7].spec_bit();
    let b8 = x.0[8].spec_bit();
    let v = spec_encode(x);
    assert((v >> 0) & 1 == b0 && (v >> 1) & 1 == b1 && (v >> 2) & 1 == b2 && (v >> 3) & 1 == b3 && (
    v >> 4) & 1 == b4 && (v >> 5) & 1 == b5 && (v >> 6) & 1 == b6 && (v >> 7) & 1 == b7 && (v >> 8)
        & 1 == b8) by (bit_vector)
        requires
            b0 <= 1 && b1 <= 1 && b2 <= 1 && b3 <= 1 && b4 <= 1 && b5 <= 1 && b6 <= 1 && b7 <= 1
                && b8 <= 1,
            v == b0 | (b1 << 1) | (b2 << 2) | (b3 << 3) | (b4 << 4) | (b5 << 5) | (b6 << 6) | (b7
                << 7) | (b8 << 8),
    ;
    assert(spec_decode(v).0 =~= x.0);
}

/// Encoding a decoded index gives the index back, for every index below
/// `TABLE_SIZE`.
pub proof fn lemma_codec_round_trip_index(v: u32)
    requires
        v < 512,
    ensures
        spec_encode(spec_decode(v)) == v,
{
    let b0 = (v >> 0) & 1;
    let b1 = (v >> 1) & 1;
    let b2 = (v >> 2) & 1;
    let b3 = (v >> 3) & 1;
    let b4 = (v >> 4) & 1;
    let b5 = (v >> 5) & 1;
    let b6 = (v >> 6) & 1;
    let b7 = (v >> 7) & 1;
    let b8 = (v >> 8) & 1;
    assert(b0 <= 1 && b1 <= 1 && b2 <= 1 && b3 <= 1 && b4 <= 1 && b5 <= 1 && b6 <= 1 && b7 <= 1
        && b8 <= 1 && v == b0 | (b1 << 1) | (b2 << 2) | (b3 << 3) | (b4 << 4) | (b5 << 5) | (b6
        << 6) | (b7 << 7) | (b8 << 8)) by (bit_vector)
        requires
            v < 512,
            b0 == (v >> 0) & 1 && b1 == (v >> 1) & 1 && b2 == (v >> 2) & 1 && b3 == (v >> 3) & 1
                && b4 == (v >> 4) & 1 && b5 == (v >> 5) & 1 && b6 == (v >> 6) & 1 && b7 == (v >> 7)
                & 1 && b8 == (v >> 8) & 1,
    ;
}

} // verus!
