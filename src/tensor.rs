use vstd::prelude::*;

verus! {

/// Width and height of the square image the network consumes and produces.
pub const SIDE: usize = 512;

/// Number of color channels in a tensor.
pub const CHANNELS: usize = 3;

/// Number of values in one channel plane.
pub const PLANE: usize = SIDE * SIDE;

/// Number of values in a tensor (the batch dimension of size one left out).
pub const TENSOR_LEN: usize = CHANNELS * PLANE;

/// Fixed-point units that stand for the real value 1.0.
///
/// Chosen as 255 * 128, so that a byte `v` normalizes to exactly
/// `(2v - 255) * 128` units and a value of `q` units denormalizes to
/// `(q + FIXED_ONE) / 256`.
pub const FIXED_ONE: i32 = 32640;

/// The byte `v` mapped to `(v / 255) * 2 - 1`, in fixed-point units.
pub open spec fn normalized(v: u8) -> i32 {
    ((2 * v - 255) * 128) as i32
}

/// `round((t + 1) * 127.5)` clamped to a byte, where `t` is `q / FIXED_ONE`.
///
/// `(t + 1) * 127.5` is `(q + FIXED_ONE) / 256`; halves round upward, and every
/// value below zero clamps to zero, so rounding toward negative infinity after
/// adding one half agrees with rounding half away from zero.
pub open spec fn denormalized(q: i32) -> u8 {
    let s = (q + FIXED_ONE + 128) / 256;
    if s < 0 {
        0
    } else if s > 255 {
        255
    } else {
        s as u8
    }
}

/// A tensor value lies in the closed interval [-1, 1].
pub open spec fn in_unit_range(q: i32) -> bool {
    -FIXED_ONE <= q <= FIXED_ONE
}

/// Maps a byte of an image to its tensor value.
pub fn normalize(v: u8) -> (q: i32)
    ensures
        q == normalized(v),
        in_unit_range(q),
{
    (2 * (v as i32) - 255) * 128
}

/// Maps a tensor value to a byte of an image.
pub fn denormalize(q: i32) -> (v: u8)
    ensures
        v == denormalized(q),
{
    let s: i64 = (q as i64 + FIXED_ONE as i64 + 128) / 256;
    if s < 0 {
        0
    } else if s > 255 {
        255
    } else {
        s as u8
    }
}

/// Denormalization undoes normalization: every byte comes back unchanged.
pub proof fn lemma_denormalize_normalize(v: u8)
    ensures
        denormalized(normalized(v)) == v,
{
    let q = normalized(v);
    assert(q + FIXED_ONE + 128 == 256 * v + 128);
    vstd::arithmetic::div_mod::lemma_fundamental_div_mod_converse(
        q + FIXED_ONE + 128,
        256,
        v as int,
        128,
    );
}

} // verus!
