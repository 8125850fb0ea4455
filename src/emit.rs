use vstd::prelude::*;
use crate::tensor::{
    denormalize, denormalized, lemma_denormalize_normalize, normalized, CHANNELS, PLANE,
    TENSOR_LEN,
};
use crate::ingest::planar;

verus! {

/// The 512x512 RGB raster for an output tensor: tensor channel 0 becomes
/// blue, channel 1 green and channel 2 red, each value denormalized.
pub open spec fn emitted(t: Seq<i32>) -> Seq<u8> {
    Seq::new(
        (PLANE * CHANNELS) as nat,
        |j: int| denormalized(t[(2 - j % 3) * PLANE as int + j / 3]),
    )
}

/// An interleaved RGB raster with the first and third byte of each pixel
/// swapped.
pub open spec fn swapped_red_blue(rgb: Seq<u8>) -> Seq<u8> {
    Seq::new(rgb.len(), |j: int| rgb[3 * (j / 3) + 2 - j % 3])
}

/// Turns the network's output tensor into an interleaved 512x512 RGB raster.
pub fn emit(t: &[i32]) -> (rgb: Vec<u8>)
    requires
        t@.len() == TENSOR_LEN,
    ensures
        rgb@ == emitted(t@),
{
    let mut rgb: Vec<u8> = Vec::new();
    let mut p: usize = 0;
    while p < PLANE
        invariant
            t@.len() == TENSOR_LEN,
            p <= PLANE,
            rgb@.len() == 3 * p,
            forall|j: int| 0 <= j < 3 * p ==> #[trigger] rgb@[j] == emitted(t@)[j],
        decreases PLANE - p,
    {
        rgb.push(denormalize(t[2 * PLANE + p]));
        rgb.push(denormalize(t[PLANE + p]));
        rgb.push(denormalize(t[p]));
        proof {
            assert forall|j: int| 3 * p <= j < 3 * p + 3 implies
                #[trigger] rgb@[j] == emitted(t@)[j] by {
                vstd::arithmetic::div_mod::lemma_fundamental_div_mod_converse(
                    j, 3, p as int, j - 3 * p);
            }
        }
        p += 1;
    }
    assert(rgb@ =~= emitted(t@));
    rgb
}

/// Emitting the tensor that a 512x512 raster was laid out and normalized into
/// gives the raster back, every byte exact, with red and blue trading places.
pub proof fn lemma_emit_planar(rgb: Seq<u8>)
    requires
        rgb.len() == PLANE * CHANNELS,
    ensures
        emitted(planar(rgb)) == swapped_red_blue(rgb),
{
    let t = planar(rgb);
    assert forall|j: int| 0 <= j < rgb.len() implies
        #[trigger] emitted(t)[j] == swapped_red_blue(rgb)[j] by {
        let k = j % 3;
        let p = j / 3;
        let i = (2 - k) * PLANE as int + p;
        vstd::arithmetic::div_mod::lemma_fundamental_div_mod(j, 3);
        assert(0 <= p < PLANE);
        vstd::arithmetic::div_mod::lemma_fundamental_div_mod_converse(i, PLANE as int, 2 - k, p);
        assert(t[i] == normalized(rgb[3 * p + 2 - k]));
        lemma_denormalize_normalize(rgb[3 * p + 2 - k]);
    }
    assert(emitted(t) =~= swapped_red_blue(rgb));
}

} // verus!
