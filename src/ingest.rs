use vstd::prelude::*;
use crate::tensor::{normalize, normalized, in_unit_range, CHANNELS, PLANE, SIDE, TENSOR_LEN};

verus! {

/// Why a pixel buffer was refused.
#[derive(Debug, Clone, Copy, PartialEq, Eq, Structural)]
pub enum PreconditionError {
    /// The width or the height is zero.
    EmptyDimension,
    /// The buffer does not hold exactly four bytes for each pixel.
    LengthMismatch,
}

/// A buffer of `width * height` pixels, four bytes each.
pub open spec fn buffer_fits(buffer: Seq<u8>, width: u32, height: u32) -> bool {
    buffer.len() == width * height * 4
}

/// The three color bytes of each four-byte pixel, in reverse of their stored
/// order: byte 2 first, then byte 1, then byte 0; byte 3 is dropped.
pub open spec fn unpacked(buffer: Seq<u8>) -> Seq<u8> {
    Seq::new(
        (buffer.len() / 4 * 3) as nat,
        |j: int| buffer[4 * (j / 3) + 2 - j % 3],
    )
}

/// Interleaved rows of 512 RGB pixels re-laid as three planes, channel by
/// channel, each byte normalized.
pub open spec fn planar(rgb: Seq<u8>) -> Seq<i32> {
    Seq::new(TENSOR_LEN as nat, |j: int| normalized(rgb[3 * (j % PLANE as int) + j / PLANE as int]))
}

/// What the image crate's Catmull-Rom resize makes of an RGB raster of the
/// given size when asked for 512x512.
pub uninterp spec fn catmull_rom_resized(rgb: Seq<u8>, width: u32, height: u32) -> Seq<u8>;

/// Relies on `image::imageops::resize` with `FilterType::CatmullRom`: the
/// result has exactly the requested dimensions, and a raster that has them
/// already is copied unchanged.
#[verifier::external_body]
fn resize_to_side(rgb: Vec<u8>, width: u32, height: u32) -> (r: Vec<u8>)
    requires
        width > 0,
        height > 0,
        rgb@.len() == width * height * 3,
    ensures
        r@ == catmull_rom_resized(rgb@, width, height),
        r@.len() == SIDE * SIDE * 3,
        width == SIDE && height == SIDE ==> r@ == rgb@,
{
    let image: image::RgbImage = image::ImageBuffer::from_raw(width, height, rgb).unwrap();
    image::imageops::resize(&image, 512, 512, image::imageops::FilterType::CatmullRom).into_raw()
}

/// Selects bytes 2, 1 and 0 of each four-byte pixel.
pub fn unpack_bgra(buffer: &[u8]) -> (rgb: Vec<u8>)
    ensures
        rgb@ == unpacked(buffer@),
{
    let n: usize = buffer.len() / 4;
    let mut rgb: Vec<u8> = Vec::new();
    let mut i: usize = 0;
    proof {
        vstd::arithmetic::div_mod::lemma_fundamental_div_mod(buffer@.len() as int, 4);
    }
    while i < n
        invariant
            n == buffer@.len() / 4,
            4 * n <= buffer@.len(),
            buffer@.len() <= usize::MAX,
            i <= n,
            rgb@.len() == 3 * i,
            forall|j: int| 0 <= j < 3 * i ==> #[trigger] rgb@[j] == buffer@[4 * (j / 3) + 2 - j % 3],
        decreases n - i,
    {
        rgb.push(buffer[4 * i + 2]);
        rgb.push(buffer[4 * i + 1]);
        rgb.push(buffer[4 * i]);
        proof {
            assert forall|j: int| 3 * i <= j < 3 * i + 3 implies
                #[trigger] rgb@[j] == buffer@[4 * (j / 3) + 2 - j % 3] by {
                vstd::arithmetic::div_mod::lemma_fundamental_div_mod_converse(
                    j, 3, i as int, j - 3 * i);
            }
        }
        i += 1;
    }
    assert(rgb@ =~= unpacked(buffer@));
    rgb
}

/// Re-lays a 512x512 interleaved RGB raster as three normalized planes.
pub fn to_planar(rgb: &[u8]) -> (t: Vec<i32>)
    requires
        rgb@.len() == PLANE * CHANNELS,
    ensures
        t@ == planar(rgb@),
{
    let mut t: Vec<i32> = Vec::new();
    let mut c: usize = 0;
    while c < CHANNELS
        invariant
            rgb@.len() == PLANE * CHANNELS,
            c <= CHANNELS,
            t@.len() == c * PLANE,
            c * PLANE <= TENSOR_LEN,
            forall|j: int| 0 <= j < c * PLANE ==> #[trigger] t@[j] == planar(rgb@)[j],
        decreases CHANNELS - c,
    {
        let mut p: usize = 0;
        while p < PLANE
            invariant
                rgb@.len() == PLANE * CHANNELS,
                c < CHANNELS,
                p <= PLANE,
                t@.len() == c * PLANE + p,
                c * PLANE + p <= TENSOR_LEN,
                forall|j: int| 0 <= j < c * PLANE + p ==> #[trigger] t@[j] == planar(rgb@)[j],
            decreases PLANE - p,
        {
            proof {
                vstd::arithmetic::div_mod::lemma_fundamental_div_mod_converse(
                    (c * PLANE + p) as int, PLANE as int, c as int, p as int);
            }
            t.push(normalize(rgb[3 * p + c]));
            p += 1;
        }
        assert(PLANE == 262144);
        assert(t@.len() == (c + 1) * PLANE);
        c += 1;
    }
    assert(t@ =~= planar(rgb@));
    t
}

/// The tensor the network is fed for a buffer of `width * height` four-byte
/// pixels: unpacked to RGB, resized to 512x512, laid out in planes and
/// normalized.
pub open spec fn ingested(buffer: Seq<u8>, width: u32, height: u32) -> Seq<i32> {
    planar(catmull_rom_resized(unpacked(buffer), width, height))
}

/// Turns a camera buffer into the network's input tensor.
///
/// A buffer with a zero dimension, or whose length is not four bytes for
/// each pixel, is refused; nothing is truncated.
pub fn ingest(buffer: &[u8], width: u32, height: u32) -> (r: Result<Vec<i32>, PreconditionError>)
    ensures
        (width == 0 || height == 0) <==> r == Err::<Vec<i32>, _>(PreconditionError::EmptyDimension),
        (width > 0 && height > 0 && !buffer_fits(buffer@, width, height))
            <==> r == Err::<Vec<i32>, _>(PreconditionError::LengthMismatch),
        r is Ok <==> (width > 0 && height > 0 && buffer_fits(buffer@, width, height)),
        r matches Ok(t) ==> {
            &&& t@ == ingested(buffer@, width, height)
            &&& t@.len() == TENSOR_LEN
            &&& forall|j: int| 0 <= j < t@.len() ==> in_unit_range(#[trigger] t@[j])
        },
{
    if width == 0 || height == 0 {
        return Err(PreconditionError::EmptyDimension);
    }
    let len: usize = buffer.len();
    proof {
        assert(width as int * height as int <= 0xffff_ffff * 0xffff_ffff) by (nonlinear_arith)
            requires
                width <= 0xffff_ffff,
                height <= 0xffff_ffff,
        ;
        vstd::arithmetic::div_mod::lemma_fundamental_div_mod(len as int, 4);
    }
    let pixels: u64 = (width as u64) * (height as u64);
    if len % 4 != 0 || (len / 4) as u64 != pixels {
        return Err(PreconditionError::LengthMismatch);
    }
    let rgb = unpack_bgra(buffer);
    let resized = resize_to_side(rgb, width, height);
    let t = to_planar(resized.as_slice());
    Ok(t)
}

} // verus!
