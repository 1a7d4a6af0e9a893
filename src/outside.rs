//! Calls into the `image` crate and into std that Verus has no specification of.

use crate::picture::Rgba;
use vstd::prelude::*;

verus! {

/// The luma that `image` gives a colour of eight-bit channels: the integer part of
/// the sRGB weighted sum 0.2126 R + 0.7152 G + 0.0722 B.
pub open spec fn luma_of(p: Rgba) -> int {
    (2126 * p.r + 7152 * p.g + 722 * p.b) / 10000
}

/// Relies on `image::Pixel::to_luma_alpha` for `Rgba<u8>` (its `rgb_to_luma`): the luma
/// is the weighted sum above, computed in `u32` and divided by 10000; the alpha is kept.
#[verifier::external_body]
pub(crate) fn luma_alpha(p: Rgba) -> (r: (u8, u8))
    ensures
        r.0 as int == luma_of(p),
        r.1 == p.a,
{
    let la = image::Pixel::to_luma_alpha(&image::Rgba([p.r, p.g, p.b, p.a]));
    (la.0[0], la.0[1])
}

/// The RGBA bytes of a `width` by `height` picture resampled by `image` with its
/// Catmull-Rom filter to `new_width` by `new_height`.
pub uninterp spec fn catmull_rom_resized(raw: Seq<u8>, width: nat, height: nat, new_width: nat, new_height: nat) -> Seq<u8>;

/// Relies on `image::imageops::resize` with `FilterType::CatmullRom` on an `RgbaImage`:
/// the result is a new buffer of exactly `new_width` by `new_height` pixels, computed
/// from the source pixels and the dimensions alone. An empty source would be read out
/// of bounds, so every dimension is positive.
#[verifier::external_body]
pub(crate) fn resize_catmull_rom(raw: Vec<u8>, width: u32, height: u32, new_width: u32, new_height: u32) -> (r: Vec<u8>)
    requires
        raw@.len() == 4 * (width * height),
        width > 0,
        height > 0,
        new_width > 0,
        new_height > 0,
        4 * (new_width * new_height) <= usize::MAX,
    ensures
        r@.len() == 4 * (new_width * new_height),
        r@ == catmull_rom_resized(raw@, width as nat, height as nat, new_width as nat, new_height as nat),
{
    let source = image::RgbaImage::from_raw(width, height, raw).unwrap();
    image::imageops::resize(&source, new_width, new_height, image::imageops::FilterType::CatmullRom).into_raw()
}

/// The RGBA bytes of `bottom` after `image` has blended every pixel of `top`, a picture
/// of the same `width` by `height`, over the pixel beneath it.
pub uninterp spec fn overlaid(bottom: Seq<u8>, top: Seq<u8>, width: nat, height: nat) -> Seq<u8>;

/// Relies on `image::imageops::overlay` at the origin, for two `RgbaImage`s of the same
/// dimensions: each pixel of `bottom` is replaced by its `blend` with the pixel of `top`
/// at the same place, and the buffer keeps its dimensions. `Rgba::blend` leaves the
/// bottom pixel as it is where the top one has alpha 0, and takes the top pixel where it
/// has alpha 255.
#[verifier::external_body]
pub(crate) fn overlay_same_size(bottom: Vec<u8>, top: Vec<u8>, width: u32, height: u32) -> (r: Vec<u8>)
    requires
        bottom@.len() == 4 * (width * height),
        top@.len() == 4 * (width * height),
    ensures
        r@.len() == bottom@.len(),
        r@ == overlaid(bottom@, top@, width as nat, height as nat),
        forall|k: int|
            0 <= k < r@.len() ==> (top@[k - k % 4 + 3] == 0 ==> #[trigger] r@[k] == bottom@[k]) && (top@[k - k % 4 + 3]
                == 255 ==> r@[k] == top@[k]),
{
    let mut below = image::RgbaImage::from_raw(width, height, bottom).unwrap();
    let above = image::RgbaImage::from_raw(width, height, top).unwrap();
    image::imageops::overlay(&mut below, &above, 0, 0);
    below.into_raw()
}

/// Relies on `String::push`: appends one character.
#[verifier::external_body]
pub(crate) fn push_char(s: &mut String, c: char)
    ensures
        final(s)@ == old(s)@.push(c),
{
    s.push(c);
}

} // verus!
