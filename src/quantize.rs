//! Brightness quantization: from a pixel's luma and alpha to a glyph of a density
//! palette, and from a picture to its ASCII text.

use crate::outside::{luma_alpha, luma_of, push_char};
use crate::picture::{Picture, PictureView, Rgba};
use vstd::arithmetic::div_mod::{lemma_div_is_ordered, lemma_fundamental_div_mod_converse};
use vstd::prelude::*;

verus! {

/// The largest number of glyphs a density palette may hold.
pub const MAX_DENSITY_CHARS: usize = 256;

/// A palette holds between 1 and 256 glyphs, darkest first.
pub open spec fn valid_palette(palette: Seq<char>) -> bool {
    1 <= palette.len() <= MAX_DENSITY_CHARS
}

/// The palette used where none is given: `. , : + * ? % # @`.
pub open spec fn default_palette() -> Seq<char> {
    seq!['.', ',', ':', '+', '*', '?', '%', '#', '@']
}

/// The index into a palette of `len` glyphs of a pixel of luma `lum` and alpha `alpha`.
///
/// Without alpha weighting it is `round(lum * (len - 1) / 255)`. With it the luma is
/// first weighed by the pixel's opacity, `lum / (255 / alpha)`, that is
/// `lum * alpha / 255`, so the index is `round(lum * alpha * (len - 1) / 255²)`. A fully
/// transparent pixel, where `255 / alpha` has no value, takes the first, darkest glyph.
/// Halves round up, and the index is held to `len - 1`.
pub open spec fn spec_palette_index(lum: int, alpha: int, include_alpha: bool, len: int) -> int {
    let rounded = if !include_alpha {
        (2 * lum * (len - 1) + 255) / 510
    } else if alpha == 0 {
        0
    } else {
        (2 * lum * alpha * (len - 1) + 65025) / 130050
    };
    if rounded > len - 1 {
        len - 1
    } else {
        rounded
    }
}

/// The glyph that stands for pixel `p`.
pub open spec fn glyph_for(p: Rgba, palette: Seq<char>, include_alpha: bool) -> char {
    palette[spec_palette_index(luma_of(p), p.a as int, include_alpha, palette.len() as int)]
}

/// The ASCII text of a picture: its glyphs row by row, with a `'\n'` between two rows
/// and none after the last. A picture without pixels gives the empty text.
pub open spec fn ascii_text(pic: PictureView, palette: Seq<char>, include_alpha: bool) -> Seq<char> {
    let w = pic.width as int;
    let h = pic.height as int;
    if w == 0 || h == 0 {
        Seq::empty()
    } else {
        Seq::new(
            (w * h + h - 1) as nat,
            |i: int|
                if i % (w + 1) == w {
                    '\n'
                } else {
                    glyph_for(pic.pixel(i % (w + 1), i / (w + 1)), palette, include_alpha)
                },
        )
    }
}

/// The index into a palette of `len` glyphs for a pixel of luma `lum` and alpha `alpha`.
pub fn palette_index(lum: u8, alpha: u8, include_alpha: bool, len: usize) -> (r: usize)
    requires
        1 <= len <= MAX_DENSITY_CHARS,
    ensures
        r == spec_palette_index(lum as int, alpha as int, include_alpha, len as int),
        r < len,
{
    let top: u32 = (len - 1) as u32;
    let rounded: u32 = if !include_alpha {
        assert(2 * lum * top <= 2 * 255 * 255) by (nonlinear_arith)
            requires
                lum <= 255,
                top <= 255,
        ;
        (2 * lum as u32 * top + 255) / 510
    } else if alpha == 0 {
        // `255 / alpha` has no value: the darkest glyph
        0
    } else {
        assert(2 * lum * alpha <= 2 * 255 * 255 && 2 * lum * alpha * top <= 2 * 255 * 255 * 255) by (nonlinear_arith)
            requires
                lum <= 255,
                alpha <= 255,
                top <= 255,
        ;
        (2 * lum as u32 * alpha as u32 * top + 65025) / 130050
    };
    if rounded > top {
        len - 1
    } else {
        rounded as usize
    }
}

/// Every index lies in the palette.
pub proof fn lemma_index_in_range(lum: u8, alpha: u8, include_alpha: bool, len: int)
    requires
        1 <= len <= MAX_DENSITY_CHARS,
    ensures
        0 <= spec_palette_index(lum as int, alpha as int, include_alpha, len) <= len - 1,
{
    assert(0 <= 2 * lum * (len - 1) + 255 && 0 <= 2 * lum * alpha * (len - 1) + 65025) by (nonlinear_arith)
        requires
            0 <= lum,
            0 <= alpha,
            1 <= len,
    ;
}

/// For a fixed alpha, a brighter pixel never takes a darker glyph.
pub proof fn lemma_index_monotonic(lum1: u8, lum2: u8, alpha: u8, include_alpha: bool, len: int)
    requires
        1 <= len <= MAX_DENSITY_CHARS,
        lum1 <= lum2,
    ensures
        spec_palette_index(lum1 as int, alpha as int, include_alpha, len)
            <= spec_palette_index(lum2 as int, alpha as int, include_alpha, len),
{
    assert(2 * lum1 * (len - 1) + 255 <= 2 * lum2 * (len - 1) + 255) by (nonlinear_arith)
        requires
            lum1 <= lum2,
            1 <= len,
    ;
    lemma_div_is_ordered(2 * lum1 * (len - 1) + 255, 2 * lum2 * (len - 1) + 255, 510);
    assert(2 * lum1 * alpha * (len - 1) + 65025 <= 2 * lum2 * alpha * (len - 1) + 65025) by (nonlinear_arith)
        requires
            lum1 <= lum2,
            0 <= alpha,
            1 <= len,
    ;
    lemma_div_is_ordered(2 * lum1 * alpha * (len - 1) + 65025, 2 * lum2 * alpha * (len - 1) + 65025, 130050);
}

/// Position `q * (w + 1) + r` of the text, with `r <= w`, lies in row `q` at column `r`.
proof fn lemma_text_position(q: int, r: int, w: int)
    requires
        0 <= r <= w,
    ensures
        (q * (w + 1) + r) / (w + 1) == q,
        (q * (w + 1) + r) % (w + 1) == r,
{
    lemma_fundamental_div_mod_converse(q * (w + 1) + r, w + 1, q, r);
}

/// The ASCII text of a `w` by `h` picture holds `w * h` glyphs and `h - 1` row
/// separators: row `y` fills positions `y * (w + 1)` up to `y * (w + 1) + w - 1` with the
/// glyphs of its pixels from left to right, and a `'\n'` follows every row but the last.
pub proof fn lemma_text_layout(pic: PictureView, palette: Seq<char>, include_alpha: bool)
    requires
        pic.width > 0,
        pic.height > 0,
    ensures
        ascii_text(pic, palette, include_alpha).len() == pic.width * pic.height + pic.height - 1,
        forall|x: int, y: int|
            0 <= x < pic.width && 0 <= y < pic.height ==> #[trigger] ascii_text(pic, palette, include_alpha)[y * (pic.width + 1) + x]
                == glyph_for(pic.pixel(x, y), palette, include_alpha),
        forall|y: int|
            0 <= y < pic.height - 1 ==> #[trigger] ascii_text(pic, palette, include_alpha)[y * (pic.width + 1) + pic.width as int]
                == '\n',
{
    let w = pic.width as int;
    let h = pic.height as int;
    let t = ascii_text(pic, palette, include_alpha);
    assert forall|x: int, y: int| 0 <= x < w && 0 <= y < h implies #[trigger] t[y * (w + 1) + x]
        == glyph_for(pic.pixel(x, y), palette, include_alpha) by {
        lemma_text_position(y, x, w);
        assert(y * (w + 1) + x < w * h + h - 1) by (nonlinear_arith)
            requires
                0 <= x < w,
                0 <= y < h,
        ;
    }
    assert forall|y: int| 0 <= y < h - 1 implies #[trigger] t[y * (w + 1) + w] == '\n' by {
        lemma_text_position(y, w, w);
        assert(y * (w + 1) + w < w * h + h - 1) by (nonlinear_arith)
            requires
                0 <= y < h - 1,
                0 < w,
        ;
    }
}

/// The text depends on nothing but the picture's dimensions and pixels, the palette and
/// the alpha setting: two generations from equal pictures with equal settings give the
/// same characters.
pub proof fn lemma_text_deterministic(
    pic1: PictureView,
    pic2: PictureView,
    palette1: Seq<char>,
    palette2: Seq<char>,
    include_alpha1: bool,
    include_alpha2: bool,
)
    requires
        pic1 == pic2,
        palette1 == palette2,
        include_alpha1 == include_alpha2,
    ensures
        ascii_text(pic1, palette1, include_alpha1) == ascii_text(pic2, palette2, include_alpha2),
{
}

/// The glyph of one pixel.
fn glyph_of(p: Rgba, palette: &Vec<char>, include_alpha: bool) -> (r: char)
    requires
        valid_palette(palette@),
    ensures
        r == glyph_for(p, palette@, include_alpha),
{
    let (lum, alpha) = luma_alpha(p);
    let i = palette_index(lum, alpha, include_alpha, palette.len());
    palette[i]
}

/// The ASCII text of `picture` as characters.
pub fn ascii_chars(picture: &Picture, palette: &Vec<char>, include_alpha: bool) -> (r: Vec<char>)
    requires
        valid_palette(palette@),
    ensures
        r@ == ascii_text(picture@, palette@, include_alpha),
{
    let ghost t = ascii_text(picture@, palette@, include_alpha);
    let w = picture.width();
    let h = picture.height();
    let mut out: Vec<char> = Vec::new();
    if w == 0 || h == 0 {
        assert(out@ =~= t);
        return out;
    }
    let ghost wi = w as int;
    let ghost hi = h as int;
    let mut y: u32 = 0;
    while y < h
        invariant
            w == picture@.width,
            h == picture@.height,
            wi == w,
            hi == h,
            0 < w,
            0 < h,
            y <= h,
            t == ascii_text(picture@, palette@, include_alpha),
            valid_palette(palette@),
            y == 0 ==> out@.len() == 0,
            y > 0 ==> out@.len() == y * (wi + 1) - 1,
            forall|i: int| 0 <= i < out@.len() ==> #[trigger] out@[i] == t[i],
        decreases h - y,
    {
        if y > 0 {
            proof {
                lemma_text_position(y - 1, wi, wi);
                assert((y - 1) * (wi + 1) + wi == y * (wi + 1) - 1) by (nonlinear_arith);
                assert(y * (wi + 1) - 1 < wi * hi + hi - 1) by (nonlinear_arith)
                    requires
                        0 < y < hi,
                        0 < wi,
                ;
            }
            out.push('\n');
        }
        let mut x: u32 = 0;
        while x < w
            invariant
                w == picture@.width,
                h == picture@.height,
                wi == w,
                hi == h,
                0 < w,
                0 < h,
                y < h,
                x <= w,
                t == ascii_text(picture@, palette@, include_alpha),
                valid_palette(palette@),
                out@.len() == y * (wi + 1) + x,
                forall|i: int| 0 <= i < out@.len() ==> #[trigger] out@[i] == t[i],
            decreases w - x,
        {
            let g = glyph_of(picture.get_pixel(x, y), palette, include_alpha);
            proof {
                lemma_text_position(y as int, x as int, wi);
                assert(y * (wi + 1) + x < wi * hi + hi - 1) by (nonlinear_arith)
                    requires
                        0 <= x < wi,
                        0 <= y < hi,
                ;
            }
            out.push(g);
            x += 1;
        }
        y += 1;
        proof {
            assert(out@.len() == y * (wi + 1) - 1) by (nonlinear_arith)
                requires
                    out@.len() == (y - 1) * (wi + 1) + wi,
            ;
        }
    }
    proof {
        assert(hi * (wi + 1) - 1 == wi * hi + hi - 1) by (nonlinear_arith);
    }
    assert(out@ =~= t);
    out
}

/// The characters of `chars` as a `String`.
pub fn string_of(chars: &Vec<char>) -> (r: String)
    ensures
        r@ == chars@,
{
    let mut s = String::new();
    let mut i: usize = 0;
    while i < chars.len()
        invariant
            i <= chars@.len(),
            s@ == chars@.take(i as int),
        decreases chars@.len() - i,
    {
        push_char(&mut s, chars[i]);
        assert(chars@.take(i as int).push(chars@[i as int]) =~= chars@.take(i + 1));
        i += 1;
    }
    assert(chars@.take(chars@.len() as int) =~= chars@);
    s
}

} // verus!
