//! ASCII art as a picture: where each glyph is drawn, in which colour, on which canvas,
//! and how the drawn canvas is composed onto a background picture.

use crate::outside::{catmull_rom_resized, overlaid, overlay_same_size, resize_catmull_rom};
use crate::picture::{lemma_u32_product, raw_of, Picture, PictureView, Rgba};
use crate::quantize::{ascii_chars, ascii_text, default_palette, glyph_for, lemma_text_layout, valid_palette, MAX_DENSITY_CHARS};
use crate::text::default_density_chars;
use vstd::arithmetic::div_mod::lemma_fundamental_div_mod_converse;
use vstd::prelude::*;
use vstd::slice::slice_to_vec;

verus! {

/// What the glyphs are drawn on.
#[derive(Debug)]
pub enum ImageGeneratorBackground<'a> {
    /// A canvas of one solid colour.
    Color(Rgba),
    /// A picture of its own, to which the drawn glyphs are resampled.
    Image(&'a Picture),
}

/// The colour of the glyphs.
#[derive(Clone, Copy, Debug, PartialEq, Eq, Structural)]
pub enum ImageGeneratorTextColor {
    /// Every glyph in the same colour.
    Color(Rgba),
    /// Every glyph in the colour of the pixel it stands for.
    CopyFromImage,
}

/// What a background is.
pub ghost enum BackgroundView {
    Color(Rgba),
    Image(PictureView),
}

pub open spec fn background_view(b: ImageGeneratorBackground) -> BackgroundView {
    match b {
        ImageGeneratorBackground::Color(c) => BackgroundView::Color(c),
        ImageGeneratorBackground::Image(p) => BackgroundView::Image(p@),
    }
}

/// What an `ImageGenerator` is set to.
pub ghost struct ImageGeneratorView {
    pub picture: PictureView,
    pub include_alpha: bool,
    pub density_chars: Seq<char>,
    pub background: BackgroundView,
    pub text_color: ImageGeneratorTextColor,
    pub scale_x: nat,
    pub scale_y: nat,
}

/// A pixel through which everything shows.
pub open spec fn transparent() -> Rgba {
    Rgba { r: 0, g: 0, b: 0, a: 0 }
}

/// One glyph to draw: its character, the pixel at which it is drawn, and its colour.
#[derive(Clone, Copy, Debug, PartialEq, Eq, Structural)]
pub struct GlyphPlacement {
    pub glyph: char,
    pub x: u32,
    pub y: u32,
    pub color: Rgba,
}

/// A canvas and the glyphs to draw on it, each at a scale of `scale_x` by `scale_y`.
#[derive(Debug)]
pub struct GlyphLayout {
    pub canvas: Picture,
    pub glyphs: Vec<GlyphPlacement>,
    pub scale_x: u32,
    pub scale_y: u32,
}

impl ImageGeneratorView {
    /// The colour the canvas starts with: the background colour, or transparent where
    /// a background picture will be laid under it.
    pub open spec fn canvas_fill(self) -> Rgba {
        match self.background {
            BackgroundView::Color(c) => c,
            BackgroundView::Image(_) => transparent(),
        }
    }

    /// The glyph of the pixel at column `x` of row `y`, drawn at
    /// `(x * scale_x + scale_x / 2, y * scale_y)`.
    pub open spec fn placement(self, x: int, y: int) -> GlyphPlacement {
        GlyphPlacement {
            glyph: glyph_for(self.picture.pixel(x, y), self.density_chars, self.include_alpha),
            x: (x * self.scale_x + self.scale_x / 2) as u32,
            y: (y * self.scale_y) as u32,
            color: match self.text_color {
                ImageGeneratorTextColor::Color(c) => c,
                ImageGeneratorTextColor::CopyFromImage => self.picture.pixel(x, y),
            },
        }
    }

    /// The canvas fits in `u32` dimensions and its bytes in memory.
    pub open spec fn canvas_fits(self) -> bool {
        &&& self.picture.width * self.scale_x <= u32::MAX
        &&& self.picture.height * self.scale_y <= u32::MAX
        &&& 4 * ((self.picture.width * self.scale_x) * (self.picture.height * self.scale_y)) <= usize::MAX
    }
}

/// The picture that results when a canvas of drawn glyphs is composed onto a background
/// picture: the canvas resampled to the background's size and blended over it; an empty
/// canvas or background leaves the background as it is.
pub open spec fn composed_on(drawn: PictureView, background: PictureView) -> Seq<u8> {
    if drawn.width * drawn.height == 0 || background.width * background.height == 0 {
        raw_of(background.pixels)
    } else {
        overlaid(
            raw_of(background.pixels),
            resized_canvas(drawn, background),
            background.width,
            background.height,
        )
    }
}

/// Generates ASCII art as a picture: a canvas, the glyphs to draw on it, and the
/// composition of the drawn canvas onto the background.
#[derive(Debug)]
pub struct ImageGenerator<'a> {
    image: &'a Picture,
    include_alpha: bool,
    density_chars: Vec<char>,
    background: ImageGeneratorBackground<'a>,
    text_color: ImageGeneratorTextColor,
    scale_x: u32,
    scale_y: u32,
}

impl<'a> View for ImageGenerator<'a> {
    type V = ImageGeneratorView;

    closed spec fn view(&self) -> ImageGeneratorView {
        ImageGeneratorView {
            picture: self.image@,
            include_alpha: self.include_alpha,
            density_chars: self.density_chars@,
            background: background_view(self.background),
            text_color: self.text_color,
            scale_x: self.scale_x as nat,
            scale_y: self.scale_y as nat,
        }
    }
}

impl<'a> ImageGenerator<'a> {
    #[verifier::type_invariant]
    spec fn inv(&self) -> bool {
        valid_palette(self.density_chars@)
    }

    /// A generator for `image`: alpha weighting, the default palette, white glyphs on
    /// black, at a scale of 24 by 24.
    pub fn new(image: &'a Picture) -> (r: Self)
        ensures
            r@ == (ImageGeneratorView {
                picture: image@,
                include_alpha: true,
                density_chars: default_palette(),
                background: BackgroundView::Color(Rgba { r: 0, g: 0, b: 0, a: 255 }),
                text_color: ImageGeneratorTextColor::Color(Rgba { r: 255, g: 255, b: 255, a: 255 }),
                scale_x: 24,
                scale_y: 24,
            }),
    {
        ImageGenerator {
            image,
            include_alpha: true,
            density_chars: default_density_chars(),
            background: ImageGeneratorBackground::Color(Rgba { r: 0, g: 0, b: 0, a: 255 }),
            text_color: ImageGeneratorTextColor::Color(Rgba { r: 255, g: 255, b: 255, a: 255 }),
            scale_x: 24,
            scale_y: 24,
        }
    }

    /// Sets whether the alpha of a pixel weighs on its glyph.
    pub fn include_alpha(&mut self, value: bool) -> (r: &Self)
        ensures
            r@ == (ImageGeneratorView { include_alpha: value, ..old(self)@ }),
            final(self)@ == r@,
    {
        proof {
            use_type_invariant(&*self);
        }
        self.include_alpha = value;
        self
    }

    /// Sets the palette, darkest glyph first; `None`, with the generator unchanged,
    /// unless it holds 1 to 256 glyphs.
    pub fn set_density_chars(&mut self, value: &[char]) -> (r: Option<&mut Self>)
        ensures
            r is Some <==> valid_palette(value@),
            r is Some ==> r->0@ == (ImageGeneratorView { density_chars: value@, ..old(self)@ }) && final(self)@ == final(r->0)@,
            r is None ==> final(self)@ == old(self)@,
    {
        if value.len() == 0 || value.len() > MAX_DENSITY_CHARS {
            return None;
        }
        self.density_chars = slice_to_vec(value);
        Some(self)
    }

    /// Sets the background: a solid colour, or a picture to which the glyphs are
    /// resampled.
    pub fn set_background(&mut self, value: ImageGeneratorBackground<'a>) -> (r: &mut Self)
        ensures
            r@ == (ImageGeneratorView { background: background_view(value), ..old(self)@ }),
            final(self)@ == final(r)@,
    {
        proof {
            use_type_invariant(&*self);
        }
        self.background = value;
        self
    }

    /// Sets the colour of the glyphs.
    pub fn set_text_color(&mut self, value: ImageGeneratorTextColor) -> (r: &mut Self)
        ensures
            r@ == (ImageGeneratorView { text_color: value, ..old(self)@ }),
            final(self)@ == final(r)@,
    {
        proof {
            use_type_invariant(&*self);
        }
        self.text_color = value;
        self
    }

    /// Sets the width in pixels of a glyph's cell.
    pub fn set_scale_x(&mut self, value: u32) -> (r: &mut Self)
        ensures
            r@ == (ImageGeneratorView { scale_x: value as nat, ..old(self)@ }),
            final(self)@ == final(r)@,
    {
        proof {
            use_type_invariant(&*self);
        }
        self.scale_x = value;
        self
    }

    /// Sets the height in pixels of a glyph's cell.
    pub fn set_scale_y(&mut self, value: u32) -> (r: &mut Self)
        ensures
            r@ == (ImageGeneratorView { scale_y: value as nat, ..old(self)@ }),
            final(self)@ == final(r)@,
    {
        proof {
            use_type_invariant(&*self);
        }
        self.scale_y = value;
        self
    }

    /// The canvas's width and height, the picture's times the scale; `None` where they
    /// do not fit in `u32`, or its bytes in memory.
    pub fn canvas_size(&self) -> (r: Option<(u32, u32)>)
        ensures
            r is Some <==> self@.canvas_fits(),
            self@.canvas_fits() ==> r == Some(
                ((self@.picture.width * self@.scale_x) as u32, (self@.picture.height * self@.scale_y) as u32),
            ),
    {
        let w = self.image.width();
        let h = self.image.height();
        proof {
            lemma_u32_product(w, self.scale_x);
            lemma_u32_product(h, self.scale_y);
        }
        let canvas_width: u64 = w as u64 * self.scale_x as u64;
        let canvas_height: u64 = h as u64 * self.scale_y as u64;
        if canvas_width > u32::MAX as u64 || canvas_height > u32::MAX as u64 {
            return None;
        }
        proof {
            lemma_u32_product(canvas_width as u32, canvas_height as u32);
        }
        let cells: u64 = canvas_width * canvas_height;
        if cells > (usize::MAX / 4) as u64 {
            None
        } else {
            Some((canvas_width as u32, canvas_height as u32))
        }
    }

    /// The canvas, of the picture's size times the scale and filled as the background
    /// asks, and the glyph of every pixel with the place and colour at which it is
    /// drawn, row by row. The glyphs are read from the picture's ASCII text, row
    /// separators included.
    pub fn layout(&self) -> (r: GlyphLayout)
        requires
            self@.canvas_fits(),
        ensures
            r.canvas@.width == self@.picture.width * self@.scale_x,
            r.canvas@.height == self@.picture.height * self@.scale_y,
            r.canvas@.pixels == Seq::new(r.canvas@.width * r.canvas@.height, |i: int| self@.canvas_fill()),
            r.glyphs@.len() == self@.picture.width * self@.picture.height,
            forall|x: int, y: int|
                0 <= x < self@.picture.width && 0 <= y < self@.picture.height ==> #[trigger] r.glyphs@[y * self@.picture.width + x]
                    == self@.placement(x, y),
            r.scale_x == self@.scale_x,
            r.scale_y == self@.scale_y,
    {
        proof {
            use_type_invariant(self);
        }
        let ghost g = self@;
        let w = self.image.width();
        let h = self.image.height();
        let sx = self.scale_x;
        let sy = self.scale_y;
        let canvas_width: u32 = w * sx;
        let canvas_height: u32 = h * sy;
        let fill = match self.background {
            ImageGeneratorBackground::Color(c) => c,
            ImageGeneratorBackground::Image(_) => Rgba { r: 0, g: 0, b: 0, a: 0 },
        };
        let canvas = Picture::filled(canvas_width, canvas_height, fill);
        let mut glyphs: Vec<GlyphPlacement> = Vec::new();
        if w == 0 || h == 0 {
            assert(glyphs@.len() == w * h) by (nonlinear_arith)
                requires
                    w == 0 || h == 0,
                    glyphs@.len() == 0,
            ;
            return GlyphLayout { canvas, glyphs, scale_x: sx, scale_y: sy };
        }
        let text = ascii_chars(self.image, &self.density_chars, self.include_alpha);
        let ghost wi = w as int;
        let ghost hi = h as int;
        proof {
            lemma_text_layout(g.picture, g.density_chars, g.include_alpha);
        }
        let text_len: usize = text.len();
        let mut counter: usize = 0;
        let mut y: u32 = 0;
        while y < h
            invariant
                g == self@,
                w == g.picture.width,
                h == g.picture.height,
                wi == w,
                hi == h,
                sx == g.scale_x,
                sy == g.scale_y,
                0 < w,
                0 < h,
                g.canvas_fits(),
                y <= h,
                y < h ==> counter == y * (wi + 1),
                text@ == ascii_text(g.picture, g.density_chars, g.include_alpha),
                text@.len() == wi * hi + hi - 1,
                text_len == text@.len(),
                glyphs@.len() == y * wi,
                forall|i: int| 0 <= i < glyphs@.len() ==> #[trigger] glyphs@[i] == g.placement(i % wi, i / wi),
            decreases h - y,
        {
            let mut x: u32 = 0;
            while x < w
                invariant
                    g == self@,
                    w == g.picture.width,
                    h == g.picture.height,
                    wi == w,
                    hi == h,
                    sx == g.scale_x,
                    sy == g.scale_y,
                    0 < w,
                    0 < h,
                    g.canvas_fits(),
                    y < h,
                    x <= w,
                    counter == y * (wi + 1) + x,
                    text@ == ascii_text(g.picture, g.density_chars, g.include_alpha),
                    text@.len() == wi * hi + hi - 1,
                    text_len == text@.len(),
                    glyphs@.len() == y * wi + x,
                    forall|i: int| 0 <= i < glyphs@.len() ==> #[trigger] glyphs@[i] == g.placement(i % wi, i / wi),
                decreases w - x,
            {
                proof {
                    assert(y * (wi + 1) + x < wi * hi + hi - 1) by (nonlinear_arith)
                        requires
                            0 <= x < wi,
                            0 <= y < hi,
                    ;
                    let half = sx / 2;
                    assert(x * sx + half <= wi * sx) by (nonlinear_arith)
                        requires
                            0 <= x < wi,
                            0 <= half <= sx,
                    ;
                    lemma_text_layout(g.picture, g.density_chars, g.include_alpha);
                    assert(ascii_text(g.picture, g.density_chars, g.include_alpha)[y * (g.picture.width + 1) + x]
                        == glyph_for(g.picture.pixel(x as int, y as int), g.density_chars, g.include_alpha));
                    assert(y * sy <= hi * sy) by (nonlinear_arith)
                        requires
                            0 <= y < hi,
                            0 <= sy,
                    ;
                    lemma_fundamental_div_mod_converse(y * wi + x, wi, y as int, x as int);
                }
                let glyph = text[counter];
                let color = match self.text_color {
                    ImageGeneratorTextColor::Color(c) => c,
                    ImageGeneratorTextColor::CopyFromImage => self.image.get_pixel(x, y),
                };
                glyphs.push(GlyphPlacement { glyph, x: x * sx + sx / 2, y: y * sy, color });
                counter += 1;
                x += 1;
            }
            if y + 1 < h {
                proof {
                    assert(counter + 1 <= wi * hi + hi - 1) by (nonlinear_arith)
                        requires
                            counter == y * (wi + 1) + wi,
                            0 <= y,
                            y + 1 < hi,
                            0 < wi,
                    ;
                }
                // the row separator
                counter += 1;
            }
            y += 1;
            proof {
                assert(glyphs@.len() == y * wi) by (nonlinear_arith)
                    requires
                        glyphs@.len() == (y - 1) * wi + wi,
                ;
                if y < h {
                    assert(counter == y * (wi + 1)) by (nonlinear_arith)
                        requires
                            counter == (y - 1) * (wi + 1) + wi + 1,
                    ;
                }
            }
        }
        proof {
            assert forall|x: int, y: int| 0 <= x < wi && 0 <= y < hi implies #[trigger] glyphs@[y * wi + x] == g.placement(x, y) by {
                lemma_fundamental_div_mod_converse(y * wi + x, wi, y, x);
                assert(y * wi + x < hi * wi) by (nonlinear_arith)
                    requires
                        0 <= x < wi,
                        0 <= y < hi,
                ;
            }
        }
        GlyphLayout { canvas, glyphs, scale_x: sx, scale_y: sy }
    }

    /// The finished picture from a canvas on which the glyphs of `layout` are drawn:
    /// the canvas itself on a solid background, or the canvas composed onto the
    /// background picture, which gives the result its size.
    pub fn generate(&self, drawn: &Picture) -> (r: Picture)
        ensures
            self@.background is Color ==> r@ == drawn@,
            self@.background is Image ==> r@.width == self@.background->Image_0.width && r@.height
                == self@.background->Image_0.height && raw_of(r@.pixels) == composed_on(drawn@, self@.background->Image_0),
            self@.background is Image ==> forall|k: int|
                0 <= k < raw_of(r@.pixels).len() && resized_canvas(drawn@, self@.background->Image_0)[k - k % 4 + 3] == 0
                    ==> #[trigger] raw_of(r@.pixels)[k] == raw_of(self@.background->Image_0.pixels)[k],
    {
        match self.background {
            ImageGeneratorBackground::Color(_) => drawn.clone(),
            ImageGeneratorBackground::Image(background) => compose_onto(drawn, background),
        }
    }
}

/// The canvas resampled to the background's size, as bytes.
pub open spec fn resized_canvas(drawn: PictureView, background: PictureView) -> Seq<u8> {
    catmull_rom_resized(raw_of(drawn.pixels), drawn.width, drawn.height, background.width, background.height)
}

/// Composes a canvas of drawn glyphs onto a background picture: the canvas is
/// resampled to the background's size and blended over a copy of it. The result has
/// the background's dimensions, whatever the canvas's are; where the resampled canvas
/// is fully transparent the background shows as it is, and where it is opaque it
/// covers the background.
pub fn compose_onto(drawn: &Picture, background: &Picture) -> (r: Picture)
    ensures
        r@.width == background@.width,
        r@.height == background@.height,
        raw_of(r@.pixels) == composed_on(drawn@, background@),
        forall|k: int|
            0 <= k < raw_of(r@.pixels).len() && resized_canvas(drawn@, background@)[k - k % 4 + 3] == 0
                ==> #[trigger] raw_of(r@.pixels)[k] == raw_of(background@.pixels)[k],
        drawn@.width * drawn@.height != 0 ==> forall|k: int|
            0 <= k < raw_of(r@.pixels).len() && resized_canvas(drawn@, background@)[k - k % 4 + 3] == 255
                ==> #[trigger] raw_of(r@.pixels)[k] == resized_canvas(drawn@, background@)[k],
{
    let bw = background.width();
    let bh = background.height();
    if drawn.len() == 0 || background.len() == 0 {
        return background.clone();
    }
    proof {
        assert(drawn@.width > 0 && drawn@.height > 0 && bw > 0 && bh > 0) by (nonlinear_arith)
            requires
                drawn@.width * drawn@.height != 0,
                bw * bh != 0,
        ;
    }
    let below = background.to_raw();
    let below_len: usize = below.len();
    assert(below_len == 4 * (bw * bh));
    let top = resize_catmull_rom(drawn.to_raw(), drawn.width(), drawn.height(), bw, bh);
    let out = overlay_same_size(below, top, bw, bh);
    Picture::from_raw(bw, bh, &out).unwrap()
}

} // verus!
