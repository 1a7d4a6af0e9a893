//! The builder-style entry point: `AsciiImage::builder`, whose palette binding falls
//! back to the default for an empty palette and truncates an overlong one.

use crate::picture::{Picture, PictureView};
use crate::quantize::{ascii_chars, ascii_text, default_palette, string_of, valid_palette, MAX_DENSITY_CHARS};
use crate::text::default_density_chars;
use vstd::prelude::*;
use vstd::slice::{slice_subrange, slice_to_vec};

verus! {

/// The number of glyphs an overlong palette is cut to by `AsciiImageBuilder::build`.
pub const TRUNCATED_DENSITY_CHARS: usize = 255;

/// How `build` binds a palette: an empty one is dropped, so that the default stands;
/// one longer than 256 glyphs keeps its first 255; any other is kept as it is.
pub open spec fn bound_density_chars(chars: Option<Seq<char>>) -> Option<Seq<char>> {
    match chars {
        None => None,
        Some(c) => if c.len() == 0 {
            None
        } else if c.len() > MAX_DENSITY_CHARS {
            Some(c.take(TRUNCATED_DENSITY_CHARS as int))
        } else {
            Some(c)
        },
    }
}

/// What an `AsciiImageBuilder` holds.
pub ghost struct AsciiImageBuilderView {
    pub picture: PictureView,
    pub density_chars: Option<Seq<char>>,
    pub include_alpha: Option<bool>,
}

/// What an `AsciiImage` is set to.
pub ghost struct AsciiImageView {
    pub picture: PictureView,
    pub density_chars: Seq<char>,
    pub include_alpha: bool,
}

/// Collects the settings of an `AsciiImage`; those left unset take their defaults.
#[derive(Debug)]
pub struct AsciiImageBuilder<'a> {
    image: &'a Picture,
    density_chars: Option<Vec<char>>,
    include_alpha: Option<bool>,
}

/// A picture with the palette and alpha weighting its ASCII text is made with.
#[derive(Debug)]
pub struct AsciiImage<'a> {
    image: &'a Picture,
    density_chars: Vec<char>,
    include_alpha: bool,
}

pub open spec fn option_view(o: Option<Vec<char>>) -> Option<Seq<char>> {
    match o {
        Some(v) => Some(v@),
        None => None,
    }
}

impl<'a> View for AsciiImageBuilder<'a> {
    type V = AsciiImageBuilderView;

    closed spec fn view(&self) -> AsciiImageBuilderView {
        AsciiImageBuilderView {
            picture: self.image@,
            density_chars: option_view(self.density_chars),
            include_alpha: self.include_alpha,
        }
    }
}

impl<'a> View for AsciiImage<'a> {
    type V = AsciiImageView;

    closed spec fn view(&self) -> AsciiImageView {
        AsciiImageView { picture: self.image@, density_chars: self.density_chars@, include_alpha: self.include_alpha }
    }
}

impl<'a> AsciiImageBuilder<'a> {
    /// Sets the palette, darkest glyph first; `build` binds it.
    pub fn density_chars(&mut self, chars: Vec<char>) -> (r: &mut Self)
        ensures
            r@ == (AsciiImageBuilderView { density_chars: Some(chars@), ..old(self)@ }),
            final(self)@ == final(r)@,
    {
        self.density_chars = Some(chars);
        self
    }

    /// Sets whether the alpha of a pixel weighs on its glyph.
    pub fn include_alpha(&mut self, alpha: bool) -> (r: &mut Self)
        ensures
            r@ == (AsciiImageBuilderView { include_alpha: Some(alpha), ..old(self)@ }),
            final(self)@ == final(r)@,
    {
        self.include_alpha = Some(alpha);
        self
    }

    /// Binds the palette, keeping the bound one in the builder, and makes the
    /// `AsciiImage`: without a palette the default one, without an alpha setting
    /// alpha weighting.
    pub fn build(&mut self) -> (r: AsciiImage<'a>)
        ensures
            final(self)@ == (AsciiImageBuilderView { density_chars: bound_density_chars(old(self)@.density_chars), ..old(self)@ }),
            r@.picture == old(self)@.picture,
            r@.density_chars == match bound_density_chars(old(self)@.density_chars) {
                Some(c) => c,
                None => default_palette(),
            },
            r@.include_alpha == match old(self)@.include_alpha {
                Some(a) => a,
                None => true,
            },
            valid_palette(r@.density_chars),
    {
        let bound: Option<Vec<char>> = match &self.density_chars {
            None => None,
            Some(chars) => if chars.len() == 0 {
                None
            } else if chars.len() > MAX_DENSITY_CHARS {
                Some(slice_to_vec(slice_subrange(chars.as_slice(), 0, TRUNCATED_DENSITY_CHARS)))
            } else {
                let kept = chars.clone();
                assert(kept@ =~= chars@);
                Some(kept)
            },
        };
        self.density_chars = bound;
        let density_chars = match &self.density_chars {
            Some(chars) => {
                let kept = chars.clone();
                assert(kept@ =~= chars@);
                kept
            },
            None => default_density_chars(),
        };
        let include_alpha = match self.include_alpha {
            Some(a) => a,
            None => true,
        };
        AsciiImage { image: self.image, density_chars, include_alpha }
    }
}

impl<'a> AsciiImage<'a> {
    #[verifier::type_invariant]
    spec fn inv(&self) -> bool {
        valid_palette(self.density_chars@)
    }

    /// A builder for the ASCII art of `image`, with nothing set yet.
    pub fn builder(image: &'a Picture) -> (r: AsciiImageBuilder<'a>)
        ensures
            r@ == (AsciiImageBuilderView { picture: image@, density_chars: None, include_alpha: None }),
    {
        AsciiImageBuilder { image, density_chars: None, include_alpha: None }
    }

    /// The ASCII text of the picture; always `Some`.
    pub fn generate_text_grayscale(&self) -> (r: Option<String>)
        ensures
            r is Some,
            r->0@ == ascii_text(self@.picture, self@.density_chars, self@.include_alpha),
    {
        proof {
            use_type_invariant(self);
        }
        Some(string_of(&ascii_chars(self.image, &self.density_chars, self.include_alpha)))
    }

    /// Makes no picture: ASCII art pictures come from `ImageGenerator`.
    pub fn generate_image_grayscale(&self) {
    }
}

} // verus!
