//! ASCII text of a picture: the direct functions and the `TextGenerator` builder.

use crate::picture::{Picture, PictureView};
use crate::quantize::{ascii_chars, ascii_text, default_palette, string_of, valid_palette, MAX_DENSITY_CHARS};
use vstd::prelude::*;
use vstd::slice::slice_to_vec;

verus! {

/// A density palette of the wrong size: empty, or longer than 256 glyphs.
#[derive(Clone, Copy, Debug, PartialEq, Eq, Structural)]
pub struct PaletteSizeError {
    /// The number of glyphs that was given.
    pub len: usize,
}

/// The default palette, `. , : + * ? % # @`.
pub fn default_density_chars() -> (r: Vec<char>)
    ensures
        r@ == default_palette(),
{
    let r: Vec<char> = vec!['.', ',', ':', '+', '*', '?', '%', '#', '@'];
    assert(r@ =~= default_palette());
    r
}

/// Checks a caller's palette: it is taken as it is when it holds 1 to 256 glyphs,
/// and refused otherwise.
pub fn bind_density_chars(chars: &[char]) -> (r: Result<Vec<char>, PaletteSizeError>)
    ensures
        valid_palette(chars@) <==> r is Ok,
        r is Ok ==> r->Ok_0@ == chars@,
        r is Err ==> r->Err_0.len == chars@.len(),
{
    if chars.len() == 0 || chars.len() > MAX_DENSITY_CHARS {
        Err(PaletteSizeError { len: chars.len() })
    } else {
        Ok(slice_to_vec(chars))
    }
}

/// The ASCII text of `picture` with the default palette.
pub fn generate_text(picture: &Picture, include_alpha: bool) -> (r: String)
    ensures
        r@ == ascii_text(picture@, default_palette(), include_alpha),
{
    let palette = default_density_chars();
    string_of(&ascii_chars(picture, &palette, include_alpha))
}

/// The ASCII text of `picture` with the palette `density_chars`, which must hold
/// 1 to 256 glyphs.
pub fn generate_text_with_density_chars(picture: &Picture, include_alpha: bool, density_chars: &[char]) -> (r: Result<String, PaletteSizeError>)
    ensures
        valid_palette(density_chars@) <==> r is Ok,
        r is Ok ==> r->Ok_0@ == ascii_text(picture@, density_chars@, include_alpha),
        r is Err ==> r->Err_0.len == density_chars@.len(),
{
    match bind_density_chars(density_chars) {
        Ok(palette) => Ok(string_of(&ascii_chars(picture, &palette, include_alpha))),
        Err(e) => Err(e),
    }
}

/// What a `TextGenerator` is set to.
pub ghost struct TextGeneratorView {
    pub picture: PictureView,
    pub include_alpha: bool,
    pub density_chars: Seq<char>,
}

/// Generates the ASCII text of a picture; alpha weighting and the palette can be set.
#[derive(Debug)]
pub struct TextGenerator<'a> {
    image: &'a Picture,
    include_alpha: bool,
    density_chars: Vec<char>,
}

impl<'a> View for TextGenerator<'a> {
    type V = TextGeneratorView;

    closed spec fn view(&self) -> TextGeneratorView {
        TextGeneratorView { picture: self.image@, include_alpha: self.include_alpha, density_chars: self.density_chars@ }
    }
}

impl<'a> TextGenerator<'a> {
    #[verifier::type_invariant]
    spec fn inv(&self) -> bool {
        valid_palette(self.density_chars@)
    }

    /// A generator for `image`, with alpha weighting and the default palette.
    pub fn new(image: &'a Picture) -> (r: Self)
        ensures
            r@ == (TextGeneratorView { picture: image@, include_alpha: true, density_chars: default_palette() }),
    {
        TextGenerator { image, include_alpha: true, density_chars: default_density_chars() }
    }

    /// Sets whether the alpha of a pixel weighs on its glyph.
    pub fn set_include_alpha(&mut self, value: bool) -> (r: &mut Self)
        ensures
            r@ == (TextGeneratorView { include_alpha: value, ..old(self)@ }),
            final(self)@ == final(r)@,
    {
        proof {
            use_type_invariant(&*self);
        }
        self.include_alpha = value;
        self
    }

    /// Sets the palette, darkest glyph first; `None`, with the generator unchanged,
    /// unless it holds 1 to 256 glyphs.
    pub fn set_density_chars(&mut self, value: &[char]) -> (r: Option<&mut Self>)
        ensures
            r is Some <==> valid_palette(value@),
            r is Some ==> r->0@ == (TextGeneratorView { density_chars: value@, ..old(self)@ }) && final(self)@ == final(r->0)@,
            r is None ==> final(self)@ == old(self)@,
    {
        if value.len() == 0 || value.len() > MAX_DENSITY_CHARS {
            return None;
        }
        self.density_chars = slice_to_vec(value);
        Some(self)
    }

    /// The ASCII text of the picture.
    pub fn generate(&self) -> (r: String)
        ensures
            r@ == ascii_text(self@.picture, self@.density_chars, self@.include_alpha),
    {
        proof {
            use_type_invariant(self);
        }
        string_of(&ascii_chars(self.image, &self.density_chars, self.include_alpha))
    }
}

} // verus!
