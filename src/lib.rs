//! Turns pictures into ASCII art: a text in which every pixel becomes a glyph of a
//! density palette chosen by its brightness, and a glyph layout from which a picture
//! made of letters is drawn and composed onto a background.

pub mod ascii_image;
pub mod compose;
pub mod outside;
pub mod picture;
pub mod quantize;
pub mod text;

pub use ascii_image::{AsciiImage, AsciiImageBuilder};
pub use compose::{
    compose_onto, GlyphLayout, GlyphPlacement, ImageGenerator, ImageGeneratorBackground,
    ImageGeneratorTextColor,
};
pub use picture::{Picture, Rgba};
pub use quantize::{ascii_chars, palette_index, string_of, MAX_DENSITY_CHARS};
pub use text::{
    bind_density_chars, default_density_chars, generate_text, generate_text_with_density_chars,
    PaletteSizeError, TextGenerator,
};
