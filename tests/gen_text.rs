use image_ascii::{
    generate_text, generate_text_with_density_chars, palette_index, AsciiImage, Picture, Rgba,
    TextGenerator,
};

fn gray(v: u8, a: u8) -> Rgba {
    Rgba { r: v, g: v, b: v, a }
}

fn picture(width: u32, height: u32, pixels: Vec<Rgba>) -> Picture {
    Picture::from_pixels(width, height, pixels).unwrap()
}

fn default_chars() -> Vec<char> {
    vec!['.', ',', ':', '+', '*', '?', '%', '#', '@']
}

#[test]
fn gen_text_density_chars_len0() {
    let image = picture(2, 2, vec![gray(0, 255), gray(80, 255), gray(160, 255), gray(255, 255)]);

    let mut generator = TextGenerator::new(&image);
    let value = generator.set_density_chars(&vec![]).is_none();
    assert_eq!(value, true);
}

#[test]
fn ascii_image_density_chars_len_too_large() {
    let image = picture(2, 1, vec![gray(0, 255), gray(255, 255)]);

    let chars_257: Vec<char> = Vec::from_iter((0..257).map(|_| '1'));
    let mut generator = TextGenerator::new(&image);
    let value = generator.set_density_chars(&chars_257).is_none();
    assert_eq!(value, true);
}

#[test]
fn density_chars_len256_accepted() {
    let image = picture(3, 1, vec![gray(0, 255), gray(128, 255), gray(255, 255)]);
    let chars: Vec<char> = (0..256u32).map(|i| char::from_u32(0x100 + i).unwrap()).collect();
    let mut generator = TextGenerator::new(&image);
    let text = generator.set_density_chars(&chars).unwrap().generate();
    let expected: String = [chars[0], chars[128], chars[255]].iter().collect();
    assert_eq!(text, expected);
}

#[test]
fn palette_size_errors() {
    let image = picture(1, 1, vec![gray(0, 255)]);
    let err = generate_text_with_density_chars(&image, true, &[]).unwrap_err();
    assert_eq!(err.len, 0);
    let long = vec!['x'; 257];
    let err = generate_text_with_density_chars(&image, true, &long).unwrap_err();
    assert_eq!(err.len, 257);
    let ok = generate_text_with_density_chars(&image, true, &vec!['x'; 256]).unwrap();
    assert_eq!(ok, "x");
}

#[test]
fn two_pixel_example() {
    let image = picture(2, 1, vec![gray(0, 255), gray(255, 255)]);
    assert_eq!(TextGenerator::new(&image).generate(), ".@");
    assert_eq!(generate_text(&image, true), ".@");
}

#[test]
fn rows_are_separated_not_terminated() {
    let image = picture(
        3,
        2,
        vec![
            gray(0, 255),
            gray(255, 255),
            gray(0, 255),
            gray(255, 255),
            gray(0, 255),
            gray(255, 255),
        ],
    );
    let text = generate_text(&image, false);
    assert_eq!(text, ".@.\n@.@");
    assert_eq!(text.chars().count(), 3 * 2 + 1);
}

#[test]
fn single_row_and_single_column() {
    let row = picture(4, 1, vec![gray(0, 255); 4]);
    assert_eq!(generate_text(&row, true), "....");
    let column = picture(1, 3, vec![gray(255, 255); 3]);
    assert_eq!(generate_text(&column, true), "@\n@\n@");
}

#[test]
fn empty_picture_gives_empty_text() {
    let empty = picture(0, 5, vec![]);
    assert_eq!(generate_text(&empty, true), "");
}

#[test]
fn index_formula_values() {
    // round(lum * 8 / 255)
    assert_eq!(palette_index(0, 255, false, 9), 0);
    assert_eq!(palette_index(16, 255, false, 9), 1);
    assert_eq!(palette_index(15, 255, false, 9), 0);
    assert_eq!(palette_index(128, 255, false, 9), 4);
    assert_eq!(palette_index(255, 255, false, 9), 8);
    // with alpha weighting: round(lum * alpha * 8 / 255²)
    assert_eq!(palette_index(64, 128, true, 9), 1);
    assert_eq!(palette_index(200, 100, true, 9), 2);
    assert_eq!(palette_index(255, 128, true, 9), 4);
    assert_eq!(palette_index(128, 255, true, 9), 4);
    assert_eq!(palette_index(255, 255, true, 9), 8);
    assert_eq!(palette_index(10, 255, true, 9), 0);
    // a palette of one glyph
    assert_eq!(palette_index(255, 255, true, 1), 0);
    // two hundred fifty-six glyphs
    assert_eq!(palette_index(255, 255, false, 256), 255);
    assert_eq!(palette_index(1, 255, false, 256), 1);
}

#[test]
fn fully_transparent_pixel_takes_darkest_glyph() {
    assert_eq!(palette_index(0, 0, true, 9), 0);
    assert_eq!(palette_index(255, 0, true, 9), 0);
    assert_eq!(palette_index(255, 0, false, 9), 8);
    let image = picture(2, 1, vec![gray(255, 0), gray(255, 255)]);
    assert_eq!(generate_text(&image, true), ".@");
    assert_eq!(generate_text(&image, false), "@@");
}

#[test]
fn image_to_text() {
    let clear = Rgba { r: 255, g: 255, b: 255, a: 0 };
    let image = picture(
        4,
        3,
        vec![
            clear, clear, clear, clear,
            clear, gray(255, 255), clear, clear,
            clear, clear, gray(128, 255), clear,
        ],
    );
    let asc = AsciiImage::builder(&image).include_alpha(true).build();
    let res = asc.generate_text_grayscale().unwrap();
    assert_eq!(res, "....\n.@..\n..*.");
}

#[test]
fn index_always_in_palette() {
    for len in [1usize, 2, 9, 100, 255, 256] {
        for lum in 0..=255u8 {
            for alpha in [0u8, 1, 2, 17, 128, 254, 255] {
                assert!(palette_index(lum, alpha, true, len) < len);
                assert!(palette_index(lum, alpha, false, len) < len);
            }
        }
    }
}

#[test]
fn index_monotonic_in_luminance() {
    for len in [2usize, 9, 256] {
        for alpha in [0u8, 1, 50, 255] {
            for lum in 0..255u8 {
                assert!(palette_index(lum, alpha, true, len) <= palette_index(lum + 1, alpha, true, len));
                assert!(palette_index(lum, alpha, false, len) <= palette_index(lum + 1, alpha, false, len));
            }
        }
    }
}

#[test]
fn generation_is_repeatable() {
    let pixels: Vec<Rgba> = (0..12u32).map(|i| gray((i * 21) as u8, (255 - i * 13) as u8)).collect();
    let image = picture(4, 3, pixels);
    let generator = TextGenerator::new(&image);
    let first = generator.generate();
    let second = generator.generate();
    assert_eq!(first, second);
    assert_eq!(first.chars().count(), 4 * 3 + 2);
}

#[test]
fn colour_luma_goes_through_weights() {
    // luma of pure red is 2126 * 255 / 10000 = 54; round(54 * 8 / 255) = 2
    let image = picture(3, 1, vec![
        Rgba { r: 255, g: 0, b: 0, a: 255 },
        Rgba { r: 0, g: 255, b: 0, a: 255 },
        Rgba { r: 0, g: 0, b: 255, a: 255 },
    ]);
    // green: 182 -> round(5.71) = 6; blue: 18 -> round(0.56) = 1
    assert_eq!(generate_text(&image, false), ":%,");
}

#[test]
fn text_generator_settings() {
    let image = picture(2, 1, vec![gray(255, 0), gray(128, 255)]);
    let mut generator = TextGenerator::new(&image);
    assert_eq!(generator.generate(), ".*");
    let text = generator.set_include_alpha(false).generate();
    assert_eq!(text, "@*");
    let mut other = TextGenerator::new(&image);
    let text = other.set_density_chars(&['a', 'b']).unwrap().generate();
    assert_eq!(text, "ab");
    let image = picture(1, 1, vec![gray(255, 0)]);
    let mut generator = TextGenerator::new(&image);
    assert_eq!(generator.generate(), ".");
    assert_eq!(generator.set_include_alpha(false).generate(), "@");
}

#[test]
fn builder_defaults() {
    let image = picture(2, 1, vec![gray(255, 0), gray(255, 255)]);
    let ascii = AsciiImage::builder(&image).build();
    assert_eq!(ascii.generate_text_grayscale(), Some(".@".to_string()));
    let ascii = AsciiImage::builder(&image).include_alpha(false).build();
    assert_eq!(ascii.generate_text_grayscale(), Some("@@".to_string()));
}

#[test]
fn builder_empty_palette_falls_back_to_default() {
    let image = picture(2, 1, vec![gray(0, 255), gray(255, 255)]);
    let ascii = AsciiImage::builder(&image).density_chars(vec![]).build();
    assert_eq!(ascii.generate_text_grayscale(), Some(".@".to_string()));
    let ascii = AsciiImage::builder(&image).density_chars(default_chars()).build();
    assert_eq!(ascii.generate_text_grayscale(), Some(".@".to_string()));
}

#[test]
fn builder_truncates_overlong_palette() {
    let image = picture(2, 1, vec![gray(0, 255), gray(255, 255)]);
    let chars: Vec<char> = (0..300u32).map(|i| char::from_u32(0x100 + i).unwrap()).collect();
    let ascii = AsciiImage::builder(&image).density_chars(chars.clone()).build();
    // 255 glyphs are kept: the brightest is the one at index 254
    let expected: String = [chars[0], chars[254]].iter().collect();
    assert_eq!(ascii.generate_text_grayscale(), Some(expected));
    ascii.generate_image_grayscale();
}

#[test]
fn builder_keeps_palette_of_256() {
    let image = picture(1, 1, vec![gray(255, 255)]);
    let chars: Vec<char> = (0..256u32).map(|i| char::from_u32(0x100 + i).unwrap()).collect();
    let ascii = AsciiImage::builder(&image).density_chars(chars.clone()).build();
    assert_eq!(ascii.generate_text_grayscale(), Some(chars[255].to_string()));
}
