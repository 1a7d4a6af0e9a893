use image_ascii::{
    compose_onto, GlyphPlacement, ImageGenerator, ImageGeneratorBackground,
    ImageGeneratorTextColor, Picture, Rgba,
};

fn gray(v: u8, a: u8) -> Rgba {
    Rgba { r: v, g: v, b: v, a }
}

fn picture(width: u32, height: u32, pixels: Vec<Rgba>) -> Picture {
    Picture::from_pixels(width, height, pixels).unwrap()
}

const RED: Rgba = Rgba { r: 255, g: 0, b: 0, a: 255 };
const BLUE: Rgba = Rgba { r: 0, g: 0, b: 255, a: 255 };

#[test]
fn default_layout() {
    let image = picture(2, 1, vec![gray(0, 255), gray(255, 255)]);
    let layout = ImageGenerator::new(&image).layout();
    assert_eq!(layout.canvas.width(), 48);
    assert_eq!(layout.canvas.height(), 24);
    assert_eq!(layout.canvas.get_pixel(47, 23), Rgba { r: 0, g: 0, b: 0, a: 255 });
    assert_eq!(layout.scale_x, 24);
    assert_eq!(layout.scale_y, 24);
    let white = Rgba { r: 255, g: 255, b: 255, a: 255 };
    assert_eq!(
        layout.glyphs,
        vec![
            GlyphPlacement { glyph: '.', x: 12, y: 0, color: white },
            GlyphPlacement { glyph: '@', x: 36, y: 0, color: white },
        ]
    );
}

#[test]
fn layout_places_rows_and_copies_colours() {
    let image = picture(
        2,
        2,
        vec![gray(0, 255), RED, gray(255, 255), BLUE],
    );
    let mut generator = ImageGenerator::new(&image);
    generator
        .set_scale_x(5)
        .set_scale_y(4)
        .set_text_color(ImageGeneratorTextColor::CopyFromImage);
    let layout = generator.layout();
    assert_eq!(layout.canvas.width(), 10);
    assert_eq!(layout.canvas.height(), 8);
    let placed: Vec<(char, u32, u32, Rgba)> =
        layout.glyphs.iter().map(|g| (g.glyph, g.x, g.y, g.color)).collect();
    assert_eq!(
        placed,
        vec![
            ('.', 2, 0, gray(0, 255)),
            (':', 7, 0, RED),
            ('@', 2, 4, gray(255, 255)),
            (',', 7, 4, BLUE),
        ]
    );
}

#[test]
fn layout_with_picture_background_starts_transparent() {
    let image = picture(1, 1, vec![gray(255, 255)]);
    let background = picture(3, 3, vec![BLUE; 9]);
    let mut generator = ImageGenerator::new(&image);
    generator
        .set_scale_x(2)
        .set_scale_y(2)
        .set_background(ImageGeneratorBackground::Image(&background))
        .set_text_color(ImageGeneratorTextColor::Color(RED));
    let layout = generator.layout();
    assert_eq!(layout.canvas.len(), 4);
    for y in 0..2 {
        for x in 0..2 {
            assert_eq!(layout.canvas.get_pixel(x, y), Rgba { r: 0, g: 0, b: 0, a: 0 });
        }
    }
    assert_eq!(layout.glyphs, vec![GlyphPlacement { glyph: '@', x: 1, y: 0, color: RED }]);
}

#[test]
fn layout_settings() {
    let image = picture(2, 1, vec![gray(0, 255), gray(255, 0)]);
    let mut generator = ImageGenerator::new(&image);
    assert!(generator.set_density_chars(&[]).is_none());
    generator.set_density_chars(&['a', 'b']).unwrap();
    generator.include_alpha(false);
    generator.set_background(ImageGeneratorBackground::Color(RED));
    let layout = generator.layout();
    assert_eq!(layout.glyphs[0].glyph, 'a');
    assert_eq!(layout.glyphs[1].glyph, 'b');
    assert_eq!(layout.canvas.get_pixel(0, 0), RED);
    let mut generator = ImageGenerator::new(&image);
    generator.set_density_chars(&['a', 'b']).unwrap();
    let layout = generator.layout();
    // alpha weighting: the fully transparent pixel takes the darkest glyph
    assert_eq!(layout.glyphs[1].glyph, 'a');
}

#[test]
fn solid_background_keeps_the_canvas() {
    let image = picture(1, 1, vec![gray(0, 255)]);
    let drawn = picture(2, 1, vec![RED, BLUE]);
    let result = ImageGenerator::new(&image).generate(&drawn);
    assert_eq!(result.to_raw(), drawn.to_raw());
}

#[test]
fn picture_background_sets_the_size() {
    let image = picture(1, 1, vec![gray(0, 255)]);
    let background = picture(5, 3, vec![BLUE; 15]);
    let drawn = picture(2, 2, vec![RED; 4]);
    let mut generator = ImageGenerator::new(&image);
    generator.set_background(ImageGeneratorBackground::Image(&background));
    let result = generator.generate(&drawn);
    assert_eq!(result.width(), 5);
    assert_eq!(result.height(), 3);
    // an opaque canvas covers the background wherever it is resampled to
    assert_eq!(result.get_pixel(2, 1), RED);
    assert_eq!(result.get_pixel(0, 0), RED);
}

#[test]
fn transparent_canvas_leaves_background() {
    let background = picture(4, 4, vec![BLUE; 16]);
    let drawn = picture(3, 2, vec![Rgba { r: 0, g: 0, b: 0, a: 0 }; 6]);
    let result = compose_onto(&drawn, &background);
    assert_eq!(result.width(), 4);
    assert_eq!(result.height(), 4);
    assert_eq!(result.get_pixel(3, 3), BLUE);
}

#[test]
fn empty_canvas_leaves_background() {
    let background = picture(2, 2, vec![BLUE; 4]);
    let drawn = picture(0, 0, vec![]);
    let result = compose_onto(&drawn, &background);
    assert_eq!(result.to_raw(), background.to_raw());
}

#[test]
fn raw_round_trip() {
    let p = picture(2, 1, vec![RED, gray(7, 9)]);
    let raw = p.to_raw();
    assert_eq!(raw, vec![255, 0, 0, 255, 7, 7, 7, 9]);
    let q = Picture::from_raw(2, 1, &raw).unwrap();
    assert_eq!(q.get_pixel(1, 0), gray(7, 9));
    assert!(Picture::from_raw(2, 2, &raw).is_none());
    assert!(Picture::from_pixels(3, 1, vec![RED]).is_none());
    let f = Picture::filled(3, 2, BLUE);
    assert_eq!(f.len(), 6);
    assert_eq!(f.get_pixel(2, 1), BLUE);
}
