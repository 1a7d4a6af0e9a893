//! A picture held as plain RGBA values, row by row.

use vstd::prelude::*;

verus! {

/// One pixel: red, green, blue and alpha, eight bits each.
#[derive(Clone, Copy, Debug, PartialEq, Eq, Structural)]
pub struct Rgba {
    pub r: u8,
    pub g: u8,
    pub b: u8,
    pub a: u8,
}

/// What a picture is: its dimensions and its pixels, row-major.
pub ghost struct PictureView {
    pub width: nat,
    pub height: nat,
    pub pixels: Seq<Rgba>,
}

impl PictureView {
    /// The pixel at column `x` of row `y`.
    pub open spec fn pixel(self, x: int, y: int) -> Rgba {
        self.pixels[y * self.width + x]
    }
}

/// The channel `k` (0 red, 1 green, 2 blue, 3 alpha) of a pixel.
pub open spec fn channel(p: Rgba, k: int) -> u8 {
    if k == 0 {
        p.r
    } else if k == 1 {
        p.g
    } else if k == 2 {
        p.b
    } else {
        p.a
    }
}

/// The pixels as bytes, four to a pixel, in the order red, green, blue, alpha.
pub open spec fn raw_of(pixels: Seq<Rgba>) -> Seq<u8> {
    Seq::new(4 * pixels.len(), |i: int| channel(pixels[i / 4], i % 4))
}

/// A picture of `width` by `height` RGBA pixels.
#[derive(Debug)]
pub struct Picture {
    width: u32,
    height: u32,
    pixels: Vec<Rgba>,
}

impl View for Picture {
    type V = PictureView;

    closed spec fn view(&self) -> PictureView {
        PictureView { width: self.width as nat, height: self.height as nat, pixels: self.pixels@ }
    }
}

/// Two `u32` values multiply within `u64`.
pub proof fn lemma_u32_product(a: u32, b: u32)
    ensures
        a * b <= u64::MAX,
{
    assert(a * b <= 0xffff_ffffu64 * 0xffff_ffffu64) by (nonlinear_arith)
        requires
            a <= 0xffff_ffffu64,
            b <= 0xffff_ffffu64,
    ;
}

impl Picture {
    #[verifier::type_invariant]
    spec fn inv(&self) -> bool {
        self.pixels@.len() == self.width * self.height
    }

    /// Builds a picture from its pixels, row-major; `None` when their number is not
    /// `width * height`.
    pub fn from_pixels(width: u32, height: u32, pixels: Vec<Rgba>) -> (r: Option<Picture>)
        ensures
            r is Some <==> pixels@.len() == width * height,
            r is Some ==> r->0@ == (PictureView { width: width as nat, height: height as nat, pixels: pixels@ }),
    {
        proof {
            lemma_u32_product(width, height);
        }
        let n: u64 = width as u64 * height as u64;
        if pixels.len() as u64 == n {
            Some(Picture { width, height, pixels })
        } else {
            None
        }
    }

    /// A picture whose every pixel is `color`.
    pub fn filled(width: u32, height: u32, color: Rgba) -> (r: Picture)
        requires
            width * height <= usize::MAX,
        ensures
            r@.width == width,
            r@.height == height,
            r@.pixels == Seq::new((width * height) as nat, |i: int| color),
    {
        let n: usize = (width as u64 * height as u64) as usize;
        let mut pixels: Vec<Rgba> = Vec::new();
        let mut i: usize = 0;
        while i < n
            invariant
                i <= n,
                pixels@ =~= Seq::new(i as nat, |k: int| color),
            decreases n - i,
        {
            pixels.push(color);
            i += 1;
        }
        assert(pixels@ =~= Seq::new((width * height) as nat, |k: int| color));
        Picture { width, height, pixels }
    }

    pub fn width(&self) -> (r: u32)
        ensures
            r == self@.width,
    {
        self.width
    }

    pub fn height(&self) -> (r: u32)
        ensures
            r == self@.height,
    {
        self.height
    }

    /// The number of pixels, `width * height`.
    pub fn len(&self) -> (r: usize)
        ensures
            r == self@.pixels.len(),
            r == self@.width * self@.height,
    {
        proof {
            use_type_invariant(self);
        }
        self.pixels.len()
    }

    /// The pixel at column `x` of row `y`.
    pub fn get_pixel(&self, x: u32, y: u32) -> (r: Rgba)
        requires
            x < self@.width,
            y < self@.height,
        ensures
            r == self@.pixel(x as int, y as int),
    {
        proof {
            use_type_invariant(self);
            let (w, h) = (self.width as int, self.height as int);
            assert(y * w + x < w * h) by (nonlinear_arith)
                requires
                    0 <= x < w,
                    0 <= y < h,
            ;
        }
        let n: usize = self.pixels.len();
        assert(y * self.width + x < n);
        let i: usize = y as usize * self.width as usize + x as usize;
        self.pixels[i]
    }

    /// The pixels as bytes, four to a pixel.
    pub fn to_raw(&self) -> (r: Vec<u8>)
        ensures
            r@ == raw_of(self@.pixels),
    {
        let mut out: Vec<u8> = Vec::new();
        let mut i: usize = 0;
        while i < self.pixels.len()
            invariant
                i <= self.pixels@.len(),
                out@.len() == 4 * i,
                forall|k: int| 0 <= k < 4 * i ==> out@[k] == #[trigger] channel(self.pixels@[k / 4], k % 4),
            decreases self.pixels@.len() - i,
        {
            let p = self.pixels[i];
            out.push(p.r);
            out.push(p.g);
            out.push(p.b);
            out.push(p.a);
            proof {
                assert forall|k: int| 4 * i <= k < 4 * i + 4 implies out@[k] == #[trigger] channel(self.pixels@[k / 4], k % 4) by {
                    assert(k / 4 == i && k % 4 == k - 4 * i);
                }
            }
            i += 1;
        }
        assert(out@ =~= raw_of(self@.pixels));
        out
    }

    /// Reads a picture from bytes, four to a pixel; `None` when their number is not
    /// `4 * width * height`.
    pub fn from_raw(width: u32, height: u32, raw: &Vec<u8>) -> (r: Option<Picture>)
        ensures
            r is Some <==> raw@.len() == 4 * (width * height),
            r is Some ==> r->0@.width == width && r->0@.height == height && raw_of(r->0@.pixels) == raw@,
    {
        proof {
            lemma_u32_product(width, height);
        }
        let n: u64 = width as u64 * height as u64;
        if raw.len() % 4 != 0 || raw.len() as u64 / 4 != n {
            return None;
        }
        let len: usize = raw.len();
        let count: usize = len / 4;
        assert(4 * count == raw@.len());
        let mut pixels: Vec<Rgba> = Vec::new();
        let mut i: usize = 0;
        while i < count
            invariant
                4 * count == raw@.len(),
                len == raw@.len(),
                i <= count,
                pixels@.len() == i,
                forall|k: int| 0 <= k < 4 * i ==> raw@[k] == #[trigger] channel(pixels@[k / 4], k % 4),
            decreases count - i,
        {
            let p = Rgba { r: raw[4 * i], g: raw[4 * i + 1], b: raw[4 * i + 2], a: raw[4 * i + 3] };
            pixels.push(p);
            proof {
                assert forall|k: int| 0 <= k < 4 * i + 4 implies raw@[k] == #[trigger] channel(pixels@[k / 4], k % 4) by {
                    if k >= 4 * i {
                        assert(k / 4 == i && k % 4 == k - 4 * i);
                    }
                }
            }
            i += 1;
        }
        assert(raw_of(pixels@) =~= raw@);
        Some(Picture { width, height, pixels })
    }
}

impl Clone for Picture {
    fn clone(&self) -> (r: Picture)
        ensures
            r@ == self@,
    {
        proof {
            use_type_invariant(self);
        }
        let pixels = self.pixels.clone();
        assert(pixels@ =~= self.pixels@);
        Picture { width: self.width, height: self.height, pixels }
    }
}

} // verus!
