//! Decorative framing of screenshots.
//!
//! An image is modelled as a row-major matrix of RGBA pixels, as plain
//! values; decoding to and from an image file format happens in the
//! shell. [`add_kawaii_frame`] surrounds a picture with a 20-pixel pink
//! border.

use vstd::prelude::*;

use crate::errors::ConfigurationError;

verus! {

/// The width of the frame, in pixels.
pub const FRAME_BORDER: usize = 20;

/// The frame's colour: pink, fully opaque.
pub const FRAME_RED: u8 = 255;

/// The frame's green component.
pub const FRAME_GREEN: u8 = 183;

/// The frame's blue component.
pub const FRAME_BLUE: u8 = 197;

/// A picture as a row-major matrix of RGBA pixels.
pub struct PixelImage {
    width: usize,
    height: usize,
    pixels: Vec<(u8, u8, u8, u8)>,
}

impl PixelImage {
    /// The picture's width.
    pub closed spec fn width_spec(&self) -> nat {
        self.width as nat
    }

    /// The picture's height.
    pub closed spec fn height_spec(&self) -> nat {
        self.height as nat
    }

    /// The pixel at column `x`, row `y`.
    pub closed spec fn pixel_spec(&self, x: int, y: int) -> (u8, u8, u8, u8) {
        self.pixels@[y * self.width + x]
    }

    /// One pixel for every cell of the matrix.
    pub closed spec fn wf(&self) -> bool {
        self.pixels@.len() == self.width * self.height
    }

    /// Assembles a picture from its dimensions and row-major pixels. A
    /// pixel count that does not match the dimensions is a configuration
    /// error.
    pub fn from_pixels(width: usize, height: usize, pixels: Vec<(u8, u8, u8, u8)>) -> (r: Result<
        PixelImage,
        ConfigurationError,
    >)
        ensures
            r is Err <==> pixels@.len() != width * height,
            (r matches Ok(img) ==> {
                &&& img.wf()
                &&& img.width_spec() == width
                &&& img.height_spec() == height
                &&& (forall|x: int, y: int|
                    0 <= x < width && 0 <= y < height ==> img.pixel_spec(x, y) == pixels@[y * width
                        + x])
            }),
    {
        let expected = width.checked_mul(height);
        match expected {
            Some(n) => {
                if pixels.len() != n {
                    Err(ConfigurationError)
                } else {
                    Ok(PixelImage { width, height, pixels })
                }
            },
            None => {
                proof {
                    assert(pixels@.len() == pixels.len());
                }
                Err(ConfigurationError)
            },
        }
    }

    /// The picture's width.
    pub fn width(&self) -> (w: usize)
        ensures
            w == self.width_spec(),
    {
        self.width
    }

    /// The picture's height.
    pub fn height(&self) -> (h: usize)
        ensures
            h == self.height_spec(),
    {
        self.height
    }

    /// The pixel at column `x`, row `y`.
    pub fn pixel(&self, x: usize, y: usize) -> (p: (u8, u8, u8, u8))
        requires
            self.wf(),
            x < self.width_spec(),
            y < self.height_spec(),
        ensures
            p == self.pixel_spec(x as int, y as int),
    {
        proof {
            assert(self.pixels@.len() == self.pixels.len());
            lemma_row_major_in_bounds(
                self.width_spec(),
                self.height_spec(),
                x as int,
                y as int,
            );
        }
        let idx = y * self.width + x;
        self.pixels[idx]
    }
}

/// What the framed picture shows at `(x, y)`: the pink border on the
/// outer 20 pixels, the original picture shifted inwards elsewhere.
pub open spec fn framed_pixel(original: &PixelImage, x: int, y: int) -> (u8, u8, u8, u8) {
    if x < FRAME_BORDER || x >= original.width_spec() + FRAME_BORDER || y < FRAME_BORDER || y
        >= original.height_spec() + FRAME_BORDER {
        (FRAME_RED, FRAME_GREEN, FRAME_BLUE, 255u8)
    } else {
        original.pixel_spec(x - FRAME_BORDER, y - FRAME_BORDER)
    }
}

/// A cell's row-major index lies inside the matrix.
proof fn lemma_row_major_in_bounds(w: nat, h: nat, x: int, y: int)
    requires
        0 <= x < w,
        0 <= y < h,
    ensures
        0 <= y * w + x < w * h,
        y * w + x < w * h,
{
    assert(y * w + x < w * h) by (nonlinear_arith)
        requires
            0 <= x < w,
            0 <= y < h,
    ;
    assert(y * w + x >= 0) by (nonlinear_arith)
        requires
            0 <= x,
            0 <= y,
            w >= 0,
    ;
}

/// Surrounds `original` with a 20-pixel pink border on every side. The
/// result is 40 pixels wider and taller; the border cells are pink and
/// every inner cell shows the original picture, unmoved relative to the
/// border.
pub fn add_kawaii_frame(original: &PixelImage) -> (framed: Result<PixelImage, ConfigurationError>)
    requires
        original.wf(),
    ensures
        (framed matches Ok(img) ==> {
            &&& img.wf()
            &&& img.width_spec() == original.width_spec() + 2 * FRAME_BORDER
            &&& img.height_spec() == original.height_spec() + 2 * FRAME_BORDER
            &&& (forall|x: int, y: int|
                0 <= x < img.width_spec() && 0 <= y < img.height_spec() ==> img.pixel_spec(x, y)
                    == framed_pixel(original, x, y))
        }),
    {
    let border = FRAME_BORDER;
    let w = match original.width.checked_add(2 * border) {
        Some(w) => w,
        None => {
            return Err(ConfigurationError);
        },
    };
    let h = match original.height.checked_add(2 * border) {
        Some(h) => h,
        None => {
            return Err(ConfigurationError);
        },
    };
    if w.checked_mul(h).is_none() {
        return Err(ConfigurationError);
    }
    let mut pixels: Vec<(u8, u8, u8, u8)> = Vec::new();
    let mut y: usize = 0;
    while y < h
        invariant
            original.wf(),
            border == FRAME_BORDER,
            w == original.width_spec() + 2 * FRAME_BORDER,
            h == original.height_spec() + 2 * FRAME_BORDER,
            w * h <= usize::MAX,
            y <= h,
            pixels@.len() == y * w,
            forall|xx: int, yy: int|
                0 <= xx < w && 0 <= yy < y ==> pixels@[yy * w + xx] == framed_pixel(
                    original,
                    xx,
                    yy,
                ),
        decreases h - y,
    {
        let mut x: usize = 0;
        while x < w
            invariant
                original.wf(),
                border == FRAME_BORDER,
                w == original.width_spec() + 2 * FRAME_BORDER,
                h == original.height_spec() + 2 * FRAME_BORDER,
                w * h <= usize::MAX,
                y < h,
                x <= w,
                pixels@.len() == y * w + x,
                forall|xx: int, yy: int|
                    0 <= xx < w && 0 <= yy < y ==> pixels@[yy * w + xx] == framed_pixel(
                        original,
                        xx,
                        yy,
                    ),
                forall|xx: int| 0 <= xx < x ==> pixels@[y * w + xx] == framed_pixel(
                    original,
                    xx,
                    y as int,
                ),
            decreases w - x,
        {
            let p = if x < border || x >= original.width + border || y < border || y
                >= original.height + border {
                (FRAME_RED, FRAME_GREEN, FRAME_BLUE, 255u8)
            } else {
                original.pixel(x - border, y - border)
            };
            proof {
                lemma_row_major_in_bounds(w as nat, h as nat, x as int, y as int);
            }
            let ghost pre = pixels@;
            pixels.push(p);
            proof {
                assert(pixels@ == pre.push(p));
                assert forall|xx: int, yy: int|
                    0 <= xx < w && 0 <= yy < y implies pixels@[yy * w + xx] == framed_pixel(
                    original,
                    xx,
                    yy,
                ) by {
                    assert(yy * w + xx < y * w) by (nonlinear_arith)
                        requires
                            0 <= xx < w,
                            0 <= yy < y,
                    ;
                    assert(pixels@[yy * w + xx] == pre[yy * w + xx]);
                }
                assert forall|xx: int|
                    0 <= xx < x + 1 implies pixels@[y as int * w + xx] == framed_pixel(
                    original,
                    xx,
                    y as int,
                ) by {
                    if xx < x {
                        assert(pixels@[y as int * w + xx] == pre[y as int * w + xx]);
                    } else {
                        assert(pixels@[y as int * w + xx] == p);
                    }
                }
            }
            x = x + 1;
        }
        proof {
            assert((y + 1) * w == y * w + w) by (nonlinear_arith);
            assert forall|xx: int, yy: int|
                0 <= xx < w && 0 <= yy < y + 1 implies pixels@[yy * w + xx] == framed_pixel(
                original,
                xx,
                yy,
            ) by {
                if yy == y as int {
                    assert(pixels@[y as int * w + xx] == framed_pixel(original, xx, y as int));
                }
            }
        }
        y = y + 1;
    }
    proof {
        assert(pixels@.len() == h * w);
        assert(h * w == w * h) by (nonlinear_arith);
    }
    Ok(PixelImage { width: w, height: h, pixels })
}

} // verus!
