//! One-bit bitmaps: built from raw row-major pixels or rasterized from text.
use vstd::prelude::*;
use vstd::string::StrSliceExecFns;
use vstd::arithmetic::div_mod::lemma_fundamental_div_mod_converse;
use crate::font::{FontFace, FontSpec};
use embedded_graphics::geometry::Point;
use embedded_graphics::mock_display::MockDisplay;
use embedded_graphics::mono_font::iso_8859_1::{FONT_5X8, FONT_6X9};
use embedded_graphics::mono_font::MonoTextStyle;
use embedded_graphics::pixelcolor::BinaryColor;
use embedded_graphics::text::{Baseline, Text};

verus! {

/// A rectangle of pixels that are on or off, stored row by row.
#[derive(Clone, Debug, PartialEq, Eq)]
pub struct Bitmap {
    pub width: usize,
    pub height: usize,
    /// Display row on which row 0 of the bitmap is shown.
    pub top: usize,
    /// `pixels[y * width + x]` is the pixel at column `x` of row `y`.
    pub pixels: Vec<bool>,
}

impl Bitmap {
    /// The pixels fill the rectangle exactly, and it is addressable.
    pub open spec fn wf(&self) -> bool {
        &&& self.pixels@.len() == self.width * self.height
        &&& self.width * self.height <= usize::MAX
    }

    /// The pixel at column `x` of row `y`.
    pub open spec fn lit(&self, x: int, y: int) -> bool {
        self.pixels@[y * self.width + x]
    }

    /// Whether the pixel at column `x` of row `y` is on; off outside the bitmap.
    pub fn is_on(&self, x: usize, y: usize) -> (r: bool)
        requires
            self.wf(),
        ensures
            r == (x < self.width && y < self.height && self.lit(x as int, y as int)),
    {
        if x < self.width && y < self.height {
            proof {
                lemma_index_in_grid(x as int, y as int, self.width as int, self.height as int);
            }
            self.pixels[y * self.width + x]
        } else {
            false
        }
    }
}

/// `y * w + x` lies in a `w` by `h` grid and splits back into `x` and `y`.
proof fn lemma_index_in_grid(x: int, y: int, w: int, h: int)
    requires
        0 <= x < w,
        0 <= y < h,
    ensures
        0 <= y * w + x < w * h,
        (y * w + x) % w == x,
        (y * w + x) / w == y,
{
    assert(y * w + x < w * h) by (nonlinear_arith)
        requires 0 <= x < w, 0 <= y < h;
    assert(0 <= y * w) by (nonlinear_arith)
        requires 0 <= x < w, 0 <= y < h;
    lemma_fundamental_div_mod_converse(y * w + x, w, y, x);
}

/// The linear index `k` of a `w` by `h` grid splits into a column and a row
/// inside the grid.
proof fn lemma_split_index(k: int, w: int, h: int)
    requires
        0 <= k < w * h,
        w > 0,
    ensures
        0 <= k % w < w,
        0 <= k / w < h,
{
    assert(k / w < h) by {
        if k / w >= h {
            assert((k / w) * w >= h * w) by (nonlinear_arith)
                requires k / w >= h, w > 0;
            assert(k >= (k / w) * w) by (nonlinear_arith)
                requires w > 0, k >= 0;
            assert(false) by (nonlinear_arith)
                requires k >= h * w, k < w * h;
        }
    }
}

/// Number of rows that `len` row-major pixels fill at `width` pixels a row.
pub open spec fn rows_for(len: int, width: int) -> int {
    (len + width - 1) / width
}

/// `b` holds `pixels` row by row at `width` pixels a row, the last row padded
/// with pixels that are off.
pub open spec fn is_pixel_grid(b: Bitmap, pixels: Seq<bool>, width: int) -> bool {
    &&& b.wf()
    &&& b.width == width
    &&& b.top == 0
    &&& b.height == rows_for(pixels.len() as int, width)
    &&& forall|x: int, y: int|
        0 <= x < b.width && 0 <= y < b.height ==> #[trigger] b.lit(x, y) == (y * width + x
            < pixels.len() && pixels[y * width + x])
}

/// Wraps row-major pixels into a bitmap of the given width. Entry `i` becomes
/// the pixel at column `i % width` of row `i / width`; the last row is padded
/// with pixels that are off. The bitmap is shown from the top display row.
pub fn from_pixels(pixels: &Vec<bool>, width: usize) -> (r: Bitmap)
    requires
        width > 0,
        pixels@.len() + width <= usize::MAX,
    ensures
        is_pixel_grid(r, pixels@, width as int),
{
    let len = pixels.len();
    let height: usize = (len + width - 1) / width;
    proof {
        let h = height as int;
        let w = width as int;
        let l = len as int;
        assert(h * w <= l + w - 1) by (nonlinear_arith)
            requires h == (l + w - 1) / w, w > 0, l >= 0;
        assert(h * w >= l) by (nonlinear_arith)
            requires h == (l + w - 1) / w, w > 0, l >= 0;
    }
    let total: usize = width * height;
    let mut out: Vec<bool> = Vec::new();
    let mut k: usize = 0;
    while k < total
        invariant
            total == width * height,
            len == pixels@.len(),
            k <= total,
            out@.len() == k,
            forall|j: int| 0 <= j < k ==> out@[j] == (j < len && pixels@[j]),
        decreases total - k,
    {
        if k < len {
            out.push(pixels[k]);
        } else {
            out.push(false);
        }
        k = k + 1;
    }
    let r = Bitmap { width, height, top: 0, pixels: out };
    assert forall|x: int, y: int| 0 <= x < r.width && 0 <= y < r.height implies #[trigger] r.lit(
        x,
        y,
    ) == (y * width + x < pixels@.len() && pixels@[y * width + x]) by {
        lemma_index_in_grid(x, y, width as int, height as int);
    }
    r
}

/// Whether pixel (`x`, `y`) of the glyph for `c` in `face` is drawn in the
/// text colour, as embedded-graphics renders that face.
pub uninterp spec fn glyph_ink(face: FontFace, c: char, x: int, y: int) -> bool;

/// Relies on embedded-graphics' `Text` drawn with a `MonoTextStyle` of the face
/// into a `MockDisplay` (its in-memory 64 by 64 canvas): which pixels of the
/// cell of `c` it lights. Characters
/// outside the face's range are drawn with its replacement glyph.
#[verifier::external_body]
fn glyph_pixel(face: FontFace, c: char, x: u32, y: u32) -> (r: bool)
    requires
        x < face.spec_cell_width(),
        y < face.spec_cell_height(),
    ensures
        r == glyph_ink(face, c, x as int, y as int),
{
    let font = match face {
        FontFace::Mono5x8 => &FONT_5X8,
        FontFace::Mono6x9 => &FONT_6X9,
    };
    let mut utf8 = [0u8; 4];
    let style = MonoTextStyle::new(font, BinaryColor::On);
    let glyph = Text::with_baseline(c.encode_utf8(&mut utf8), Point::zero(), style, Baseline::Top);
    let mut display: MockDisplay<BinaryColor> = MockDisplay::new();
    let _ = embedded_graphics::Drawable::draw(&glyph, &mut display);
    display.get_pixel(Point::new(x as i32, y as i32)) == Some(BinaryColor::On)
}

/// The pixel at column `x` of row `y` of `text` rendered in `face`: the glyph's
/// ink, swapped with the background where `invert` holds.
pub open spec fn text_pixel(face: FontFace, text: Seq<char>, invert: bool, x: int, y: int) -> bool {
    let cw = face.spec_cell_width();
    glyph_ink(face, text[x / cw], x % cw, y) != invert
}

/// Whether `text` rendered in `face` fits in memory.
pub open spec fn raster_fits(text: Seq<char>, face: FontFace) -> bool {
    text.len() * face.spec_cell_width() * face.spec_cell_height() <= usize::MAX
}

/// `b` is `text` rendered in `face`: one glyph cell high, one cell wide per
/// character, each pixel as `text_pixel` gives it.
pub open spec fn is_text_raster(b: Bitmap, text: Seq<char>, face: FontFace, invert: bool) -> bool {
    &&& b.wf()
    &&& b.width == text.len() * face.spec_cell_width()
    &&& b.height == face.spec_cell_height()
    &&& b.top == face.spec_baseline_row() - face.spec_glyph_baseline()
    &&& forall|x: int, y: int|
        0 <= x < b.width && 0 <= y < b.height ==> #[trigger] b.lit(x, y) == text_pixel(
            face,
            text,
            invert,
            x,
            y,
        )
}

/// Renders `text` left to right in one line. The bitmap is one glyph cell high
/// and as wide as the glyph advances together; every pixel of it is drawn,
/// background included, and `invert` swaps the two colours of the whole bitmap.
/// An empty text gives a bitmap of width zero. The bitmap is placed on the
/// display from the font's top row, so that every font ends on the same row.
pub fn rasterize(text: &str, font: FontSpec, invert: bool) -> (r: Bitmap)
    requires
        font.wf(),
        raster_fits(text@, font.face),
    ensures
        is_text_raster(r, text@, font.face, invert),
        text@.len() == 0 ==> r.width == 0,
{
    let n = text.unicode_len();
    let mut chars: Vec<char> = Vec::new();
    let mut i: usize = 0;
    while i < n
        invariant
            n == text@.len(),
            i <= n,
            chars@ == text@.subrange(0, i as int),
        decreases n - i,
    {
        chars.push(text.get_char(i));
        i = i + 1;
    }
    assert(chars@ =~= text@);
    let cw = font.cell_width as usize;
    let ch = font.cell_height as usize;
    proof {
        assert(n * cw <= n * cw * ch) by (nonlinear_arith)
            requires ch >= 1;
    }
    let width: usize = n * cw;
    let total: usize = width * ch;
    let mut out: Vec<bool> = Vec::new();
    let mut k: usize = 0;
    while k < total
        invariant
            font.wf(),
            chars@ == text@,
            cw == font.cell_width,
            ch == font.cell_height,
            width == n * cw,
            n == text@.len(),
            total == width * ch,
            k <= total,
            out@.len() == k,
            forall|j: int|
                0 <= j < k ==> out@[j] == text_pixel(
                    font.face,
                    text@,
                    invert,
                    j % (width as int),
                    j / (width as int),
                ),
        decreases total - k,
    {
        proof {
            let kk = k as int;
            let w = width as int;
            let c = cw as int;
            lemma_split_index(kk, w, ch as int);
            assert((kk % w) / c < n) by (nonlinear_arith)
                requires
                    0 <= kk % w < w,
                    w == n * c,
                    c > 0;
        }
        let x = k % width;
        let y = k / width;
        let ink = glyph_pixel(font.face, chars[x / cw], (x % cw) as u32, y as u32);
        out.push(ink != invert);
        k = k + 1;
    }
    let r = Bitmap { width, height: ch, top: font.top_row as usize, pixels: out };
    assert forall|x: int, y: int| 0 <= x < r.width && 0 <= y < r.height implies #[trigger] r.lit(
        x,
        y,
    ) == text_pixel(font.face, text@, invert, x, y) by {
        lemma_index_in_grid(x, y, width as int, ch as int);
    }
    r
}

} // verus!
