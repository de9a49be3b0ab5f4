use vstd::prelude::*;

verus! {

/// The pixel bounding box of a laid-out glyph.
#[derive(PartialEq, Eq, Structural, Clone, Copy, Debug)]
pub struct GlyphBox {
    pub min_x: i32,
    pub min_y: i32,
    pub max_x: i32,
    pub max_y: i32,
}

/// The largest right edge of the glyphs that have a box, and 0 if none is
/// larger.
pub open spec fn spec_max_x(boxes: Seq<Option<GlyphBox>>) -> int
    decreases boxes.len(),
{
    if boxes.len() == 0 {
        0
    } else {
        let rest = spec_max_x(boxes.drop_last());
        match boxes.last() {
            Some(b) => if b.max_x > rest {
                b.max_x as int
            } else {
                rest
            },
            None => rest,
        }
    }
}

/// The largest bottom edge of the glyphs that have a box, and 0 if none is
/// larger.
pub open spec fn spec_max_y(boxes: Seq<Option<GlyphBox>>) -> int
    decreases boxes.len(),
{
    if boxes.len() == 0 {
        0
    } else {
        let rest = spec_max_y(boxes.drop_last());
        match boxes.last() {
            Some(b) => if b.max_y > rest {
                b.max_y as int
            } else {
                rest
            },
            None => rest,
        }
    }
}

proof fn lemma_max_bounds(boxes: Seq<Option<GlyphBox>>)
    ensures
        0 <= spec_max_x(boxes) <= i32::MAX,
        0 <= spec_max_y(boxes) <= i32::MAX,
    decreases boxes.len(),
{
    if boxes.len() > 0 {
        lemma_max_bounds(boxes.drop_last());
    }
}

/// The width and height of the image a text is drawn into, given the boxes
/// of its glyphs (`None` for a glyph without one, such as a space): the
/// largest right and bottom edges, at least 0, with a margin of 5 pixels.
pub fn text_image_size(boxes: &Vec<Option<GlyphBox>>) -> (r: (i32, i32))
    requires
        spec_max_x(boxes@) + 5 <= i32::MAX,
        spec_max_y(boxes@) + 5 <= i32::MAX,
    ensures
        r.0 == spec_max_x(boxes@) + 5,
        r.1 == spec_max_y(boxes@) + 5,
{
    let mut max_x: i32 = 0;
    let mut max_y: i32 = 0;
    let mut i: usize = 0;
    while i < boxes.len()
        invariant
            0 <= i <= boxes@.len(),
            max_x == spec_max_x(boxes@.take(i as int)),
            max_y == spec_max_y(boxes@.take(i as int)),
        decreases boxes.len() - i,
    {
        proof {
            assert(boxes@.take(i + 1).drop_last() =~= boxes@.take(i as int));
        }
        match boxes[i] {
            Some(b) => {
                if b.max_x > max_x {
                    max_x = b.max_x;
                }
                if b.max_y > max_y {
                    max_y = b.max_y;
                }
            },
            None => {},
        }
        i = i + 1;
    }
    assert(boxes@.take(boxes.len() as int) =~= boxes@);
    (max_x + 5, max_y + 5)
}

/// An image of `width` by `height` RGBA pixels, every one the background
/// color `bg` (each channel kept to its low byte).
pub fn blank_text_image(width: i32, height: i32, bg: [u32; 4]) -> (img: Vec<u8>)
    requires
        0 <= width,
        0 <= height,
        width * height <= i32::MAX,
        width * height * 4 <= usize::MAX,
    ensures
        img@.len() == width * height * 4,
        forall|i: int| 0 <= i < img@.len() ==> #[trigger] img@[i] == bg[i % 4] as u8,
{
    let pixels: i32 = width * height;
    let bytes_count: usize = (pixels as usize) * 4;
    let mut img: Vec<u8> = Vec::new();
    let mut i: usize = 0;
    while i < bytes_count
        invariant
            0 <= i <= bytes_count,
            bytes_count == width * height * 4,
            img@.len() == i,
            forall|j: int| 0 <= j < i ==> #[trigger] img@[j] == bg[j % 4] as u8,
        decreases bytes_count - i,
    {
        let c: usize = i & 3;
        assert(c == i % 4) by (bit_vector)
            requires
                c == i & 3,
        ;
        img.push(bg[c] as u8);
        i = i + 1;
    }
    img
}

/// One channel of a glyph pixel: the background `bg` and the text color
/// `fg` mixed by the glyph's coverage `v` out of 255, divided by 256 and
/// kept to its low byte.
pub open spec fn spec_blend(bg: u32, fg: u32, v: u32) -> u8 {
    (((bg * (255 - v) + fg * v) / 256) % 256) as u8
}

/// Whether blending a channel of `bg` and `fg` at coverage `v` fits in 32
/// bits.
pub open spec fn blend_fits(bg: u32, fg: u32, v: u32) -> bool {
    v <= 255 && bg * (255 - v) + fg * v <= u32::MAX
}

fn blend(bg: u32, fg: u32, v: u32) -> (r: u8)
    requires
        blend_fits(bg, fg, v),
    ensures
        r == spec_blend(bg, fg, v),
{
    let inv: u32 = 255 - v;
    assert(bg * inv <= u32::MAX && fg * v <= u32::MAX) by (nonlinear_arith)
        requires
            bg * inv + fg * v <= u32::MAX,
            0 <= bg,
            0 <= inv,
            0 <= fg,
            0 <= v,
    ;
    let a: u32 = bg * inv;
    let b: u32 = fg * v;
    let s: u32 = a + b;
    let t: u32 = s >> 8;
    assert(t == s / 256) by (bit_vector)
        requires
            t == s >> 8,
    ;
    let r: u8 = t as u8;
    assert(r == t % 256) by (bit_vector)
        requires
            r == t as u8,
    ;
    r
}

/// Draws one pixel of a glyph into the text image `img` of `width` pixels a
/// row: the pixel at column `x` and row `y` becomes the background `bg`
/// and the text color `fg` mixed by the glyph's coverage `v` out of 255.
pub fn blend_glyph_pixel(img: &mut Vec<u8>, width: usize, x: usize, y: usize, v: u32, bg: [u32; 4], fg: [u32; 4])
    requires
        (y * width + x) * 4 + 3 < old(img)@.len(),
        forall|c: int| 0 <= c < 4 ==> blend_fits(#[trigger] bg[c], fg[c], v),
    ensures
        ({
            let i = (y * width + x) * 4;
            final(img)@ == old(img)@.update(i, spec_blend(bg[0], fg[0], v)).update(
                i + 1,
                spec_blend(bg[1], fg[1], v),
            ).update(i + 2, spec_blend(bg[2], fg[2], v)).update(i + 3, spec_blend(bg[3], fg[3], v))
        }),
{
    assert(blend_fits(bg[0], fg[0], v));
    assert(blend_fits(bg[1], fg[1], v));
    assert(blend_fits(bg[2], fg[2], v));
    assert(blend_fits(bg[3], fg[3], v));
    let n = img.len();
    assert(y * width <= n && (y * width + x) * 4 + 3 < n) by (nonlinear_arith)
        requires
            (y * width + x) * 4 + 3 < n,
            0 <= y * width,
            0 <= x,
    ;
    let i: usize = (y * width + x) * 4;
    let c0 = blend(bg[0], fg[0], v);
    let c1 = blend(bg[1], fg[1], v);
    let c2 = blend(bg[2], fg[2], v);
    let c3 = blend(bg[3], fg[3], v);
    img.set(i, c0);
    img.set(i + 1, c1);
    img.set(i + 2, c2);
    img.set(i + 3, c3);
}

} // verus!
