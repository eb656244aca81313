//! The creature's pixel-art sprite: a 32 x 32 canvas drawn from filled rectangles (lines and
//! single pixels) for each mood and animation tick, then scaled up four times.
use vstd::prelude::*;

use crate::model::Mood;
use crate::palette::{
    ANGER, ANGER_VEIN, BLUSH, BODY_CORE, BODY_LIGHT, BODY_SHADOW, EYE_PUPIL, EYE_WHITE, MOUTH, OUTLINE,
    RAIN, SPARKLE, SUNGLASSES, SWEAT, TRANSPARENT, ZZZ,
};

verus! {

pub const SPRITE_SIZE: u32 = 32;

pub const SCALE: u32 = 4;

pub const WINDOW_SIZE: u32 = SPRITE_SIZE * SCALE;

/// The number of pixels of the unscaled canvas.
pub open spec fn canvas_len() -> nat {
    1024
}

/// Index `i` lies on the 32 x 32 canvas (the first `canvas_len()` entries of the buffer) and
/// in its rectangle of columns `x1..=x2` and rows `y1..=y2`.
pub open spec fn in_rect(i: int, x1: int, x2: int, y1: int, y2: int) -> bool {
    &&& 0 <= i < canvas_len()
    &&& x1 <= i % 32 <= x2
    &&& y1 <= i / 32 <= y2
}

/// The buffer `c` with the rectangle of columns `x1..=x2` and rows `y1..=y2` of its canvas
/// filled with `color`; the parts of the rectangle off the canvas are dropped, and entries
/// past the canvas are left alone.
#[verifier::opaque]
pub open spec fn paint(c: Seq<u32>, x1: int, x2: int, y1: int, y2: int, color: u32) -> Seq<u32> {
    Seq::new(c.len(), |i: int| if in_rect(i, x1, x2, y1, y2) { color } else { c[i] })
}

/// `v` can be moved `below` steps down and `above` steps up without leaving `i32`.
pub open spec fn fits_shifted(v: i32, below: int, above: int) -> bool {
    i32::MIN + below <= v <= i32::MAX - above
}

/// A horizontal line from column `x1` to `x2` on row `y`.
pub open spec fn line_h(c: Seq<u32>, x1: int, x2: int, y: int, color: u32) -> Seq<u32> {
    paint(c, x1, x2, y, y, color)
}

/// A vertical line on column `x` from row `y1` to `y2`.
pub open spec fn line_v(c: Seq<u32>, x: int, y1: int, y2: int, color: u32) -> Seq<u32> {
    paint(c, x, x, y1, y2, color)
}

/// A single pixel.
pub open spec fn dot(c: Seq<u32>, x: int, y: int, color: u32) -> Seq<u32> {
    paint(c, x, x, y, y, color)
}

/// Painting keeps the canvas size.
pub proof fn lemma_paint_len(c: Seq<u32>, x1: int, x2: int, y1: int, y2: int, color: u32)
    ensures
        #[trigger] paint(c, x1, x2, y1, y2, color).len() == c.len(),
{
    reveal(paint);
}

/// Painting one more column next to a rectangle gives the wider rectangle.
proof fn lemma_paint_extend_x(c: Seq<u32>, x1: int, x: int, y1: int, y2: int, color: u32)
    requires
        x1 <= x,
    ensures
        paint(paint(c, x1, x - 1, y1, y2, color), x, x, y1, y2, color) == paint(
            c,
            x1,
            x,
            y1,
            y2,
            color,
        ),
{
    reveal(paint);
    assert(paint(paint(c, x1, x - 1, y1, y2, color), x, x, y1, y2, color) =~= paint(
        c,
        x1,
        x,
        y1,
        y2,
        color,
    ));
}

/// Painting one more row below a rectangle gives the taller rectangle.
proof fn lemma_paint_extend_y(c: Seq<u32>, x1: int, x2: int, y1: int, y: int, color: u32)
    requires
        y1 <= y,
    ensures
        paint(paint(c, x1, x2, y1, y - 1, color), x1, x2, y, y, color) == paint(
            c,
            x1,
            x2,
            y1,
            y,
            color,
        ),
{
    reveal(paint);
    assert(paint(paint(c, x1, x2, y1, y - 1, color), x1, x2, y, y, color) =~= paint(
        c,
        x1,
        x2,
        y1,
        y,
        color,
    ));
}

/// An empty rectangle leaves the canvas as it is.
proof fn lemma_paint_empty(c: Seq<u32>, x1: int, x2: int, y1: int, y2: int, color: u32)
    requires
        x2 < x1 || y2 < y1,
    ensures
        paint(c, x1, x2, y1, y2, color) == c,
{
    reveal(paint);
    assert(paint(c, x1, x2, y1, y2, color) =~= c);
}

/// Colours the pixel at column `x`, row `y`, when it lies on the canvas.
fn set_pixel(canvas: &mut Vec<u32>, x: i32, y: i32, color: u32)
    requires
        old(canvas)@.len() >= canvas_len(),
    ensures
        final(canvas)@ == dot(old(canvas)@, x as int, y as int, color),
        final(canvas)@.len() == old(canvas)@.len(),
{
    reveal(paint);
    if x >= 0 && x < SPRITE_SIZE as i32 && y >= 0 && y < SPRITE_SIZE as i32 {
        let idx = (y * SPRITE_SIZE as i32 + x) as usize;
        canvas.set(idx, color);
        assert forall|i: int| 0 <= i < canvas@.len() implies (in_rect(
            i,
            x as int,
            x as int,
            y as int,
            y as int,
        ) <==> i == idx) by {
            if i == idx {
                assert(i % 32 == x && i / 32 == y);
            }
        }
        assert(canvas@ =~= dot(old(canvas)@, x as int, y as int, color));
    } else {
        assert(canvas@ =~= dot(old(canvas)@, x as int, y as int, color));
    }
}

/// Colours columns `x1..=x2` of row `y`.
fn hline(canvas: &mut Vec<u32>, x1: i32, x2: i32, y: i32, color: u32)
    requires
        old(canvas)@.len() >= canvas_len(),
    ensures
        final(canvas)@ == line_h(old(canvas)@, x1 as int, x2 as int, y as int, color),
        final(canvas)@.len() == old(canvas)@.len(),
{
    let ghost start = canvas@;
    proof {
        lemma_paint_empty(start, x1 as int, x1 - 1, y as int, y as int, color);
    }
    let mut x: i64 = x1 as i64;
    while x <= x2 as i64
        invariant
            x1 <= x <= x2 as i64 + 1 || x == x1,
            canvas@ == paint(start, x1 as int, x - 1, y as int, y as int, color),
            start.len() >= canvas_len(),
            canvas@.len() == start.len(),
        decreases x2 - x + 1,
    {
        proof {
            lemma_paint_len(start, x1 as int, x - 1, y as int, y as int, color);
            lemma_paint_extend_x(start, x1 as int, x as int, y as int, y as int, color);
        }
        set_pixel(canvas, x as i32, y, color);
        x = x + 1;
    }
    if x1 > x2 {
        proof {
            lemma_paint_empty(start, x1 as int, x2 as int, y as int, y as int, color);
        }
    }
}

/// Colours rows `y1..=y2` of column `x`.
fn vline(canvas: &mut Vec<u32>, x: i32, y1: i32, y2: i32, color: u32)
    requires
        old(canvas)@.len() >= canvas_len(),
    ensures
        final(canvas)@ == line_v(old(canvas)@, x as int, y1 as int, y2 as int, color),
        final(canvas)@.len() == old(canvas)@.len(),
{
    let ghost start = canvas@;
    proof {
        lemma_paint_empty(start, x as int, x as int, y1 as int, y1 - 1, color);
    }
    let mut y: i64 = y1 as i64;
    while y <= y2 as i64
        invariant
            y1 <= y <= y2 as i64 + 1 || y == y1,
            canvas@ == paint(start, x as int, x as int, y1 as int, y - 1, color),
            start.len() >= canvas_len(),
            canvas@.len() == start.len(),
        decreases y2 - y + 1,
    {
        proof {
            lemma_paint_len(start, x as int, x as int, y1 as int, y - 1, color);
            lemma_paint_extend_y(start, x as int, x as int, y1 as int, y as int, color);
        }
        set_pixel(canvas, x, y as i32, color);
        y = y + 1;
    }
    if y1 > y2 {
        proof {
            lemma_paint_empty(start, x as int, x as int, y1 as int, y2 as int, color);
        }
    }
}

/// The body: outline, light top rows, core, shadow and feet; an angry body is red.
pub open spec fn body_layer(c: Seq<u32>, cx: int, cy: int, is_angry: bool) -> Seq<u32> {
    let base = if is_angry { ANGER } else { BODY_CORE };
    let light = if is_angry { ANGER } else { BODY_LIGHT };
    let shadow = if is_angry { ANGER_VEIN } else { BODY_SHADOW };
    let c = line_h(c, cx-4, cx+3, cy-10, OUTLINE);
    let c = line_h(c, cx-7, cx-5, cy-9, OUTLINE);
    let c = line_h(c, cx+4, cx+6, cy-9, OUTLINE);
    let c = dot(c, cx-8, cy-8, OUTLINE);
    let c = dot(c, cx+7, cy-8, OUTLINE);
    let c = dot(c, cx-9, cy-7, OUTLINE);
    let c = dot(c, cx+8, cy-7, OUTLINE);
    let c = line_v(c, cx-10, cy-6, cy+3, OUTLINE);
    let c = line_v(c, cx+9, cy-6, cy+3, OUTLINE);
    let c = dot(c, cx-9, cy+4, OUTLINE);
    let c = dot(c, cx+8, cy+4, OUTLINE);
    let c = dot(c, cx-8, cy+5, OUTLINE);
    let c = dot(c, cx+7, cy+5, OUTLINE);
    let c = dot(c, cx-7, cy+6, OUTLINE);
    let c = dot(c, cx+6, cy+6, OUTLINE);
    let c = line_h(c, cx-6, cx-3, cy+7, OUTLINE);
    let c = line_h(c, cx+2, cx+5, cy+7, OUTLINE);
    let c = line_h(c, cx-2, cx+1, cy+6, OUTLINE);
    let c = line_h(c, cx-4, cx+3, cy-9, light);
    let c = line_h(c, cx-7, cx+6, cy-8, light);
    let c = line_h(c, cx-8, cx+7, cy-7, light);
    let c = line_h(c, cx-9, cx+8, cy-6, light);
    let c = line_h(c, cx-9, cx+8, cy-5, base);
    let c = line_h(c, cx-9, cx+8, cy-4, base);
    let c = line_h(c, cx-9, cx+8, cy-3, base);
    let c = line_h(c, cx-9, cx+8, cy-2, base);
    let c = line_h(c, cx-9, cx+8, cy-1, base);
    let c = line_h(c, cx-9, cx+8, cy, base);
    let c = line_h(c, cx-9, cx+8, cy+1, base);
    let c = line_h(c, cx-9, cx+8, cy+2, shadow);
    let c = line_h(c, cx-9, cx+8, cy+3, shadow);
    let c = line_h(c, cx-8, cx+7, cy+4, shadow);
    let c = line_h(c, cx-7, cx+6, cy+5, shadow);
    let c = line_h(c, cx-6, cx-3, cy+6, shadow);
    let c = line_h(c, cx+2, cx+5, cy+6, shadow);
    c
}

/// Open eyes with pupils.
pub open spec fn eyes_open_layer(c: Seq<u32>, cx: int, cy: int) -> Seq<u32> {
    let c = line_h(c, cx-5, cx-3, cy-4, EYE_WHITE);
    let c = line_h(c, cx-5, cx-3, cy-3, EYE_WHITE);
    let c = line_h(c, cx-5, cx-3, cy-2, EYE_WHITE);
    let c = dot(c, cx-4, cy-3, EYE_PUPIL);
    let c = dot(c, cx-4, cy-2, EYE_PUPIL);
    let c = line_h(c, cx+2, cx+4, cy-4, EYE_WHITE);
    let c = line_h(c, cx+2, cx+4, cy-3, EYE_WHITE);
    let c = line_h(c, cx+2, cx+4, cy-2, EYE_WHITE);
    let c = dot(c, cx+3, cy-3, EYE_PUPIL);
    let c = dot(c, cx+3, cy-2, EYE_PUPIL);
    c
}

/// Closed eyes: two short lines.
pub open spec fn eyes_closed_layer(c: Seq<u32>, cx: int, cy: int) -> Seq<u32> {
    let c = line_h(c, cx-5, cx-3, cy-2, OUTLINE);
    let c = line_h(c, cx+2, cx+4, cy-2, OUTLINE);
    c
}

/// Happy eyes: two upturned arcs.
pub open spec fn eyes_happy_layer(c: Seq<u32>, cx: int, cy: int) -> Seq<u32> {
    let c = dot(c, cx-5, cy-2, OUTLINE);
    let c = dot(c, cx-4, cy-3, OUTLINE);
    let c = dot(c, cx-3, cy-2, OUTLINE);
    let c = dot(c, cx+2, cy-2, OUTLINE);
    let c = dot(c, cx+3, cy-3, OUTLINE);
    let c = dot(c, cx+4, cy-2, OUTLINE);
    c
}

/// Sad eyes: pupils turned inward under drooping lids.
pub open spec fn eyes_sad_layer(c: Seq<u32>, cx: int, cy: int) -> Seq<u32> {
    let c = line_h(c, cx-5, cx-3, cy-4, EYE_WHITE);
    let c = line_h(c, cx-5, cx-3, cy-3, EYE_WHITE);
    let c = line_h(c, cx-5, cx-3, cy-2, EYE_WHITE);
    let c = dot(c, cx-3, cy-3, EYE_PUPIL);
    let c = dot(c, cx-3, cy-2, EYE_PUPIL);
    let c = line_h(c, cx+2, cx+4, cy-4, EYE_WHITE);
    let c = line_h(c, cx+2, cx+4, cy-3, EYE_WHITE);
    let c = line_h(c, cx+2, cx+4, cy-2, EYE_WHITE);
    let c = dot(c, cx+2, cy-3, EYE_PUPIL);
    let c = dot(c, cx+2, cy-2, EYE_PUPIL);
    let c = line_h(c, cx-5, cx-3, cy-4, BODY_LIGHT);
    let c = dot(c, cx-3, cy-4, EYE_WHITE);
    let c = line_h(c, cx+2, cx+4, cy-4, BODY_LIGHT);
    let c = dot(c, cx+2, cy-4, EYE_WHITE);
    c
}

/// Blush marks on both cheeks.
pub open spec fn blush_layer(c: Seq<u32>, cx: int, cy: int) -> Seq<u32> {
    let c = line_h(c, cx-7, cx-5, cy, BLUSH);
    let c = line_h(c, cx+4, cx+6, cy, BLUSH);
    c
}

/// A small closed mouth.
pub open spec fn mouth_small_layer(c: Seq<u32>, cx: int, cy: int) -> Seq<u32> {
    let c = line_h(c, cx-1, cx, cy+1, OUTLINE);
    c
}

/// An open mouth.
pub open spec fn mouth_open_layer(c: Seq<u32>, cx: int, cy: int) -> Seq<u32> {
    let c = dot(c, cx-1, cy+1, OUTLINE);
    let c = dot(c, cx, cy+1, OUTLINE);
    let c = dot(c, cx-1, cy+2, MOUTH);
    let c = dot(c, cx, cy+2, MOUTH);
    let c = dot(c, cx-1, cy+3, OUTLINE);
    let c = dot(c, cx, cy+3, OUTLINE);
    let c = dot(c, cx-2, cy+2, OUTLINE);
    let c = dot(c, cx+1, cy+2, OUTLINE);
    c
}

/// The smug face: sunglasses and a small mouth.
pub open spec fn smug_layer(c: Seq<u32>, tick: u32, cx: int, cy: int) -> Seq<u32> {
    let c = mouth_small_layer(c, cx, cy-1);
    let c = line_h(c, cx-8, cx+7, cy-4, OUTLINE);
    let c = line_h(c, cx-7, cx-2, cy-3, SUNGLASSES);
    let c = line_h(c, cx-6, cx-3, cy-2, SUNGLASSES);
    let c = line_h(c, cx+1, cx+6, cy-3, SUNGLASSES);
    let c = line_h(c, cx+2, cx+5, cy-2, SUNGLASSES);
    let c = line_h(c, cx-1, cx, cy-3, OUTLINE);
    let c = dot(c, cx-6, cy-3, EYE_WHITE);
    let c = dot(c, cx+2, cy-3, EYE_WHITE);
    c
}

/// The nervous face: wide eyes, a wavy mouth and a drop of sweat.
pub open spec fn nervous_layer(c: Seq<u32>, tick: u32, cx: int, cy: int) -> Seq<u32> {
    let c = line_h(c, cx-6, cx-2, cy-4, EYE_WHITE);
    let c = line_h(c, cx-6, cx-2, cy-3, EYE_WHITE);
    let c = line_h(c, cx-6, cx-2, cy-2, EYE_WHITE);
    let c = dot(c, cx-4, cy-3, EYE_PUPIL);
    let c = line_h(c, cx+1, cx+5, cy-4, EYE_WHITE);
    let c = line_h(c, cx+1, cx+5, cy-3, EYE_WHITE);
    let c = line_h(c, cx+1, cx+5, cy-2, EYE_WHITE);
    let c = dot(c, cx+3, cy-3, EYE_PUPIL);
    let c = dot(c, cx-2, cy+1, OUTLINE);
    let c = dot(c, cx-1, cy+2, OUTLINE);
    let c = dot(c, cx, cy+1, OUTLINE);
    let c = dot(c, cx+1, cy+2, OUTLINE);
    let c = dot(c, cx+8, cy-6, SWEAT);
    let c = line_h(c, cx+7, cx+9, cy-5, SWEAT);
    let c = line_h(c, cx+7, cx+9, cy-4, SWEAT);
    let c = dot(c, cx+8, cy-3, SWEAT);
    c
}

/// The furious face, shaking sideways with the tick, with an anger vein.
pub open spec fn furious_layer(c: Seq<u32>, tick: u32, cx: int, cy: int) -> Seq<u32> {
    let ncx = cx + if tick % 2 == 0 { 1int } else { -1int };
    let c = line_h(c, ncx-5, ncx-3, cy-3, EYE_WHITE);
    let c = line_h(c, ncx-5, ncx-3, cy-2, EYE_WHITE);
    let c = dot(c, ncx-4, cy-2, EYE_PUPIL);
    let c = dot(c, ncx-6, cy-5, OUTLINE);
    let c = dot(c, ncx-5, cy-4, OUTLINE);
    let c = dot(c, ncx-4, cy-4, OUTLINE);
    let c = dot(c, ncx-3, cy-3, OUTLINE);
    let c = line_h(c, ncx+2, ncx+4, cy-3, EYE_WHITE);
    let c = line_h(c, ncx+2, ncx+4, cy-2, EYE_WHITE);
    let c = dot(c, ncx+3, cy-2, EYE_PUPIL);
    let c = dot(c, ncx+5, cy-5, OUTLINE);
    let c = dot(c, ncx+4, cy-4, OUTLINE);
    let c = dot(c, ncx+3, cy-4, OUTLINE);
    let c = dot(c, ncx+2, cy-3, OUTLINE);
    let c = line_h(c, ncx-2, ncx+1, cy+1, OUTLINE);
    let c = dot(c, ncx-3, cy+2, OUTLINE);
    let c = dot(c, ncx+2, cy+2, OUTLINE);
    let c = dot(c, ncx+6, cy-9, ANGER_VEIN);
    let c = dot(c, ncx+7, cy-8, ANGER_VEIN);
    let c = dot(c, ncx+5, cy-8, ANGER_VEIN);
    let c = dot(c, ncx+6, cy-7, ANGER_VEIN);
    c
}

/// The sad face: sad eyes, a frown and two raindrops falling with the tick.
pub open spec fn sad_layer(c: Seq<u32>, tick: u32, cx: int, cy: int) -> Seq<u32> {
    let c = eyes_sad_layer(c, cx, cy);
    let c = line_h(c, cx-1, cx, cy+2, OUTLINE);
    let c = dot(c, cx-2, cy+3, OUTLINE);
    let c = dot(c, cx+1, cy+3, OUTLINE);
    let offset1 = (tick % 8) as int;
    let offset2 = ((tick + 4) % 8) as int;
    let c = dot(c, cx-12, cy-8 + offset1, RAIN);
    let c = dot(c, cx-12, cy-7 + offset1, RAIN);
    let c = dot(c, cx+11, cy-4 + offset2, RAIN);
    let c = dot(c, cx+11, cy-3 + offset2, RAIN);
    c
}

/// The idle face: eyes open, blinking on every twentieth tick, with blush and a small mouth.
pub open spec fn idle_layer(c: Seq<u32>, tick: u32, cx: int, cy: int) -> Seq<u32> {
    let c = if tick % 20 == 0 {
        eyes_closed_layer(c, cx, cy)
    } else {
        eyes_open_layer(c, cx, cy)
    };
    let c = blush_layer(c, cx, cy);
    mouth_small_layer(c, cx, cy)
}

/// The happy face, with sparkles on even ticks.
pub open spec fn happy_layer(c: Seq<u32>, tick: u32, cx: int, cy: int) -> Seq<u32> {
    let c = eyes_happy_layer(c, cx, cy);
    let c = blush_layer(c, cx, cy);
    let c = mouth_open_layer(c, cx, cy);
    if tick % 2 == 0 {
        let c = dot(c, cx-10, cy-10, SPARKLE);
        let c = dot(c, cx-10, cy-12, SPARKLE);
        let c = dot(c, cx-11, cy-11, SPARKLE);
        let c = dot(c, cx-9, cy-11, SPARKLE);
        let c = dot(c, cx+10, cy, SPARKLE);
        let c = dot(c, cx+9, cy+1, SPARKLE);
        let c = dot(c, cx+11, cy+1, SPARKLE);
        dot(c, cx+10, cy+2, SPARKLE)
    } else {
        c
    }
}

/// The sleeping face: closed eyes, a snot bubble that grows with the tick and rising Zs.
pub open spec fn sleeping_layer(c: Seq<u32>, tick: u32, cx: int, cy: int) -> Seq<u32> {
    let c = eyes_closed_layer(c, cx, cy);
    let bubble_size = (tick % 6) / 2;
    let c = if bubble_size == 0 {
        dot(c, cx+3, cy+1, SWEAT)
    } else if bubble_size == 1 {
        let c = line_h(c, cx+2, cx+3, cy+1, SWEAT);
        line_h(c, cx+2, cx+3, cy+2, SWEAT)
    } else {
        let c = dot(c, cx+3, cy, SWEAT);
        let c = line_h(c, cx+2, cx+4, cy+1, SWEAT);
        let c = line_h(c, cx+2, cx+4, cy+2, SWEAT);
        let c = dot(c, cx+3, cy+3, SWEAT);
        dot(c, cx+4, cy+1, EYE_WHITE)
    };
    let z_phase = tick % 12;
    let c = if z_phase > 2 {
        let c = line_h(c, cx+8, cx+9, cy-8, ZZZ);
        let c = dot(c, cx+8, cy-7, ZZZ);
        line_h(c, cx+8, cx+9, cy-6, ZZZ)
    } else {
        c
    };
    if z_phase > 6 {
        let c = line_h(c, cx+10, cx+12, cy-12, ZZZ);
        let c = dot(c, cx+11, cy-11, ZZZ);
        let c = dot(c, cx+10, cy-10, ZZZ);
        line_h(c, cx+10, cx+12, cy-9, ZZZ)
    } else {
        c
    }
}

/// Draws `body_layer`.
fn draw_body(canvas: &mut Vec<u32>, cx: i32, cy: i32, is_angry: bool)
    requires
        old(canvas)@.len() >= canvas_len(),
        fits_shifted(cx, 10, 9),
        fits_shifted(cy, 10, 7),
    ensures
        final(canvas)@ == body_layer(old(canvas)@, cx as int, cy as int, is_angry),
        final(canvas)@.len() == old(canvas)@.len(),
{
    let base = if is_angry { ANGER } else { BODY_CORE };
    let light = if is_angry { ANGER } else { BODY_LIGHT };
    let shadow = if is_angry { ANGER_VEIN } else { BODY_SHADOW };
    hline(canvas, cx-4, cx+3, cy-10, OUTLINE);
    hline(canvas, cx-7, cx-5, cy-9, OUTLINE);
    hline(canvas, cx+4, cx+6, cy-9, OUTLINE);
    set_pixel(canvas, cx-8, cy-8, OUTLINE);
    set_pixel(canvas, cx+7, cy-8, OUTLINE);
    set_pixel(canvas, cx-9, cy-7, OUTLINE);
    set_pixel(canvas, cx+8, cy-7, OUTLINE);
    vline(canvas, cx-10, cy-6, cy+3, OUTLINE);
    vline(canvas, cx+9, cy-6, cy+3, OUTLINE);
    set_pixel(canvas, cx-9, cy+4, OUTLINE);
    set_pixel(canvas, cx+8, cy+4, OUTLINE);
    set_pixel(canvas, cx-8, cy+5, OUTLINE);
    set_pixel(canvas, cx+7, cy+5, OUTLINE);
    set_pixel(canvas, cx-7, cy+6, OUTLINE);
    set_pixel(canvas, cx+6, cy+6, OUTLINE);
    hline(canvas, cx-6, cx-3, cy+7, OUTLINE);
    hline(canvas, cx+2, cx+5, cy+7, OUTLINE);
    hline(canvas, cx-2, cx+1, cy+6, OUTLINE);
    hline(canvas, cx-4, cx+3, cy-9, light);
    hline(canvas, cx-7, cx+6, cy-8, light);
    hline(canvas, cx-8, cx+7, cy-7, light);
    hline(canvas, cx-9, cx+8, cy-6, light);
    hline(canvas, cx-9, cx+8, cy-5, base);
    hline(canvas, cx-9, cx+8, cy-4, base);
    hline(canvas, cx-9, cx+8, cy-3, base);
    hline(canvas, cx-9, cx+8, cy-2, base);
    hline(canvas, cx-9, cx+8, cy-1, base);
    hline(canvas, cx-9, cx+8, cy, base);
    hline(canvas, cx-9, cx+8, cy+1, base);
    hline(canvas, cx-9, cx+8, cy+2, shadow);
    hline(canvas, cx-9, cx+8, cy+3, shadow);
    hline(canvas, cx-8, cx+7, cy+4, shadow);
    hline(canvas, cx-7, cx+6, cy+5, shadow);
    hline(canvas, cx-6, cx-3, cy+6, shadow);
    hline(canvas, cx+2, cx+5, cy+6, shadow);
}

/// Draws `eyes_open_layer`.
fn draw_eyes_open(canvas: &mut Vec<u32>, cx: i32, cy: i32)
    requires
        old(canvas)@.len() >= canvas_len(),
        fits_shifted(cx, 5, 4),
        fits_shifted(cy, 4, 0),
    ensures
        final(canvas)@ == eyes_open_layer(old(canvas)@, cx as int, cy as int),
        final(canvas)@.len() == old(canvas)@.len(),
{
    hline(canvas, cx-5, cx-3, cy-4, EYE_WHITE);
    hline(canvas, cx-5, cx-3, cy-3, EYE_WHITE);
    hline(canvas, cx-5, cx-3, cy-2, EYE_WHITE);
    set_pixel(canvas, cx-4, cy-3, EYE_PUPIL);
    set_pixel(canvas, cx-4, cy-2, EYE_PUPIL);
    hline(canvas, cx+2, cx+4, cy-4, EYE_WHITE);
    hline(canvas, cx+2, cx+4, cy-3, EYE_WHITE);
    hline(canvas, cx+2, cx+4, cy-2, EYE_WHITE);
    set_pixel(canvas, cx+3, cy-3, EYE_PUPIL);
    set_pixel(canvas, cx+3, cy-2, EYE_PUPIL);
}

/// Draws `eyes_closed_layer`.
fn draw_eyes_closed(canvas: &mut Vec<u32>, cx: i32, cy: i32)
    requires
        old(canvas)@.len() >= canvas_len(),
        fits_shifted(cx, 5, 4),
        fits_shifted(cy, 2, 0),
    ensures
        final(canvas)@ == eyes_closed_layer(old(canvas)@, cx as int, cy as int),
        final(canvas)@.len() == old(canvas)@.len(),
{
    hline(canvas, cx-5, cx-3, cy-2, OUTLINE);
    hline(canvas, cx+2, cx+4, cy-2, OUTLINE);
}

/// Draws `eyes_happy_layer`.
fn draw_eyes_happy(canvas: &mut Vec<u32>, cx: i32, cy: i32)
    requires
        old(canvas)@.len() >= canvas_len(),
        fits_shifted(cx, 5, 4),
        fits_shifted(cy, 3, 0),
    ensures
        final(canvas)@ == eyes_happy_layer(old(canvas)@, cx as int, cy as int),
        final(canvas)@.len() == old(canvas)@.len(),
{
    set_pixel(canvas, cx-5, cy-2, OUTLINE);
    set_pixel(canvas, cx-4, cy-3, OUTLINE);
    set_pixel(canvas, cx-3, cy-2, OUTLINE);
    set_pixel(canvas, cx+2, cy-2, OUTLINE);
    set_pixel(canvas, cx+3, cy-3, OUTLINE);
    set_pixel(canvas, cx+4, cy-2, OUTLINE);
}

/// Draws `eyes_sad_layer`.
fn draw_eyes_sad(canvas: &mut Vec<u32>, cx: i32, cy: i32)
    requires
        old(canvas)@.len() >= canvas_len(),
        fits_shifted(cx, 5, 4),
        fits_shifted(cy, 4, 0),
    ensures
        final(canvas)@ == eyes_sad_layer(old(canvas)@, cx as int, cy as int),
        final(canvas)@.len() == old(canvas)@.len(),
{
    hline(canvas, cx-5, cx-3, cy-4, EYE_WHITE);
    hline(canvas, cx-5, cx-3, cy-3, EYE_WHITE);
    hline(canvas, cx-5, cx-3, cy-2, EYE_WHITE);
    set_pixel(canvas, cx-3, cy-3, EYE_PUPIL); 
    set_pixel(canvas, cx-3, cy-2, EYE_PUPIL);
    hline(canvas, cx+2, cx+4, cy-4, EYE_WHITE);
    hline(canvas, cx+2, cx+4, cy-3, EYE_WHITE);
    hline(canvas, cx+2, cx+4, cy-2, EYE_WHITE);
    set_pixel(canvas, cx+2, cy-3, EYE_PUPIL); 
    set_pixel(canvas, cx+2, cy-2, EYE_PUPIL);
    hline(canvas, cx-5, cx-3, cy-4, BODY_LIGHT);
    set_pixel(canvas, cx-3, cy-4, EYE_WHITE);
    hline(canvas, cx+2, cx+4, cy-4, BODY_LIGHT);
    set_pixel(canvas, cx+2, cy-4, EYE_WHITE);
}

/// Draws `blush_layer`.
fn draw_blush(canvas: &mut Vec<u32>, cx: i32, cy: i32)
    requires
        old(canvas)@.len() >= canvas_len(),
        fits_shifted(cx, 7, 6),
        fits_shifted(cy, 0, 0),
    ensures
        final(canvas)@ == blush_layer(old(canvas)@, cx as int, cy as int),
        final(canvas)@.len() == old(canvas)@.len(),
{
    hline(canvas, cx-7, cx-5, cy, BLUSH);
    hline(canvas, cx+4, cx+6, cy, BLUSH);
}

/// Draws `mouth_small_layer`.
fn draw_mouth_small(canvas: &mut Vec<u32>, cx: i32, cy: i32)
    requires
        old(canvas)@.len() >= canvas_len(),
        fits_shifted(cx, 1, 0),
        fits_shifted(cy, 0, 1),
    ensures
        final(canvas)@ == mouth_small_layer(old(canvas)@, cx as int, cy as int),
        final(canvas)@.len() == old(canvas)@.len(),
{
    hline(canvas, cx-1, cx, cy+1, OUTLINE);
}

/// Draws `mouth_open_layer`.
fn draw_mouth_open(canvas: &mut Vec<u32>, cx: i32, cy: i32)
    requires
        old(canvas)@.len() >= canvas_len(),
        fits_shifted(cx, 2, 1),
        fits_shifted(cy, 0, 3),
    ensures
        final(canvas)@ == mouth_open_layer(old(canvas)@, cx as int, cy as int),
        final(canvas)@.len() == old(canvas)@.len(),
{
    set_pixel(canvas, cx-1, cy+1, OUTLINE);
    set_pixel(canvas, cx, cy+1, OUTLINE);
    set_pixel(canvas, cx-1, cy+2, MOUTH);
    set_pixel(canvas, cx, cy+2, MOUTH);
    set_pixel(canvas, cx-1, cy+3, OUTLINE);
    set_pixel(canvas, cx, cy+3, OUTLINE);
    set_pixel(canvas, cx-2, cy+2, OUTLINE);
    set_pixel(canvas, cx+1, cy+2, OUTLINE);
}

/// Draws `idle_layer`.
fn draw_idle(canvas: &mut Vec<u32>, tick: u32, cx: i32, cy: i32)
    requires
        old(canvas)@.len() >= canvas_len(),
        fits_shifted(cx, 7, 6),
        fits_shifted(cy, 4, 1),
    ensures
        final(canvas)@ == idle_layer(old(canvas)@, tick, cx as int, cy as int),
        final(canvas)@.len() == old(canvas)@.len(),
{
    if tick % 20 == 0 {
        draw_eyes_closed(canvas, cx, cy);
    } else {
        draw_eyes_open(canvas, cx, cy);
    }
    draw_blush(canvas, cx, cy);
    draw_mouth_small(canvas, cx, cy);
}

/// Draws `happy_layer`.
fn draw_happy(canvas: &mut Vec<u32>, tick: u32, cx: i32, cy: i32)
    requires
        old(canvas)@.len() >= canvas_len(),
        fits_shifted(cx, 11, 11),
        fits_shifted(cy, 12, 3),
    ensures
        final(canvas)@ == happy_layer(old(canvas)@, tick, cx as int, cy as int),
        final(canvas)@.len() == old(canvas)@.len(),
{
    draw_eyes_happy(canvas, cx, cy);
    draw_blush(canvas, cx, cy);
    draw_mouth_open(canvas, cx, cy);
    if tick % 2 == 0 {
        set_pixel(canvas, cx-10, cy-10, SPARKLE);
        set_pixel(canvas, cx-10, cy-12, SPARKLE);
        set_pixel(canvas, cx-11, cy-11, SPARKLE);
        set_pixel(canvas, cx-9, cy-11, SPARKLE);
        set_pixel(canvas, cx+10, cy, SPARKLE);
        set_pixel(canvas, cx+9, cy+1, SPARKLE);
        set_pixel(canvas, cx+11, cy+1, SPARKLE);
        set_pixel(canvas, cx+10, cy+2, SPARKLE);
    }
}

/// Draws `smug_layer`.
fn draw_smug(canvas: &mut Vec<u32>, tick: u32, cx: i32, cy: i32)
    requires
        old(canvas)@.len() >= canvas_len(),
        fits_shifted(cx, 8, 7),
        fits_shifted(cy, 4, 0),
    ensures
        final(canvas)@ == smug_layer(old(canvas)@, tick, cx as int, cy as int),
        final(canvas)@.len() == old(canvas)@.len(),
{
    draw_mouth_small(canvas, cx, cy-1);
    hline(canvas, cx-8, cx+7, cy-4, OUTLINE);
    hline(canvas, cx-7, cx-2, cy-3, SUNGLASSES);
    hline(canvas, cx-6, cx-3, cy-2, SUNGLASSES);
    hline(canvas, cx+1, cx+6, cy-3, SUNGLASSES);
    hline(canvas, cx+2, cx+5, cy-2, SUNGLASSES);
    hline(canvas, cx-1, cx, cy-3, OUTLINE);
    set_pixel(canvas, cx-6, cy-3, EYE_WHITE);
    set_pixel(canvas, cx+2, cy-3, EYE_WHITE);
}

/// Draws `sad_layer`.
fn draw_sad(canvas: &mut Vec<u32>, tick: u32, cx: i32, cy: i32)
    requires
        old(canvas)@.len() >= canvas_len(),
        fits_shifted(cx, 12, 11),
        fits_shifted(cy, 8, 4),
    ensures
        final(canvas)@ == sad_layer(old(canvas)@, tick, cx as int, cy as int),
        final(canvas)@.len() == old(canvas)@.len(),
{
    draw_eyes_sad(canvas, cx, cy);
    hline(canvas, cx-1, cx, cy+2, OUTLINE);
    set_pixel(canvas, cx-2, cy+3, OUTLINE);
    set_pixel(canvas, cx+1, cy+3, OUTLINE);
    let offset1 = (tick % 8) as i32;
    let offset2 = ((tick % 8 + 4) % 8) as i32;
    set_pixel(canvas, cx-12, cy-8 + offset1, RAIN);
    set_pixel(canvas, cx-12, cy-7 + offset1, RAIN);
    set_pixel(canvas, cx+11, cy-4 + offset2, RAIN);
    set_pixel(canvas, cx+11, cy-3 + offset2, RAIN);
}

/// Draws `nervous_layer`.
fn draw_nervous(canvas: &mut Vec<u32>, tick: u32, cx: i32, cy: i32)
    requires
        old(canvas)@.len() >= canvas_len(),
        fits_shifted(cx, 6, 9),
        fits_shifted(cy, 6, 2),
    ensures
        final(canvas)@ == nervous_layer(old(canvas)@, tick, cx as int, cy as int),
        final(canvas)@.len() == old(canvas)@.len(),
{
    hline(canvas, cx-6, cx-2, cy-4, EYE_WHITE);
    hline(canvas, cx-6, cx-2, cy-3, EYE_WHITE);
    hline(canvas, cx-6, cx-2, cy-2, EYE_WHITE);
    set_pixel(canvas, cx-4, cy-3, EYE_PUPIL);
    hline(canvas, cx+1, cx+5, cy-4, EYE_WHITE);
    hline(canvas, cx+1, cx+5, cy-3, EYE_WHITE);
    hline(canvas, cx+1, cx+5, cy-2, EYE_WHITE);
    set_pixel(canvas, cx+3, cy-3, EYE_PUPIL);
    set_pixel(canvas, cx-2, cy+1, OUTLINE);
    set_pixel(canvas, cx-1, cy+2, OUTLINE);
    set_pixel(canvas, cx, cy+1, OUTLINE);
    set_pixel(canvas, cx+1, cy+2, OUTLINE);
    set_pixel(canvas, cx+8, cy-6, SWEAT);
    hline(canvas, cx+7, cx+9, cy-5, SWEAT);
    hline(canvas, cx+7, cx+9, cy-4, SWEAT);
    set_pixel(canvas, cx+8, cy-3, SWEAT);
}

/// Draws `furious_layer`.
fn draw_furious(canvas: &mut Vec<u32>, tick: u32, cx: i32, cy: i32)
    requires
        old(canvas)@.len() >= canvas_len(),
        fits_shifted(cx, 7, 8),
        fits_shifted(cy, 9, 2),
    ensures
        final(canvas)@ == furious_layer(old(canvas)@, tick, cx as int, cy as int),
        final(canvas)@.len() == old(canvas)@.len(),
{
    let shake_x = if tick % 2 == 0 { 1 } else { -1 };
    let ncx = cx + shake_x;
    hline(canvas, ncx-5, ncx-3, cy-3, EYE_WHITE);
    hline(canvas, ncx-5, ncx-3, cy-2, EYE_WHITE);
    set_pixel(canvas, ncx-4, cy-2, EYE_PUPIL);
    set_pixel(canvas, ncx-6, cy-5, OUTLINE);
    set_pixel(canvas, ncx-5, cy-4, OUTLINE);
    set_pixel(canvas, ncx-4, cy-4, OUTLINE);
    set_pixel(canvas, ncx-3, cy-3, OUTLINE);
    hline(canvas, ncx+2, ncx+4, cy-3, EYE_WHITE);
    hline(canvas, ncx+2, ncx+4, cy-2, EYE_WHITE);
    set_pixel(canvas, ncx+3, cy-2, EYE_PUPIL);
    set_pixel(canvas, ncx+5, cy-5, OUTLINE);
    set_pixel(canvas, ncx+4, cy-4, OUTLINE);
    set_pixel(canvas, ncx+3, cy-4, OUTLINE);
    set_pixel(canvas, ncx+2, cy-3, OUTLINE);
    hline(canvas, ncx-2, ncx+1, cy+1, OUTLINE);
    set_pixel(canvas, ncx-3, cy+2, OUTLINE);
    set_pixel(canvas, ncx+2, cy+2, OUTLINE);
    set_pixel(canvas, ncx+6, cy-9, ANGER_VEIN);
    set_pixel(canvas, ncx+7, cy-8, ANGER_VEIN);
    set_pixel(canvas, ncx+5, cy-8, ANGER_VEIN);
    set_pixel(canvas, ncx+6, cy-7, ANGER_VEIN);
}

/// Draws `sleeping_layer`.
fn draw_sleeping(canvas: &mut Vec<u32>, tick: u32, cx: i32, cy: i32)
    requires
        old(canvas)@.len() >= canvas_len(),
        fits_shifted(cx, 5, 12),
        fits_shifted(cy, 12, 3),
    ensures
        final(canvas)@ == sleeping_layer(old(canvas)@, tick, cx as int, cy as int),
        final(canvas)@.len() == old(canvas)@.len(),
{
    draw_eyes_closed(canvas, cx, cy);
    let bubble_size = (tick % 6) / 2;
    if bubble_size == 0 {
        set_pixel(canvas, cx+3, cy+1, SWEAT);
    } else if bubble_size == 1 {
        hline(canvas, cx+2, cx+3, cy+1, SWEAT);
        hline(canvas, cx+2, cx+3, cy+2, SWEAT);
    } else {
        set_pixel(canvas, cx+3, cy, SWEAT);
        hline(canvas, cx+2, cx+4, cy+1, SWEAT);
        hline(canvas, cx+2, cx+4, cy+2, SWEAT);
        set_pixel(canvas, cx+3, cy+3, SWEAT);
        set_pixel(canvas, cx+4, cy+1, EYE_WHITE);
    }
    let z_phase = tick % 12;
    if z_phase > 2 {
        hline(canvas, cx+8, cx+9, cy-8, ZZZ);
        set_pixel(canvas, cx+8, cy-7, ZZZ);
        hline(canvas, cx+8, cx+9, cy-6, ZZZ);
    }
    if z_phase > 6 {
        hline(canvas, cx+10, cx+12, cy-12, ZZZ);
        set_pixel(canvas, cx+11, cy-11, ZZZ);
        set_pixel(canvas, cx+10, cy-10, ZZZ);
        hline(canvas, cx+10, cx+12, cy-9, ZZZ);
    }
}

/// An empty canvas.
pub open spec fn blank() -> Seq<u32> {
    Seq::new(canvas_len(), |i: int| TRANSPARENT)
}

/// The unscaled picture for `mood` at animation step `tick`: the body (bouncing on the
/// first two of every four ticks when happy, red when furious) with the mood's face.
pub open spec fn picture(mood: Mood, tick: u32) -> Seq<u32> {
    let y_bounce: int = if mood == Mood::Happy && tick % 4 < 2 {
        1
    } else {
        0
    };
    let cy = 17 - y_bounce;
    let c = body_layer(blank(), 16, cy, mood == Mood::Furious);
    match mood {
        Mood::Idle => idle_layer(c, tick, 16, cy),
        Mood::Happy => happy_layer(c, tick, 16, cy),
        Mood::Smug => smug_layer(c, tick, 16, cy),
        Mood::Sad => sad_layer(c, tick, 16, cy),
        Mood::Nervous => nervous_layer(c, tick, 16, cy),
        Mood::Furious => furious_layer(c, tick, 16, cy),
        Mood::Sleeping => sleeping_layer(c, tick, 16, cy),
    }
}

/// The index in the unscaled canvas of the pixel that covers index `i` of the
/// 128 x 128 scaled picture.
pub open spec fn source_index(i: int) -> int {
    ((i / 128) / 4) * 32 + (i % 128) / 4
}

/// The canvas `src` scaled up four times in each direction.
pub open spec fn scaled(src: Seq<u32>) -> Seq<u32> {
    Seq::new(16384, |i: int| src[source_index(i)])
}

/// Every pixel of the 128 x 128 picture lies over a pixel of the 32 x 32 canvas.
proof fn lemma_source_index_bounds(i: int)
    requires
        0 <= i < 16384,
    ensures
        0 <= source_index(i) < 1024,
{
    assert(0 <= i / 128 < 128);
    assert(0 <= i % 128 < 128);
    assert(0 <= (i / 128) / 4 < 32);
    assert(0 <= (i % 128) / 4 < 32);
}

/// A canvas of `canvas_len()` transparent pixels.
fn blank_canvas() -> (c: Vec<u32>)
    ensures
        c@ == blank(),
{
    let mut c: Vec<u32> = Vec::new();
    let mut i: usize = 0;
    while i < 1024
        invariant
            i <= 1024,
            c@ == Seq::new(i as nat, |k: int| TRANSPARENT),
        decreases 1024 - i,
    {
        c.push(TRANSPARENT);
        i = i + 1;
        assert(c@ =~= Seq::new(i as nat, |k: int| TRANSPARENT));
    }
    c
}

/// The canvas scaled up four times: each pixel becomes a 4 x 4 block.
fn scale_up(src: &Vec<u32>) -> (dst: Vec<u32>)
    requires
        src@.len() >= canvas_len(),
    ensures
        dst@ == scaled(src@),
{
    let mut dst: Vec<u32> = Vec::new();
    let total: usize = (WINDOW_SIZE * WINDOW_SIZE) as usize;
    let mut i: usize = 0;
    while i < total
        invariant
            total == 16384,
            src@.len() >= canvas_len(),
            i <= total,
            dst@ == scaled(src@).take(i as int),
        decreases total - i,
    {
        proof {
            lemma_source_index_bounds(i as int);
        }
        let x = (i % 128) / 4;
        let y = (i / 128) / 4;
        let px = src[y * 32 + x];
        dst.push(px);
        i = i + 1;
        assert(dst@ =~= scaled(src@).take(i as int));
    }
    assert(scaled(src@).take(16384) =~= scaled(src@));
    dst
}

/// The 128 x 128 picture of the creature in `mood` at animation step `tick`, row by row.
pub fn render_sprite(mood: Mood, tick: u32) -> (pixels: Vec<u32>)
    ensures
        pixels@ == scaled(picture(mood, tick)),
{
    let mut canvas = blank_canvas();
    let is_angry = mood == Mood::Furious;
    let y_bounce: i32 = if mood == Mood::Happy && tick % 4 < 2 {
        1
    } else {
        0
    };
    draw_body(&mut canvas, 16, 17 - y_bounce, is_angry);
    match mood {
        Mood::Idle => draw_idle(&mut canvas, tick, 16, 17 - y_bounce),
        Mood::Happy => draw_happy(&mut canvas, tick, 16, 17 - y_bounce),
        Mood::Smug => draw_smug(&mut canvas, tick, 16, 17 - y_bounce),
        Mood::Sad => draw_sad(&mut canvas, tick, 16, 17 - y_bounce),
        Mood::Nervous => draw_nervous(&mut canvas, tick, 16, 17 - y_bounce),
        Mood::Furious => draw_furious(&mut canvas, tick, 16, 17 - y_bounce),
        Mood::Sleeping => draw_sleeping(&mut canvas, tick, 16, 17 - y_bounce),
    }
    scale_up(&canvas)
}

/// The animation repeats every 120 ticks.
#[verifier::rlimit(50)]
pub proof fn lemma_animation_period(mood: Mood, tick: u32)
    requires
        tick + 120 <= u32::MAX,
    ensures
        picture(mood, tick) == picture(mood, (tick + 120) as u32),
{
    let later = (tick + 120) as u32;
    assert(later % 4 == tick % 4);
    let y_bounce: int = if mood == Mood::Happy && tick % 4 < 2 {
        1
    } else {
        0
    };
    let cy = 17 - y_bounce;
    let c = body_layer(blank(), 16, cy, mood == Mood::Furious);
    match mood {
        Mood::Idle => {
            assert(later % 20 == tick % 20);
            assert(idle_layer(c, tick, 16, cy) == idle_layer(c, later, 16, cy));
        },
        Mood::Happy => {
            assert(later % 2 == tick % 2);
            assert(happy_layer(c, tick, 16, cy) == happy_layer(c, later, 16, cy));
        },
        Mood::Smug => {
            assert(smug_layer(c, tick, 16, cy) == smug_layer(c, later, 16, cy));
        },
        Mood::Sad => {
            assert(later % 8 == tick % 8);
            assert((later + 4) % 8 == (tick + 4) % 8);
            assert(sad_layer(c, tick, 16, cy) == sad_layer(c, later, 16, cy));
        },
        Mood::Nervous => {
            assert(nervous_layer(c, tick, 16, cy) == nervous_layer(c, later, 16, cy));
        },
        Mood::Furious => {
            assert(later % 2 == tick % 2);
            assert(furious_layer(c, tick, 16, cy) == furious_layer(c, later, 16, cy));
        },
        Mood::Sleeping => {
            assert(later % 6 == tick % 6);
            assert(later % 12 == tick % 12);
            assert(sleeping_layer(c, tick, 16, cy) == sleeping_layer(c, later, 16, cy));
        },
    }
}

/// No pixel of the canvas `c` has the color `color`.
pub open spec fn lacks(c: Seq<u32>, color: u32) -> bool {
    forall|i: int| 0 <= i < c.len() ==> c[i] != color
}

/// Painting in another color adds no pixel of `color`; painting leaves the pixels outside
/// its rectangle as they were and puts its color on those inside.
proof fn lemma_paint_pixels(color: u32)
    ensures
        forall|c: Seq<u32>, x1: int, x2: int, y1: int, y2: int, k: u32|
            #[trigger] paint(c, x1, x2, y1, y2, k).len() == c.len(),
        forall|c: Seq<u32>, x1: int, x2: int, y1: int, y2: int, k: u32|
            lacks(c, color) && k != color ==> lacks(#[trigger] paint(c, x1, x2, y1, y2, k), color),
        forall|c: Seq<u32>, x1: int, x2: int, y1: int, y2: int, k: u32, i: int|
            0 <= i < c.len() ==> #[trigger] paint(c, x1, x2, y1, y2, k)[i] == if in_rect(
                i,
                x1,
                x2,
                y1,
                y2,
            ) {
                k
            } else {
                c[i]
            },
{
    reveal(paint);
}

/// The sleeping creature has its eyes closed at every tick: row 15 shows two short outline
/// strokes, at columns 11 to 13 and 18 to 20, and no pixel of the picture, nor of the
/// scaled-up picture, is a pupil.
#[verifier::rlimit(50)]
pub proof fn lemma_sleeping_eyes_closed(tick: u32)
    ensures
        picture(Mood::Sleeping, tick).len() == 1024,
        forall|x: int|
            11 <= x <= 13 || 18 <= x <= 20 ==> #[trigger] picture(Mood::Sleeping, tick)[15 * 32
                + x] == OUTLINE,
        forall|i: int| 0 <= i < 1024 ==> #[trigger] picture(Mood::Sleeping, tick)[i] != EYE_PUPIL,
        forall|i: int|
            0 <= i < 16384 ==> #[trigger] scaled(picture(Mood::Sleeping, tick))[i] != EYE_PUPIL,
{
    lemma_paint_pixels(EYE_PUPIL);
    assert(lacks(blank(), EYE_PUPIL));
    let c = body_layer(blank(), 16, 17, false);
    assert(lacks(c, EYE_PUPIL));
    assert(c.len() == 1024);
    let p = picture(Mood::Sleeping, tick);
    assert(lacks(p, EYE_PUPIL));
    assert forall|x: int| 11 <= x <= 13 || 18 <= x <= 20 implies #[trigger] p[15 * 32 + x]
        == OUTLINE by {
        assert(in_rect(15 * 32 + x, 11, 13, 15, 15) || in_rect(15 * 32 + x, 18, 20, 15, 15));
    }
    assert forall|i: int| 0 <= i < 16384 implies #[trigger] scaled(p)[i] != EYE_PUPIL by {
        lemma_source_index_bounds(i);
    }
}

} // verus!
