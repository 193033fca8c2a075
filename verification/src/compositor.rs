use vstd::prelude::*;
use crate::blend::blend;
use crate::blend::spec_blend;
use crate::blend::Pixel;
use crate::sheet::FRAME_SIZE;
use crate::sheet::SpriteSheet;

verus! {

/// The distinct marker color written where a computed source index would
/// fall outside the sheet buffer: opaque magenta, visually detectable
/// instead of an error.
pub open spec fn spec_marker_color() -> Pixel {
    Pixel { r: 255, g: 0, b: 255, a: 255 }
}

/// The pixel stored at pixel index `i` of a row-major RGBA byte buffer.
pub open spec fn spec_buf_pixel(buf: Seq<u8>, i: int) -> Pixel {
    Pixel { r: buf[4 * i], g: buf[4 * i + 1], b: buf[4 * i + 2], a: buf[4 * i + 3] }
}

/// What compositing frame `frame_index` writes at destination cell
/// `(x, y)`: the source pixel of the frame's column block blended over
/// the existing destination pixel, or the marker color where the
/// computed source index escapes the sheet buffer.
pub open spec fn spec_composited_pixel(
    dest0: Seq<u8>,
    sheet: SpriteSheet,
    frame_index: int,
    x: int,
    y: int,
) -> Pixel {
    let si = y * sheet.width + frame_index * FRAME_SIZE + x;
    if 4 * si + 4 <= sheet.pixels@.len() {
        spec_blend(spec_buf_pixel(dest0, y * FRAME_SIZE + x), spec_buf_pixel(sheet.pixels@, si))
    } else {
        spec_marker_color()
    }
}

/// One destination cell holds its composited value.
pub open spec fn spec_cell_done(
    dest_now: Seq<u8>,
    dest0: Seq<u8>,
    sheet: SpriteSheet,
    frame_index: int,
    x: int,
    y: int,
) -> bool {
    spec_buf_pixel(dest_now, y * FRAME_SIZE + x) == spec_composited_pixel(
        dest0,
        sheet,
        frame_index,
        x,
        y,
    )
}

/// Fill every pixel of a row-major RGBA buffer with one color.
pub fn fill_buffer(dest: &mut Vec<u8>, color: Pixel)
    requires
        old(dest)@.len() % 4 == 0,
    ensures
        final(dest)@.len() == old(dest)@.len(),
        forall|i: int| 0 <= i && 4 * i + 4 <= final(dest)@.len() ==> spec_buf_pixel(
            final(dest)@,
            i,
        ) == color,
{
    let n = dest.len();
    let count = n / 4;
    proof {
        vstd::arithmetic::div_mod::lemma_fundamental_div_mod(n as int, 4);
    }
    let mut i: usize = 0;
    while i < count
        invariant
            dest@.len() == n,
            n == 4 * count,
            i <= count,
            forall|j: int| 0 <= j < i ==> spec_buf_pixel(dest@, j) == color,
        decreases count - i,
    {
        let di = i * 4;
        let ghost prev = dest@;
        dest[di] = color.r;
        dest[di + 1] = color.g;
        dest[di + 2] = color.b;
        dest[di + 3] = color.a;
        proof {
            assert(spec_buf_pixel(dest@, i as int) == color);
            assert forall|j: int| 0 <= j < i implies spec_buf_pixel(dest@, j) == color by {
                assert(spec_buf_pixel(prev, j) == color);
                assert(4 * j + 4 <= di);
                assert(spec_buf_pixel(dest@, j) == spec_buf_pixel(prev, j));
            }
        }
        i += 1;
    }
}

/// Composite one frame of the sheet onto the destination buffer.
///
/// The frame is the column block `[frame_index * F, (frame_index + 1) * F)`
/// of the sheet; each of its pixels is blended over the destination pixel
/// already there.  A source index that would escape the sheet buffer is
/// answered with the marker color, never with an error.
pub fn composite_frame(dest: &mut Vec<u8>, sheet: &SpriteSheet, frame_index: usize)
    requires
        sheet.wf(),
        old(dest)@.len() == FRAME_SIZE * FRAME_SIZE * 4,
    ensures
        final(dest)@.len() == old(dest)@.len(),
        forall|x: int, y: int|
            0 <= x < FRAME_SIZE && 0 <= y < FRAME_SIZE ==> spec_cell_done(
                final(dest)@,
                old(dest)@,
                *sheet,
                frame_index as int,
                x,
                y,
            ),
{
    let ghost dest0 = dest@;
    let total = sheet.pixels.len();
    let mut y: usize = 0;
    while y < FRAME_SIZE
        invariant
            sheet.wf(),
            total == sheet.pixels@.len(),
            y <= FRAME_SIZE,
            dest@.len() == dest0.len(),
            dest0.len() == FRAME_SIZE * FRAME_SIZE * 4,
            forall|x2: int, y2: int|
                0 <= x2 < FRAME_SIZE && 0 <= y2 < y ==> spec_cell_done(
                    dest@,
                    dest0,
                    *sheet,
                    frame_index as int,
                    x2,
                    y2,
                ),
            forall|b: int| y * FRAME_SIZE * 4 <= b < dest0.len() ==> dest@[b] == dest0[b],
        decreases FRAME_SIZE - y,
    {
        let mut x: usize = 0;
        while x < FRAME_SIZE
            invariant
                sheet.wf(),
                total == sheet.pixels@.len(),
                y < FRAME_SIZE,
                x <= FRAME_SIZE,
                dest@.len() == dest0.len(),
                dest0.len() == FRAME_SIZE * FRAME_SIZE * 4,
                forall|x2: int, y2: int|
                    0 <= x2 < FRAME_SIZE && 0 <= y2 < y ==> spec_cell_done(
                        dest@,
                        dest0,
                        *sheet,
                        frame_index as int,
                        x2,
                        y2,
                    ),
                forall|x2: int|
                    0 <= x2 < x ==> spec_cell_done(
                        dest@,
                        dest0,
                        *sheet,
                        frame_index as int,
                        x2,
                        y as int,
                    ),
                forall|b: int|
                    (y * FRAME_SIZE + x) * 4 <= b < dest0.len() ==> dest@[b] == dest0[b],
            decreases FRAME_SIZE - x,
        {
            let di = (y * FRAME_SIZE + x) * 4;
            let ghost dest_iter = dest@;
            let ghost si_int = y * sheet.width + frame_index * FRAME_SIZE + x;
            let si_opt: Option<usize> = match frame_index.checked_mul(FRAME_SIZE) {
                Some(a) => match a.checked_add(x) {
                    Some(b) => match y.checked_mul(sheet.width) {
                        Some(c) => c.checked_add(b),
                        None => None,
                    },
                    None => None,
                },
                None => None,
            };
            let in_bounds: Option<usize> = match si_opt {
                Some(si) => match si.checked_mul(4) {
                    Some(sb) => if sb <= total - 4 && total >= 4 {
                        Some(si)
                    } else {
                        None
                    },
                    None => None,
                },
                None => None,
            };
            proof {
                assert(in_bounds matches Some(si) ==> si == si_int && 4 * si_int + 4 <= total);
                assert(in_bounds is None ==> 4 * si_int + 4 > total);
            }
            match in_bounds {
                Some(si) => {
                    let sb = si * 4;
                    let sp = Pixel {
                        r: sheet.pixels[sb],
                        g: sheet.pixels[sb + 1],
                        b: sheet.pixels[sb + 2],
                        a: sheet.pixels[sb + 3],
                    };
                    let dp = Pixel {
                        r: dest[di],
                        g: dest[di + 1],
                        b: dest[di + 2],
                        a: dest[di + 3],
                    };
                    let out = blend(dp, sp);
                    dest[di] = out.r;
                    dest[di + 1] = out.g;
                    dest[di + 2] = out.b;
                    dest[di + 3] = out.a;
                },
                None => {
                    dest[di] = 255;
                    dest[di + 1] = 0;
                    dest[di + 2] = 255;
                    dest[di + 3] = 255;
                },
            }
            proof {
                assert(spec_cell_done(dest@, dest0, *sheet, frame_index as int, x as int, y as int));
                assert forall|b: int| 0 <= b < dest0.len() && !(di <= b < di + 4)
                    implies dest@[b] == dest_iter[b] by {}
                assert forall|x2: int, y2: int|
                    0 <= x2 < FRAME_SIZE && 0 <= y2 < y
                    implies spec_cell_done(dest@, dest0, *sheet, frame_index as int, x2, y2) by {
                    assert(spec_cell_done(dest_iter, dest0, *sheet, frame_index as int, x2, y2));
                    let ci = y2 * FRAME_SIZE + x2;
                    assert(4 * ci + 4 <= di);
                    assert(spec_buf_pixel(dest@, ci) == spec_buf_pixel(dest_iter, ci));
                }
                assert forall|x2: int|
                    0 <= x2 < x
                    implies spec_cell_done(dest@, dest0, *sheet, frame_index as int, x2, y as int)
                    by {
                    assert(spec_cell_done(dest_iter, dest0, *sheet, frame_index as int, x2, y as int));
                    let ci = y * FRAME_SIZE + x2;
                    assert(4 * ci + 4 <= di);
                    assert(spec_buf_pixel(dest@, ci) == spec_buf_pixel(dest_iter, ci));
                }
            }
            x += 1;
        }
        y += 1;
    }
}

} // verus!
