//! A live session: the framebuffer that updates are painted on, and the state a
//! frontend reads.
//!
//! A frontend gets the picture as RGBA8888, because a server sends raw pixels and
//! there is no decoder to hand a texture to, and a snapshot in the vocabulary the
//! other session kinds use.
use vstd::prelude::*;
use vstd::slice::slice_subrange;
use vstd::string::StringExecFns;
use crate::bytes;
use crate::text;
use crate::vnc;
use crate::vnc::protocol;
use crate::vnc::protocol::{Encoding, PixelFormat, Rectangle};
use crate::vnc::session;
use crate::vnc::session::{ServerMessage, VncSession};
use crate::vnc::VncError;

verus! {

/// Bytes of a pixel as a frontend gets it.
pub const RGBA_BYTES_PER_PIXEL: usize = 4;

/// The four bytes of an opaque pixel of the colour 0xRRGGBB.
pub open spec fn rgba(colour: int) -> Seq<u8> {
    seq![(colour / 65536) as u8, (colour / 256 % 256) as u8, (colour % 256) as u8, 255]
}

/// A region of a framebuffer `width` pixels wide and `height` high.
pub struct Region {
    pub width: int,
    pub height: int,
    pub x: int,
    pub y: int,
    pub columns: int,
    pub rows: int,
}

impl Region {
    /// The column of byte `i` of the framebuffer, in pixels.
    pub open spec fn column_of(self, i: int) -> int {
        i / 4 % self.width
    }

    /// The row of byte `i` of the framebuffer.
    pub open spec fn row_of(self, i: int) -> int {
        i / 4 / self.width
    }

    /// Whether byte `i` of a framebuffer of `len` bytes belongs to a whole pixel
    /// inside this region and inside the picture.
    pub open spec fn holds(self, len: int, i: int) -> bool {
        &&& self.width > 0
        &&& 4 * (i / 4) + 4 <= len
        &&& self.x <= self.column_of(i) < self.x + self.columns
        &&& self.y <= self.row_of(i) < self.y + self.rows
        &&& self.row_of(i) < self.height
    }

    /// The place of byte `i`'s pixel in the region, counted row by row.
    pub open spec fn place(self, i: int) -> int {
        (self.row_of(i) - self.y) * self.columns + (self.column_of(i) - self.x)
    }
}

/// Byte `i` of a framebuffer after raw pixels were painted on a region: opaque
/// pixels where there is a pixel for the place, and no change elsewhere.
pub open spec fn blitted(
    before: Seq<u8>,
    region: Region,
    format: PixelFormat,
    pixels: Seq<u8>,
    i: int,
) -> u8 {
    let step = if format.step() == 0 {
        1
    } else {
        format.step() as int
    };
    let source = region.place(i) * step;
    if region.holds(before.len() as int, i) && source + step <= pixels.len() {
        rgba(format.colour(pixels.skip(source)))[i % 4]
    } else {
        before[i]
    }
}

/// Byte `i` of a framebuffer after a region was filled with one colour.
pub open spec fn filled(before: Seq<u8>, region: Region, colour: int, i: int) -> u8 {
    if region.holds(before.len() as int, i) {
        rgba(colour)[i % 4]
    } else {
        before[i]
    }
}

/// Writes the pixel at byte `target`.
fn put_pixel(framebuffer: &mut [u8], target: usize, rgb: u32)
    requires
        target + 4 <= old(framebuffer)@.len(),
        rgb <= 0xff_ffff,
    ensures
        final(framebuffer)@.len() == old(framebuffer)@.len(),
        forall|i: int|
            0 <= i < old(framebuffer)@.len() ==> #[trigger] final(framebuffer)@[i] == if target <= i
                < target + 4 {
                rgba(rgb as int)[i - target]
            } else {
                old(framebuffer)@[i]
            },
{
    framebuffer[target] = (rgb / 65536) as u8;
    framebuffer[target + 1] = (rgb / 256 % 256) as u8;
    framebuffer[target + 2] = (rgb % 256) as u8;
    framebuffer[target + 3] = 255;
}

/// Whether the pixel of byte `i` comes before the pixel at `row` and `column` of
/// the region, row by row.
spec fn precedes(region: Region, i: int, row: int, column: int) -> bool {
    region.row_of(i) - region.y < row || (region.row_of(i) - region.y == row && region.column_of(i)
        - region.x < column)
}

proof fn lemma_pixel_at(width: int, tx: int, ty: int, i: int)
    requires
        0 <= tx < width,
        0 <= ty,
        (ty * width + tx) * 4 <= i < (ty * width + tx) * 4 + 4,
    ensures
        i / 4 == ty * width + tx,
        i / 4 % width == tx,
        i / 4 / width == ty,
        i % 4 == i - (ty * width + tx) * 4,
{
    vstd::arithmetic::div_mod::lemma_fundamental_div_mod_converse(
        ty * width + tx,
        width,
        ty,
        tx,
    );
}

proof fn lemma_index_of(width: int, i: int)
    requires
        width > 0,
        0 <= i,
    ensures
        0 <= i / 4 % width < width,
        0 <= i / 4 / width,
        i / 4 == (i / 4 / width) * width + i / 4 % width,
{
    vstd::arithmetic::div_mod::lemma_fundamental_div_mod(i / 4, width);
    vstd::arithmetic::div_mod::lemma_mod_bound(i / 4, width);
    vstd::arithmetic::div_mod::lemma_div_pos_is_pos(i / 4, width);
    vstd::arithmetic::mul::lemma_mul_is_commutative(width, i / 4 / width);
}

/// Places are ordered as pixels are, row by row.
proof fn lemma_place_order(columns: int, r1: int, c1: int, r2: int, c2: int)
    requires
        0 <= c1 < columns,
        0 <= c2 < columns,
        r1 < r2 || (r1 == r2 && c1 <= c2),
    ensures
        r1 * columns + c1 <= r2 * columns + c2,
{
    if r1 < r2 {
        assert(r1 * columns + columns <= r2 * columns) by (nonlinear_arith)
            requires
                r1 + 1 <= r2,
                columns >= 0,
        ;
    }
}

proof fn lemma_product_order(a: int, b: int, step: int)
    requires
        a <= b,
        step >= 0,
    ensures
        a * step <= b * step,
{
    assert(a * step <= b * step) by (nonlinear_arith)
        requires
            a <= b,
            step >= 0,
    ;
}

/// One visible pixel is written: byte by byte the framebuffer moves on from
/// `entry`, where the pixels before (`row`, `column`) are done.
proof fn lemma_painted_pixel(
    before: Seq<u8>,
    entry: Seq<u8>,
    after: Seq<u8>,
    want: Seq<u8>,
    region: Region,
    row: int,
    column: int,
    pixel: Seq<u8>,
)
    requires
        region.width > 0,
        region.x >= 0,
        region.y >= 0,
        0 <= column < region.columns,
        0 <= row < region.rows,
        region.x + column < region.width,
        region.y + row < region.height,
        entry.len() == before.len(),
        after.len() == before.len(),
        want.len() == before.len(),
        pixel.len() == 4,
        ({
            let target = ((region.y + row) * region.width + region.x + column) * 4;
            &&& target + 4 <= before.len()
            &&& forall|i: int|
                0 <= i < before.len() ==> #[trigger] after[i] == if target <= i < target + 4 {
                    pixel[i - target]
                } else {
                    entry[i]
                }
            &&& forall|i: int| target <= i < target + 4 ==> #[trigger] want[i] == pixel[i - target]
        }),
        forall|i: int|
            0 <= i < before.len() ==> #[trigger] entry[i] == if region.holds(
                before.len() as int,
                i,
            ) && precedes(region, i, row, column) {
                want[i]
            } else {
                before[i]
            },
    ensures
        forall|i: int|
            0 <= i < before.len() ==> #[trigger] after[i] == if region.holds(
                before.len() as int,
                i,
            ) && precedes(region, i, row, column + 1) {
                want[i]
            } else {
                before[i]
            },
{
    let tx = region.x + column;
    let ty = region.y + row;
    let target = (ty * region.width + tx) * 4;
    assert(ty * region.width + region.x + column == ty * region.width + tx);
    assert forall|i: int| 0 <= i < before.len() implies #[trigger] after[i] == if region.holds(
        before.len() as int,
        i,
    ) && precedes(region, i, row, column + 1) {
        want[i]
    } else {
        before[i]
    } by {
        lemma_index_of(region.width, i);
        if target <= i < target + 4 {
            lemma_pixel_at(region.width, tx, ty, i);
        } else {
            assert(entry[i] == after[i]);
            if region.row_of(i) == ty && region.column_of(i) == tx {
                assert(i / 4 == ty * region.width + tx);
                assert(false);
            }
        }
    }
}

/// Paints raw pixels on a region, clipped to the picture. `framebuffer` is
/// RGBA, row by row.
pub fn blit_raw(
    framebuffer: &mut [u8],
    width: usize,
    height: usize,
    format: &PixelFormat,
    x: u16,
    y: u16,
    rect_width: u16,
    rect_height: u16,
    pixels: &[u8],
)
    requires
        format.shifts_fit(),
    ensures
        final(framebuffer)@.len() == old(framebuffer)@.len(),
        forall|i: int|
            0 <= i < old(framebuffer)@.len() ==> #[trigger] final(framebuffer)@[i] == blitted(
                old(framebuffer)@,
                Region {
                    width: width as int,
                    height: height as int,
                    x: x as int,
                    y: y as int,
                    columns: rect_width as int,
                    rows: rect_height as int,
                },
                *format,
                pixels@,
                i,
            ),
{
    let ghost before = framebuffer@;
    let ghost region = Region {
        width: width as int,
        height: height as int,
        x: x as int,
        y: y as int,
        columns: rect_width as int,
        rows: rect_height as int,
    };
    let ghost want = Seq::new(before.len(), |i: int| blitted(before, region, *format, pixels@, i));
    let wire: usize = format.bytes_per_pixel();
    let step: usize = if wire == 0 {
        1
    } else {
        wire
    };
    let mut row: usize = 0;
    while row < rect_height as usize && y as usize + row < height
        invariant
            row <= rect_height,
            step == (if format.step() == 0 {
                1
            } else {
                format.step() as int
            }),
            step <= 32,
            format.shifts_fit(),
            framebuffer@.len() == before.len(),
            before == old(framebuffer)@,
            region == (Region {
                width: width as int,
                height: height as int,
                x: x as int,
                y: y as int,
                columns: rect_width as int,
                rows: rect_height as int,
            }),
            want == Seq::new(
                before.len(),
                |i: int| blitted(before, region, *format, pixels@, i),
            ),
            forall|i: int|
                0 <= i < before.len() ==> #[trigger] framebuffer@[i] == if region.holds(
                    before.len() as int,
                    i,
                ) && precedes(region, i, row as int, 0) {
                    want[i]
                } else {
                    before[i]
                },
        decreases rect_height - row,
    {
        let target_y: usize = y as usize + row;
        let mut column: usize = 0;
        while column < rect_width as usize && x as usize + column < width
            invariant
                row < rect_height,
                column <= rect_width,
                target_y == y + row,
                target_y < height,
                step == (if format.step() == 0 {
                    1
                } else {
                    format.step() as int
                }),
                step <= 32,
                format.shifts_fit(),
                framebuffer@.len() == before.len(),
                before == old(framebuffer)@,
                region == (Region {
                    width: width as int,
                    height: height as int,
                    x: x as int,
                    y: y as int,
                    columns: rect_width as int,
                    rows: rect_height as int,
                }),
                want == Seq::new(
                    before.len(),
                    |i: int| blitted(before, region, *format, pixels@, i),
                ),
                forall|i: int|
                    0 <= i < before.len() ==> #[trigger] framebuffer@[i] == if region.holds(
                        before.len() as int,
                        i,
                    ) && precedes(region, i, row as int, column as int) {
                        want[i]
                    } else {
                        before[i]
                    },
            decreases rect_width - column,
        {
            let target_x: usize = x as usize + column;
            assert(0 <= row * rect_width <= 65535 * 65535) by (nonlinear_arith)
                requires
                    0 <= row <= 65535,
                    0 <= rect_width <= 65535,
            ;
            let place: u64 = row as u64 * rect_width as u64 + column as u64;
            assert(0 <= place * step <= 65535 * 65537 * 32) by (nonlinear_arith)
                requires
                    0 <= place <= 65535 * 65537,
                    0 <= step <= 32,
            ;
            let source: u64 = place * step as u64;
            assert(0 <= target_y * width <= 0x10_0000_0000_0000_0000_0000) by (nonlinear_arith)
                requires
                    0 <= target_y <= 131070,
                    0 <= width <= 0xffff_ffff_ffff_ffff,
            ;
            let target: u128 = (target_y as u128 * width as u128 + target_x as u128) * 4;
            if source + step as u64 > pixels.len() as u64 || target + 4 > framebuffer.len() as u128 {
                proof {
                    assert forall|i: int| 0 <= i < before.len() && region.holds(
                        before.len() as int,
                        i,
                    ) && !precedes(region, i, row as int, column as int) implies #[trigger] want[i]
                        == before[i] by {
                        lemma_index_of(region.width, i);
                        let r = region.row_of(i) - region.y;
                        let c = region.column_of(i) - region.x;
                        lemma_place_order(region.columns, row as int, column as int, r, c);
                        lemma_product_order(place as int, region.place(i), step as int);
                        lemma_place_order(
                            region.width,
                            target_y as int,
                            target_x as int,
                            region.row_of(i),
                            region.column_of(i),
                        );
                    }
                }
                return ;
            }
            let at: usize = source as usize;
            let rest = slice_subrange(pixels, at, pixels.len());
            assert(rest@ =~= pixels@.skip(at as int));
            let rgb: u32 = match format.decode_pixel(rest) {
                Ok(value) => value,
                Err(_) => {
                    assert(false);
                    return ;
                },
            };
            let ghost entry = framebuffer@;
            put_pixel(framebuffer, target as usize, rgb);
            proof {
                let t = target as int;
                assert forall|i: int| t <= i < t + 4 implies #[trigger] want[i] == rgba(
                    rgb as int,
                )[i - t] by {
                    lemma_pixel_at(region.width, target_x as int, target_y as int, i);
                    assert(region.place(i) == place);
                }
                assert((region.y + row) * region.width + region.x + column == target_y * width
                    + target_x);
                lemma_painted_pixel(
                    before,
                    entry,
                    framebuffer@,
                    want,
                    region,
                    row as int,
                    column as int,
                    rgba(rgb as int),
                );
            }
            column = column + 1;
        }
        proof {
            assert forall|i: int| 0 <= i < before.len() implies #[trigger] framebuffer@[i]
                == if region.holds(before.len() as int, i) && precedes(region, i, row + 1, 0) {
                want[i]
            } else {
                before[i]
            } by {
                if region.holds(before.len() as int, i) {
                    lemma_index_of(region.width, i);
                }
            }
        }
        row = row + 1;
    }
}

/// Fills a region with one colour, clipped to the picture. A pixel that cannot
/// be decoded fills nothing.
pub fn fill_solid(
    framebuffer: &mut [u8],
    width: usize,
    height: usize,
    format: &PixelFormat,
    x: u16,
    y: u16,
    rect_width: u16,
    rect_height: u16,
    pixel: &[u8],
)
    requires
        format.shifts_fit(),
    ensures
        final(framebuffer)@.len() == old(framebuffer)@.len(),
        pixel@.len() < format.step() ==> final(framebuffer)@ == old(framebuffer)@,
        pixel@.len() >= format.step() ==> forall|i: int|
            0 <= i < old(framebuffer)@.len() ==> #[trigger] final(framebuffer)@[i] == filled(
                old(framebuffer)@,
                Region {
                    width: width as int,
                    height: height as int,
                    x: x as int,
                    y: y as int,
                    columns: rect_width as int,
                    rows: rect_height as int,
                },
                format.colour(pixel@),
                i,
            ),
{
    let rgb: u32 = match format.decode_pixel(pixel) {
        Ok(value) => value,
        Err(_) => {
            return ;
        },
    };
    let ghost before = framebuffer@;
    let ghost region = Region {
        width: width as int,
        height: height as int,
        x: x as int,
        y: y as int,
        columns: rect_width as int,
        rows: rect_height as int,
    };
    let ghost want = Seq::new(before.len(), |i: int| filled(before, region, rgb as int, i));
    let mut row: usize = 0;
    while row < rect_height as usize && y as usize + row < height
        invariant
            row <= rect_height,
            rgb <= 0xff_ffff,
            framebuffer@.len() == before.len(),
            region == (Region {
                width: width as int,
                height: height as int,
                x: x as int,
                y: y as int,
                columns: rect_width as int,
                rows: rect_height as int,
            }),
            want == Seq::new(before.len(), |i: int| filled(before, region, rgb as int, i)),
            forall|i: int|
                0 <= i < before.len() ==> #[trigger] framebuffer@[i] == if region.holds(
                    before.len() as int,
                    i,
                ) && precedes(region, i, row as int, 0) {
                    want[i]
                } else {
                    before[i]
                },
            before == old(framebuffer)@,
            rgb == format.colour(pixel@),
            pixel@.len() >= format.step(),
        decreases rect_height - row,
    {
        let target_y: usize = y as usize + row;
        let mut column: usize = 0;
        while column < rect_width as usize && x as usize + column < width
            invariant
                row < rect_height,
                column <= rect_width,
                target_y == y + row,
                target_y < height,
                rgb <= 0xff_ffff,
                framebuffer@.len() == before.len(),
                region == (Region {
                    width: width as int,
                    height: height as int,
                    x: x as int,
                    y: y as int,
                    columns: rect_width as int,
                    rows: rect_height as int,
                }),
                want == Seq::new(before.len(), |i: int| filled(before, region, rgb as int, i)),
                forall|i: int|
                    0 <= i < before.len() ==> #[trigger] framebuffer@[i] == if region.holds(
                        before.len() as int,
                        i,
                    ) && precedes(region, i, row as int, column as int) {
                        want[i]
                    } else {
                        before[i]
                    },
                before == old(framebuffer)@,
                rgb == format.colour(pixel@),
                pixel@.len() >= format.step(),
            decreases rect_width - column,
        {
            let target_x: usize = x as usize + column;
            assert(0 <= target_y * width <= 0x10_0000_0000_0000_0000_0000) by (nonlinear_arith)
                requires
                    0 <= target_y <= 131070,
                    0 <= width <= 0xffff_ffff_ffff_ffff,
            ;
            let target: u128 = (target_y as u128 * width as u128 + target_x as u128) * 4;
            if target + 4 > framebuffer.len() as u128 {
                proof {
                    assert forall|i: int| 0 <= i < before.len() && !precedes(
                        region,
                        i,
                        row as int,
                        column as int,
                    ) implies !(#[trigger] region.holds(before.len() as int, i)) by {
                        if region.holds(before.len() as int, i) {
                            lemma_index_of(region.width, i);
                            lemma_place_order(
                                region.width,
                                target_y as int,
                                target_x as int,
                                region.row_of(i),
                                region.column_of(i),
                            );
                        }
                    }
                }
                return ;
            }
            let ghost entry = framebuffer@;
            put_pixel(framebuffer, target as usize, rgb);
            proof {
                let t = target as int;
                assert forall|i: int| t <= i < t + 4 implies #[trigger] want[i] == rgba(
                    rgb as int,
                )[i - t] by {
                    lemma_pixel_at(region.width, target_x as int, target_y as int, i);
                }
                assert((region.y + row) * region.width + region.x + column == target_y * width
                    + target_x);
                lemma_painted_pixel(
                    before,
                    entry,
                    framebuffer@,
                    want,
                    region,
                    row as int,
                    column as int,
                    rgba(rgb as int),
                );
            }
            column = column + 1;
        }
        proof {
            assert forall|i: int| 0 <= i < before.len() implies #[trigger] framebuffer@[i]
                == if region.holds(before.len() as int, i) && precedes(region, i, row + 1, 0) {
                want[i]
            } else {
                before[i]
            } by {
                if region.holds(before.len() as int, i) {
                    lemma_index_of(region.width, i);
                }
            }
        }
        row = row + 1;
    }
}

/// `row` bytes written over `s` from byte `at`.
pub open spec fn overwritten(s: Seq<u8>, at: int, row: Seq<u8>) -> Seq<u8> {
    s.take(at) + row + s.skip(at + row.len())
}

/// The byte where row `row` of a region that starts at (`x`, `y`) begins.
pub open spec fn row_start(width: int, x: int, y: int, row: int) -> int {
    ((y + row) * width + x) * 4
}

/// Whether row `row` of a region lies inside a framebuffer of `len` bytes.
pub open spec fn row_fits(
    len: int,
    width: int,
    height: int,
    x: int,
    y: int,
    columns: int,
    row: int,
) -> bool {
    y + row < height && row_start(width, x, y, row) + 4 * columns <= len
}

/// Row `row` of the region that is copied: its bytes, or zeros where the region
/// reaches out of the framebuffer.
pub open spec fn copied_row(
    before: Seq<u8>,
    width: int,
    height: int,
    src_x: int,
    src_y: int,
    columns: int,
    row: int,
) -> Seq<u8> {
    if row_fits(before.len() as int, width, height, src_x, src_y, columns, row) {
        before.subrange(
            row_start(width, src_x, src_y, row),
            row_start(width, src_x, src_y, row) + 4 * columns,
        )
    } else {
        Seq::new((4 * columns) as nat, |i: int| 0u8)
    }
}

/// A copy between two places of a framebuffer.
pub struct Copying {
    pub width: int,
    pub height: int,
    pub x: int,
    pub y: int,
    pub columns: int,
    pub src_x: int,
    pub src_y: int,
}

/// The framebuffer after the first `rows` rows of a region were copied, each from
/// the picture as it was before; rows that do not fit are left out.
pub open spec fn copied(before: Seq<u8>, c: Copying, rows: nat) -> Seq<u8>
    decreases rows,
{
    if rows == 0 {
        before
    } else {
        let row = rows - 1;
        let rest = copied(before, c, row as nat);
        if row_fits(before.len() as int, c.width, c.height, c.x, c.y, c.columns, row) {
            overwritten(
                rest,
                row_start(c.width, c.x, c.y, row),
                copied_row(before, c.width, c.height, c.src_x, c.src_y, c.columns, row),
            )
        } else {
            rest
        }
    }
}

proof fn lemma_row_start(width: int, x: int, y: int, a: int, b: int)
    requires
        a <= b,
        width >= 0,
    ensures
        row_start(width, x, y, a) <= row_start(width, x, y, b),
{
    assert((y + a) * width <= (y + b) * width) by (nonlinear_arith)
        requires
            a <= b,
            width >= 0,
    ;
}

proof fn lemma_copied_len(before: Seq<u8>, c: Copying, rows: nat)
    requires
        c.width >= 0,
        c.x >= 0,
        c.y >= 0,
        c.src_x >= 0,
        c.src_y >= 0,
        c.columns >= 0,
    ensures
        copied(before, c, rows).len() == before.len(),
    decreases rows,
{
    if rows > 0 {
        let row = rows - 1;
        lemma_copied_len(before, c, row as nat);
        lemma_start_positive(c.width, c.x, c.y, row);
        lemma_start_positive(c.width, c.src_x, c.src_y, row);
    }
}

proof fn lemma_start_positive(width: int, x: int, y: int, row: int)
    ensures
        width >= 0 && x >= 0 && y >= 0 && row >= 0 ==> row_start(width, x, y, row) >= 0,
{
    if width >= 0 && x >= 0 && y >= 0 && row >= 0 {
        assert((y + row) * width >= 0) by (nonlinear_arith)
            requires
                y + row >= 0,
                width >= 0,
        ;
    }
}

/// Rows behind one that does not fit are left out as well.
proof fn lemma_copied_stops(before: Seq<u8>, c: Copying, from: nat, rows: nat)
    requires
        from <= rows,
        c.width >= 0,
        !row_fits(before.len() as int, c.width, c.height, c.x, c.y, c.columns, from as int),
    ensures
        copied(before, c, rows) == copied(before, c, from),
    decreases rows,
{
    if rows > from {
        lemma_row_start(c.width, c.x, c.y, from as int, rows - 1);
        lemma_copied_stops(before, c, from, (rows - 1) as nat);
    }
}

/// Where row `row` of a region starts, if it lies inside the framebuffer.
fn fitting_row(
    len: usize,
    width: usize,
    height: usize,
    x: u16,
    y: u16,
    columns: u16,
    row: usize,
) -> (r: Option<usize>)
    requires
        row <= 65535,
    ensures
        r is Some <==> row_fits(
            len as int,
            width as int,
            height as int,
            x as int,
            y as int,
            columns as int,
            row as int,
        ),
        r matches Some(at) ==> at == row_start(width as int, x as int, y as int, row as int) && at
            + 4 * columns <= len,
{
    let at_y: usize = y as usize + row;
    if at_y >= height {
        return None;
    }
    assert(0 <= at_y * width <= 0x10_0000_0000_0000_0000_0000) by (nonlinear_arith)
        requires
            0 <= at_y <= 131070,
            0 <= width <= 0xffff_ffff_ffff_ffff,
    ;
    let start: u128 = (at_y as u128 * width as u128 + x as u128) * 4;
    if start + 4 * columns as u128 > len as u128 {
        return None;
    }
    Some(start as usize)
}

/// Copies one region of the picture to another place, as if through a second
/// buffer, so that regions that overlap do not smear.
pub fn copy_rect(
    framebuffer: &mut [u8],
    width: usize,
    height: usize,
    x: u16,
    y: u16,
    rect_width: u16,
    rect_height: u16,
    src_x: u16,
    src_y: u16,
)
    ensures
        final(framebuffer)@ == copied(
            old(framebuffer)@,
            Copying {
                width: width as int,
                height: height as int,
                x: x as int,
                y: y as int,
                columns: rect_width as int,
                src_x: src_x as int,
                src_y: src_y as int,
            },
            rect_height as nat,
        ),
        final(framebuffer)@.len() == old(framebuffer)@.len(),
{
    let ghost before = framebuffer@;
    let ghost c = Copying {
        width: width as int,
        height: height as int,
        x: x as int,
        y: y as int,
        columns: rect_width as int,
        src_x: src_x as int,
        src_y: src_y as int,
    };
    let len: usize = framebuffer.len();
    let staging: Vec<u8> = vstd::slice::slice_to_vec(framebuffer);
    let row_bytes: usize = 4 * rect_width as usize;
    let mut row: usize = 0;
    while row < rect_height as usize
        invariant
            row <= rect_height,
            row_bytes == 4 * rect_width,
            staging@ == before,
            len == before.len(),
            framebuffer@.len() == before.len(),
            before == old(framebuffer)@,
            c == (Copying {
                width: width as int,
                height: height as int,
                x: x as int,
                y: y as int,
                columns: rect_width as int,
                src_x: src_x as int,
                src_y: src_y as int,
            }),
            framebuffer@ == copied(before, c, row as nat),
        decreases rect_height - row,
    {
        match fitting_row(len, width, height, x, y, rect_width, row) {
            None => {
                proof {
                    lemma_copied_stops(before, c, row as nat, rect_height as nat);
                }
                return ;
            },
            Some(target) => {
                let source: Option<usize> = fitting_row(
                    len,
                    width,
                    height,
                    src_x,
                    src_y,
                    rect_width,
                    row,
                );
                let ghost entry = framebuffer@;
                let ghost line = copied_row(
                    before,
                    width as int,
                    height as int,
                    src_x as int,
                    src_y as int,
                    rect_width as int,
                    row as int,
                );
                proof {
                    lemma_start_positive(width as int, src_x as int, src_y as int, row as int);
                    assert(line.len() == row_bytes);
                }
                let mut i: usize = 0;
                while i < row_bytes
                    invariant
                        i <= row_bytes,
                        target + row_bytes <= len,
                        len == before.len(),
                        framebuffer@.len() == before.len(),
                        entry.len() == before.len(),
                        staging@ == before,
                        line.len() == row_bytes,
                        source matches Some(at) ==> at + row_bytes <= len && line
                            == before.subrange(at as int, at + row_bytes),
                        source is None ==> line == Seq::new(row_bytes as nat, |i: int| 0u8),
                        forall|k: int|
                            0 <= k < before.len() ==> #[trigger] framebuffer@[k] == if target <= k
                                < target + i {
                                line[k - target]
                            } else {
                                entry[k]
                            },
                    decreases row_bytes - i,
                {
                    let value: u8 = match source {
                        Some(at) => staging[at + i],
                        None => 0,
                    };
                    assert(value == line[i as int]);
                    framebuffer[target + i] = value;
                    i = i + 1;
                }
                assert(framebuffer@ =~= overwritten(entry, target as int, line));
            },
        }
        row = row + 1;
    }
}

/// Copying a region inside the picture puts at each byte of the new place the
/// byte that stood at the same place of the old one.
pub proof fn lemma_copy_moves_pixels(before: Seq<u8>, c: Copying, rows: nat, row: int, i: int)
    requires
        c.width > 0,
        c.x >= 0,
        c.y >= 0,
        c.src_x >= 0,
        c.src_y >= 0,
        0 <= c.columns,
        c.x + c.columns <= c.width,
        c.src_x + c.columns <= c.width,
        c.y + rows <= c.height,
        c.src_y + rows <= c.height,
        before.len() == c.width * c.height * 4,
        0 <= row < rows,
        0 <= i < 4 * c.columns,
    ensures
        copied(before, c, rows)[row_start(c.width, c.x, c.y, row) + i] == before[row_start(
            c.width,
            c.src_x,
            c.src_y,
            row,
        ) + i],
    decreases rows,
{
    let last = rows - 1;
    lemma_row_inside(c.width, c.height, c.x, c.y, c.columns, last);
    lemma_row_inside(c.width, c.height, c.src_x, c.src_y, c.columns, last);
    lemma_row_inside(c.width, c.height, c.x, c.y, c.columns, row);
    lemma_copied_len(before, c, last as nat);
    lemma_start_positive(c.width, c.x, c.y, row);
    lemma_start_positive(c.width, c.x, c.y, last);
    lemma_start_positive(c.width, c.src_x, c.src_y, last);
    if row < last {
        lemma_copy_moves_pixels(before, c, last as nat, row, i);
        assert((c.y + row) * c.width + c.width <= (c.y + last) * c.width) by (nonlinear_arith)
            requires
                row + 1 <= last,
                c.width > 0,
        ;
    }
}

proof fn lemma_row_inside(width: int, height: int, x: int, y: int, columns: int, row: int)
    requires
        width > 0,
        x + columns <= width,
        y >= 0,
        row >= 0,
        y + row < height,
    ensures
        row_start(width, x, y, row) + 4 * columns <= width * height * 4,
{
    assert((y + row) * width + width <= width * height) by (nonlinear_arith)
        requires
            y + row + 1 <= height,
            width > 0,
    ;
}

/// What one rectangle does to a picture of the given size.
pub open spec fn drawn(
    before: Seq<u8>,
    width: int,
    height: int,
    format: PixelFormat,
    rectangle: protocol::RectangleView,
) -> Seq<u8> {
    match rectangle {
        protocol::RectangleView::Raw { x, y, width: rw, height: rh, pixels } => Seq::new(
            before.len(),
            |i: int|
                blitted(
                    before,
                    Region {
                        width,
                        height,
                        x: x as int,
                        y: y as int,
                        columns: rw as int,
                        rows: rh as int,
                    },
                    format,
                    pixels,
                    i,
                ),
        ),
        protocol::RectangleView::CopyRect { x, y, width: rw, height: rh, src_x, src_y } => copied(
            before,
            Copying {
                width,
                height,
                x: x as int,
                y: y as int,
                columns: rw as int,
                src_x: src_x as int,
                src_y: src_y as int,
            },
            rh as nat,
        ),
        protocol::RectangleView::Solid { x, y, width: rw, height: rh, pixel } => if pixel.len()
            < format.step() {
            before
        } else {
            Seq::new(
                before.len(),
                |i: int|
                    filled(
                        before,
                        Region {
                            width,
                            height,
                            x: x as int,
                            y: y as int,
                            columns: rw as int,
                            rows: rh as int,
                        },
                        format.colour(pixel),
                        i,
                    ),
            )
        },
        protocol::RectangleView::DesktopSize { .. } => before,
    }
}

/// What the rectangles of an update do to a picture, one after the other.
pub open spec fn all_drawn(
    before: Seq<u8>,
    width: int,
    height: int,
    format: PixelFormat,
    rectangles: Seq<protocol::RectangleView>,
) -> Seq<u8>
    decreases rectangles.len(),
{
    if rectangles.len() == 0 {
        before
    } else {
        drawn(
            all_drawn(before, width, height, format, rectangles.drop_last()),
            width,
            height,
            format,
            rectangles.last(),
        )
    }
}

/// The last size that the rectangles of an update report.
pub open spec fn reported_size(rectangles: Seq<protocol::RectangleView>) -> Option<(usize, usize)>
    decreases rectangles.len(),
{
    if rectangles.len() == 0 {
        None
    } else {
        match rectangles.last() {
            protocol::RectangleView::DesktopSize { width, height } => Some(
                (width as usize, height as usize),
            ),
            _ => reported_size(rectangles.drop_last()),
        }
    }
}

/// Whether the picture of the size that an update reports can be held in memory.
pub open spec fn size_is_addressable(rectangles: Seq<protocol::RectangleView>) -> bool {
    reported_size(rectangles) matches Some((width, height)) ==> width * height * 4 <= usize::MAX
}

/// Paints the rectangles of an update and returns the new size if one was
/// reported, in which case the picture starts afresh.
pub fn apply_rectangles(
    framebuffer: &mut Vec<u8>,
    width: usize,
    height: usize,
    format: &PixelFormat,
    rectangles: &[Rectangle],
) -> (size: Option<(usize, usize)>)
    requires
        format.shifts_fit(),
        size_is_addressable(protocol::views(rectangles@)),
    ensures
        size == reported_size(protocol::views(rectangles@)),
        match size {
            Some((w, h)) => final(framebuffer)@ == Seq::new((w * h * 4) as nat, |i: int| 0u8),
            None => final(framebuffer)@ == all_drawn(
                old(framebuffer)@,
                width as int,
                height as int,
                *format,
                protocol::views(rectangles@),
            ),
        },
{
    let ghost all = protocol::views(rectangles@);
    let ghost before = framebuffer@;
    let mut size: Option<(usize, usize)> = None;
    let mut n: usize = 0;
    while n < rectangles.len()
        invariant
            n <= rectangles@.len(),
            format.shifts_fit(),
            all == protocol::views(rectangles@),
            size == reported_size(all.take(n as int)),
            framebuffer@ == all_drawn(
                before,
                width as int,
                height as int,
                *format,
                all.take(n as int),
            ),
        decreases rectangles@.len() - n,
    {
        let ghost entry = framebuffer@;
        proof {
            let t = all.take(n + 1);
            assert(t.drop_last() =~= all.take(n as int));
            assert(t.last() == rectangles@[n as int]@);
        }
        let ghost view = rectangles@[n as int]@;
        match &rectangles[n] {
            Rectangle::Raw { x, y, width: rw, height: rh, pixels } => {
                blit_raw(
                    framebuffer.as_mut_slice(),
                    width,
                    height,
                    format,
                    *x,
                    *y,
                    *rw,
                    *rh,
                    pixels.as_slice(),
                );
            },
            Rectangle::CopyRect { x, y, width: rw, height: rh, src_x, src_y } => {
                copy_rect(
                    framebuffer.as_mut_slice(),
                    width,
                    height,
                    *x,
                    *y,
                    *rw,
                    *rh,
                    *src_x,
                    *src_y,
                );
            },
            Rectangle::Solid { x, y, width: rw, height: rh, pixel } => {
                fill_solid(
                    framebuffer.as_mut_slice(),
                    width,
                    height,
                    format,
                    *x,
                    *y,
                    *rw,
                    *rh,
                    pixel.as_slice(),
                );
            },
            Rectangle::DesktopSize { width: new_width, height: new_height } => {
                size = Some((*new_width as usize, *new_height as usize));
            },
        }
        assert(framebuffer@ =~= drawn(entry, width as int, height as int, *format, view));
        n = n + 1;
    }
    assert(all.take(n as int) =~= all);
    if let Some((new_width, new_height)) = size {
        proof {
            lemma_reported_bounds(all);
            assert(0 <= new_width * new_height <= new_width * new_height * 4) by (nonlinear_arith)
                requires
                    0 <= new_width,
                    0 <= new_height,
            ;
        }
        *framebuffer = vec![0u8; new_width * new_height * 4];
        assert(framebuffer@ =~= Seq::new((new_width * new_height * 4) as nat, |i: int| 0u8));
    }
    size
}

proof fn lemma_reported_bounds(rectangles: Seq<protocol::RectangleView>)
    ensures
        reported_size(rectangles) matches Some((w, h)) ==> w <= 65535 && h <= 65535,
    decreases rectangles.len(),
{
    if rectangles.len() > 0 {
        lemma_reported_bounds(rectangles.drop_last());
    }
}

/// Painting keeps the size of the picture.
pub proof fn lemma_painting_keeps_size(
    before: Seq<u8>,
    width: int,
    height: int,
    format: PixelFormat,
    rectangles: Seq<protocol::RectangleView>,
)
    requires
        width >= 0,
    ensures
        all_drawn(before, width, height, format, rectangles).len() == before.len(),
    decreases rectangles.len(),
{
    if rectangles.len() > 0 {
        lemma_painting_keeps_size(before, width, height, format, rectangles.drop_last());
        if let protocol::RectangleView::CopyRect { x, y, width: rw, height: rh, src_x, src_y } =
            rectangles.last() {
            lemma_copied_len(
                all_drawn(before, width, height, format, rectangles.drop_last()),
                Copying {
                    width,
                    height,
                    x: x as int,
                    y: y as int,
                    columns: rw as int,
                    src_x: src_x as int,
                    src_y: src_y as int,
                },
                rh as nat,
            );
        }
    }
}

/// Hands the picture over and leaves a blank one of the same size.
pub fn take_buffer(working: &mut Vec<u8>) -> (taken: Vec<u8>)
    ensures
        taken@ == old(working)@,
        final(working)@ == Seq::new(old(working)@.len(), |i: int| 0u8),
{
    let mut taken: Vec<u8> = Vec::new();
    std::mem::swap(&mut taken, working);
    *working = vec![0u8; taken.len()];
    assert(working@ =~= Seq::new(taken@.len(), |i: int| 0u8));
    taken
}

/// The encodings this client advertises.
pub fn supported_encodings() -> (r: Vec<Encoding>)
    ensures
        r@ == seq![Encoding::Raw],
{
    let mut r: Vec<Encoding> = Vec::new();
    r.push(Encoding::Raw);
    assert(r@ =~= seq![Encoding::Raw]);
    r
}

/// What a session reports about itself.
#[derive(Debug, Clone, PartialEq, Eq)]
pub struct VncSnapshot {
    pub phase: String,
    pub error: Option<String>,
    pub width: i32,
    pub height: i32,
    pub received_units: u64,
    pub taken_frames: u64,
    pub keyboard_allowed: bool,
    pub clipboard_allowed: bool,
    pub closed: bool,
}

/// The state of a connected session.
pub struct VncLiveSession {
    /// The picture updates are painted on.
    pub working: Vec<u8>,
    /// Size of that picture.
    pub current: (usize, usize),
    /// The picture a frontend can take, empty before the first update.
    pub framebuffer: Vec<u8>,
    /// Set when a picture is available and not yet taken.
    pub frame_ready: bool,
    /// Clipboard text that the frontend has not read.
    pub clipboard: Option<String>,
    /// Why reading ended, where it was not asked to.
    pub failure: Option<String>,
    pub received_updates: u64,
    pub received_rectangles: u64,
    pub taken_frames: u64,
    pub closed: bool,
    pub keyboard_allowed: bool,
    /// Size of the picture a frontend can take.
    pub width: u16,
    pub height: u16,
    pub name: String,
    pub version: String,
    pub security: String,
    /// The pixel format the server sends.
    pub format: PixelFormat,
}

/// The phase that a session is in.
pub open spec fn phase_of(s: &VncLiveSession) -> Seq<char> {
    if s.closed {
        "closed"@
    } else if s.failure is Some {
        "failed"@
    } else if s.frame_ready || s.framebuffer@.len() > 0 {
        "streaming"@
    } else {
        "connected"@
    }
}

impl VncLiveSession {
    /// Whether updates can be painted: pixels can be decoded.
    pub open spec fn paintable(&self) -> bool {
        self.format.shifts_fit()
    }

    /// Whether the pictures have the size that the session reports: four bytes for each
    /// pixel, or none at all before the first update.
    pub open spec fn wf(&self) -> bool {
        let bytes = self.width * self.height * 4;
        &&& self.current == (self.width as usize, self.height as usize)
        &&& self.working@.len() == bytes
        &&& self.framebuffer@.len() == 0 || self.framebuffer@.len() == bytes
    }

    /// The state of a session whose handshake is complete.
    pub fn open(session: &VncSession, allow_input: bool) -> (r: Self)
        requires
            session.info.width * session.info.height * 4 <= usize::MAX,
        ensures
            r.wf(),
            r.working@ == Seq::new(
                (session.info.width * session.info.height * 4) as nat,
                |i: int| 0u8,
            ),
            r.current == (session.info.width as usize, session.info.height as usize),
            r.framebuffer@.len() == 0,
            !r.frame_ready,
            r.clipboard is None,
            r.failure is None,
            r.received_updates == 0,
            r.received_rectangles == 0,
            r.taken_frames == 0,
            !r.closed,
            r.keyboard_allowed == allow_input,
            r.width == session.info.width,
            r.height == session.info.height,
            r.name@ == session.info.name@,
            r.version@ == session.info.version@,
            r.security@ == session.info.security.name(),
            r.format == session.info.format,
    {
        let width: usize = session.info.width as usize;
        let height: usize = session.info.height as usize;
        assert(0 <= width * height <= width * height * 4) by (nonlinear_arith)
            requires
                0 <= width,
                0 <= height,
        ;
        let working: Vec<u8> = vec![0u8; width * height * 4];
        assert(working@ =~= Seq::new((width * height * 4) as nat, |i: int| 0u8));
        VncLiveSession {
            working,
            current: (width, height),
            framebuffer: Vec::new(),
            frame_ready: false,
            clipboard: None,
            failure: None,
            received_updates: 0,
            received_rectangles: 0,
            taken_frames: 0,
            closed: false,
            keyboard_allowed: allow_input,
            width: session.info.width,
            height: session.info.height,
            name: session.info.name.clone(),
            version: session.info.version.clone(),
            security: session.info.security.label(),
            format: session.info.format,
        }
    }

    /// The server's name.
    pub fn server_name(&self) -> (r: &str)
        ensures
            r@ == self.name@,
    {
        self.name.as_str()
    }

    /// The version the server announced.
    pub fn server_version(&self) -> (r: &str)
        ensures
            r@ == self.version@,
    {
        self.version.as_str()
    }

    /// The security type that was used.
    pub fn security_label(&self) -> (r: &str)
        ensures
            r@ == self.security@,
    {
        self.security.as_str()
    }

    /// Width of the framebuffer.
    pub fn width(&self) -> (r: u16)
        ensures
            r == self.width,
    {
        self.width
    }

    /// Height of the framebuffer.
    pub fn height(&self) -> (r: u16)
        ensures
            r == self.height,
    {
        self.height
    }

    /// The current state as a frontend reads it.
    pub fn snapshot(&self) -> (r: VncSnapshot)
        ensures
            r.phase@ == phase_of(self),
            r.error is Some <==> self.failure is Some,
            r.error matches Some(e) ==> e@ == self.failure->0@,
            r.width == self.width,
            r.height == self.height,
            r.received_units == self.received_updates,
            r.taken_frames == self.taken_frames,
            r.keyboard_allowed == self.keyboard_allowed,
            r.clipboard_allowed,
            r.closed == self.closed,
    {
        let phase = if self.closed {
            "closed".to_owned()
        } else if self.failure.is_some() {
            "failed".to_owned()
        } else if self.frame_ready || self.framebuffer.len() > 0 {
            "streaming".to_owned()
        } else {
            "connected".to_owned()
        };
        let error: Option<String> = match &self.failure {
            Some(e) => Some(e.clone()),
            None => None,
        };
        VncSnapshot {
            phase,
            error,
            width: self.width as i32,
            height: self.height as i32,
            received_units: self.received_updates,
            taken_frames: self.taken_frames,
            keyboard_allowed: self.keyboard_allowed,
            clipboard_allowed: true,
            closed: self.closed,
        }
    }

    /// The newest picture, or nothing when no new one arrived.
    pub fn take_frame(&mut self) -> (r: Option<(u32, u32, Vec<u8>)>)
        ensures
            r is Some <==> old(self).frame_ready && old(self).framebuffer@.len() > 0,
            r matches Some((w, h, pixels)) ==> w == old(self).width && h == old(self).height
                && pixels@ == old(self).framebuffer@ && (old(self).wf() ==> pixels@.len() == w * h
                * 4),
            old(self).wf() ==> final(self).wf(),
            *final(self) == (VncLiveSession {
                frame_ready: if r is Some {
                    false
                } else {
                    old(self).frame_ready
                },
                taken_frames: if r is Some {
                    wrapped_next(old(self).taken_frames)
                } else {
                    old(self).taken_frames
                },
                ..*old(self)
            }),
    {
        if !self.frame_ready || self.framebuffer.len() == 0 {
            return None;
        }
        self.frame_ready = false;
        self.taken_frames = next_count(self.taken_frames);
        let pixels = vstd::slice::slice_to_vec(self.framebuffer.as_slice());
        Some((self.width as u32, self.height as u32, pixels))
    }

    /// Clipboard text that the server sent, taken once.
    pub fn take_clipboard(&mut self) -> (r: Option<String>)
        ensures
            r == old(self).clipboard,
            old(self).wf() ==> final(self).wf(),
            *final(self) == (VncLiveSession { clipboard: None, ..*old(self) }),
    {
        let mut taken: Option<String> = None;
        std::mem::swap(&mut taken, &mut self.clipboard);
        taken
    }

    /// The message for a pointer state; refused outside the framebuffer.
    pub fn send_mouse(&self, buttons: u8, x: u16, y: u16) -> (r: Result<[u8; 6], VncError>)
        ensures
            match r {
                Ok(message) => x < self.width && y < self.height && message@ == seq![
                    protocol::C2S_POINTER_EVENT,
                    buttons,
                ] + bytes::be16(x as int) + bytes::be16(y as int),
                Err(e) => !(x < self.width && y < self.height) && e@ == vnc::VncErrorView::Geometry(
                    "pointer ("@ + text::decimal(x as nat) + ","@ + text::decimal(y as nat)
                        + ") is outside the "@ + session::dimensions(
                        self.width as int,
                        self.height as int,
                    ) + " framebuffer"@,
                ),
            },
    {
        if x >= self.width || y >= self.height {
            let mut message = "pointer (".to_owned();
            message.append(text::decimal_text(x as u64).as_str());
            message.append(",");
            message.append(text::decimal_text(y as u64).as_str());
            message.append(") is outside the ");
            session::push_dimensions(&mut message, self.width, self.height);
            message.append(" framebuffer");
            return Err(VncError::geometry(message));
        }
        Ok(protocol::encode_pointer_event(buttons, x, y))
    }

    /// The message for a key press or release as an X11 keysym.
    pub fn send_key(&self, down: bool, keysym: u32) -> (r: [u8; 8])
        ensures
            r@ == seq![protocol::C2S_KEY_EVENT, protocol::flag(down), 0, 0] + bytes::be32(
                keysym as int,
            ),
    {
        protocol::encode_key_event(down, keysym)
    }

    /// The message that hands the server clipboard text.
    pub fn send_clipboard(&self, text: &str) -> (r: Result<Vec<u8>, VncError>)
        ensures
            ({
                let body = vstd::utf8::encode_utf8(text@);
                match r {
                    Ok(out) => body.len() <= u32::MAX && out@ == seq![
                        protocol::C2S_CLIENT_CUT_TEXT,
                        0,
                        0,
                        0,
                    ] + bytes::be32(body.len() as int) + body,
                    Err(e) => body.len() > u32::MAX && e@ == vnc::VncErrorView::Protocol(
                        "clipboard text too long"@,
                    ),
                }
            }),
    {
        protocol::encode_client_cut_text(text)
    }

    /// The request for a full repaint.
    pub fn refresh(&self) -> (r: Vec<u8>)
        ensures
            r@ == seq![protocol::C2S_FRAMEBUFFER_UPDATE_REQUEST, 0, 0, 0, 0, 0] + bytes::be16(
                self.width as int,
            ) + bytes::be16(self.height as int),
    {
        let r = protocol::encode_framebuffer_update_request(false, 0, 0, self.width, self.height);
        assert(r@ =~= seq![protocol::C2S_FRAMEBUFFER_UPDATE_REQUEST, 0, 0, 0, 0, 0] + bytes::be16(
            self.width as int,
        ) + bytes::be16(self.height as int));
        r
    }

    /// Accepts a capture rate from 1 to 240, which a VNC server has no use for.
    pub fn set_requested_fps(&self, fps: u32) -> (r: Result<(), VncError>)
        ensures
            r is Ok <==> 1 <= fps <= 240,
            r matches Err(e) ==> e@ == vnc::VncErrorView::Protocol(
                "requested fps "@ + text::decimal(fps as nat),
            ),
    {
        if fps < 1 || fps > 240 {
            return Err(
                VncError::protocol(
                    text::joined("requested fps ", text::decimal_text(fps as u64).as_str()),
                ),
            );
        }
        Ok(())
    }

    /// Marks the session closed; true where it was open.
    pub fn close(&mut self) -> (r: bool)
        ensures
            r == !old(self).closed,
            old(self).wf() ==> final(self).wf(),
            *final(self) == (VncLiveSession { closed: true, ..*old(self) }),
    {
        let open = !self.closed;
        self.closed = true;
        open
    }

    /// Takes in a message of the server. An update that reports a new size changes the
    /// size of the session with the picture.
    pub fn on_message(&mut self, message: ServerMessage)
        requires
            old(self).paintable(),
            message matches ServerMessage::FramebufferUpdate(update) ==> size_is_addressable(
                protocol::views(update.rectangles@),
            ),
        ensures
            old(self).wf() ==> final(self).wf(),
            match message {
                ServerMessage::FramebufferUpdate(update) => {
                    let rectangles = protocol::views(update.rectangles@);
                    let size = reported_size(rectangles);
                    &&& final(self).framebuffer@ == match size {
                        Some((w, h)) => Seq::new((w * h * 4) as nat, |i: int| 0u8),
                        None => all_drawn(
                            old(self).working@,
                            old(self).current.0 as int,
                            old(self).current.1 as int,
                            old(self).format,
                            rectangles,
                        ),
                    }
                    &&& final(self).working@ == Seq::new(
                        final(self).framebuffer@.len(),
                        |i: int| 0u8,
                    )
                    &&& *final(self) == (VncLiveSession {
                        framebuffer: final(self).framebuffer,
                        working: final(self).working,
                        current: match size {
                            Some(s) => s,
                            None => old(self).current,
                        },
                        width: match size {
                            Some((w, _)) => w as u16,
                            None => old(self).width,
                        },
                        height: match size {
                            Some((_, h)) => h as u16,
                            None => old(self).height,
                        },
                        frame_ready: true,
                        received_updates: wrapped_next(old(self).received_updates),
                        received_rectangles: wrapped_sum(
                            old(self).received_rectangles,
                            rectangles.len(),
                        ),
                        ..*old(self)
                    })
                },
                ServerMessage::Clipboard(cut) => *final(self) == (VncLiveSession {
                    clipboard: Some(cut.text),
                    ..*old(self)
                }),
                _ => *final(self) == *old(self),
            },
    {
        match message {
            ServerMessage::FramebufferUpdate(update) => {
                let (width, height) = self.current;
                let format = self.format;
                proof {
                    let rectangles = protocol::views(update.rectangles@);
                    lemma_reported_bounds(rectangles);
                    lemma_painting_keeps_size(
                        self.working@,
                        width as int,
                        height as int,
                        format,
                        rectangles,
                    );
                }
                let resized = apply_rectangles(
                    &mut self.working,
                    width,
                    height,
                    &format,
                    update.rectangles.as_slice(),
                );
                if let Some(size) = resized {
                    self.current = size;
                    self.width = size.0 as u16;
                    self.height = size.1 as u16;
                }
                self.received_updates = next_count(self.received_updates);
                self.received_rectangles = self.received_rectangles.wrapping_add(
                    update.rectangles.len() as u64,
                );
                self.framebuffer = take_buffer(&mut self.working);
                self.frame_ready = true;
            },
            ServerMessage::Clipboard(cut) => {
                self.clipboard = Some(cut.text);
            },
            ServerMessage::Bell => {},
            ServerMessage::ColourMapIgnored { .. } => {},
        }
    }

    /// Takes in the end of reading. A close that was asked for is no failure.
    pub fn on_error(&mut self, error: &VncError)
        ensures
            final(self).failure is Some <==> !old(self).closed || old(self).failure is Some,
            !old(self).closed ==> final(self).failure->0@ == error.shown(),
            old(self).closed ==> final(self).failure == old(self).failure,
            old(self).wf() ==> final(self).wf(),
            *final(self) == (VncLiveSession {
                failure: final(self).failure,
                closed: true,
                ..*old(self)
            }),
    {
        if !self.closed {
            self.failure = Some(error.to_string());
        }
        self.closed = true;
    }
}

/// The count after `n`, which starts again at zero.
pub open spec fn wrapped_next(n: u64) -> u64 {
    wrapped_sum(n, 1)
}

/// The sum of two counts, modulo the width of a counter.
pub open spec fn wrapped_sum(n: u64, more: nat) -> u64 {
    ((n + more) % 0x1_0000_0000_0000_0000) as u64
}

fn next_count(n: u64) -> (r: u64)
    ensures
        r == wrapped_next(n),
{
    n.wrapping_add(1)
}

/// A picture is handed out once.
pub proof fn lemma_frame_is_taken_once(before: VncLiveSession, after: VncLiveSession)
    requires
        after == (VncLiveSession {
            frame_ready: false,
            taken_frames: wrapped_next(before.taken_frames),
            ..before
        }),
    ensures
        !(after.frame_ready && after.framebuffer@.len() > 0),
{
}

} // verus!
