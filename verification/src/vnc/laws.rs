//! What holds of updates and pictures as a whole: what a server writes is what a client
//! reads, and what is read ends up where it belongs.
use vstd::prelude::*;
use crate::bytes;
use crate::vnc::live;
use crate::vnc::protocol;
use crate::vnc::protocol::{PixelFormat, RectangleRead, RectangleView, UpdateRead};
use crate::vnc::session;

verus! {

/// A number below 65536 as a server writes it.
pub open spec fn two(v: int) -> Seq<u8> {
    seq![(v / 256) as u8, (v % 256) as u8]
}

/// The twelve bytes in front of a rectangle, with the four of its encoding.
pub open spec fn header(x: u16, y: u16, width: u16, height: u16, encoding: Seq<u8>) -> Seq<u8> {
    two(x as int) + two(y as int) + two(width as int) + two(height as int) + encoding
}

/// Whether a server can write a rectangle in a format: a region of one colour has no
/// encoding, and raw pixels fill their region.
pub open spec fn writable(rectangle: RectangleView, format: PixelFormat) -> bool {
    match rectangle {
        RectangleView::Raw { width, height, pixels, .. } => pixels.len() == width * height
            * format.step(),
        RectangleView::Solid { .. } => false,
        _ => true,
    }
}

/// A rectangle as a server writes it.
pub open spec fn written(rectangle: RectangleView) -> Seq<u8> {
    match rectangle {
        RectangleView::Raw { x, y, width, height, pixels } => header(
            x,
            y,
            width,
            height,
            seq![0u8, 0, 0, 0],
        ) + pixels,
        RectangleView::CopyRect { x, y, width, height, src_x, src_y } => header(
            x,
            y,
            width,
            height,
            seq![0u8, 0, 0, 1],
        ) + two(src_x as int) + two(src_y as int),
        RectangleView::DesktopSize { width, height } => header(
            0,
            0,
            width,
            height,
            seq![255u8, 255, 255, 33],
        ),
        RectangleView::Solid { .. } => Seq::empty(),
    }
}

/// Rectangles as a server writes them, one behind the other.
pub open spec fn all_written(rectangles: Seq<RectangleView>) -> Seq<u8>
    decreases rectangles.len(),
{
    if rectangles.len() == 0 {
        Seq::empty()
    } else {
        written(rectangles[0]) + all_written(rectangles.skip(1))
    }
}

proof fn lemma_header(x: u16, y: u16, width: u16, height: u16, encoding: Seq<u8>, rest: Seq<u8>)
    requires
        encoding.len() == 4,
    ensures
        ({
            let b = header(x, y, width, height, encoding) + rest;
            &&& b.len() == 12 + rest.len()
            &&& b[0] * 256 + b[1] == x
            &&& b[2] * 256 + b[3] == y
            &&& b[4] * 256 + b[5] == width
            &&& b[6] * 256 + b[7] == height
            &&& b[8] == encoding[0]
            &&& b[9] == encoding[1]
            &&& b[10] == encoding[2]
            &&& b[11] == encoding[3]
            &&& b.skip(12) == rest
        }),
{
    let b = header(x, y, width, height, encoding) + rest;
    assert(b.skip(12) =~= rest);
}

proof fn lemma_rectangle_reads_back(rectangle: RectangleView, format: PixelFormat, rest: Seq<u8>)
    requires
        writable(rectangle, format),
    ensures
        protocol::read_rectangle(written(rectangle) + rest, format) == (RectangleRead::Whole {
            rectangle: Some(rectangle),
            used: written(rectangle).len() as int,
        }),
{
    let b = written(rectangle) + rest;
    match rectangle {
        RectangleView::Raw { x, y, width, height, pixels } => {
            lemma_header(x, y, width, height, seq![0u8, 0, 0, 0], pixels + rest);
            assert(b =~= header(x, y, width, height, seq![0u8, 0, 0, 0]) + (pixels + rest));
            assert(b.subrange(12, 12 + pixels.len() as int) =~= pixels);
        },
        RectangleView::CopyRect { x, y, width, height, src_x, src_y } => {
            let tail = two(src_x as int) + two(src_y as int) + rest;
            lemma_header(x, y, width, height, seq![0u8, 0, 0, 1], tail);
            assert(b =~= header(x, y, width, height, seq![0u8, 0, 0, 1]) + tail);
            assert(b[12] == tail[0] && b[13] == tail[1] && b[14] == tail[2] && b[15] == tail[3]);
        },
        RectangleView::DesktopSize { width, height } => {
            lemma_header(0, 0, width, height, seq![255u8, 255, 255, 33], rest);
        },
        RectangleView::Solid { .. } => {},
    }
}

proof fn lemma_rectangles_read_on(
    rectangles: Seq<RectangleView>,
    format: PixelFormat,
    rest: Seq<u8>,
    done: Seq<RectangleView>,
)
    requires
        forall|i: int|
            0 <= i < rectangles.len() ==> writable(#[trigger] rectangles[i], format),
    ensures
        protocol::read_update(rectangles.len(), all_written(rectangles) + rest, format, done) == (
        UpdateRead::Whole { rectangles: done + rectangles, rest }),
    decreases rectangles.len(),
{
    let b = all_written(rectangles) + rest;
    if rectangles.len() == 0 {
        assert(b =~= rest);
        assert(done + rectangles =~= done);
    } else {
        let first = rectangles[0];
        let others = rectangles.skip(1);
        let tail = all_written(others) + rest;
        assert(b =~= written(first) + tail);
        lemma_rectangle_reads_back(first, format, tail);
        assert(b.skip(written(first).len() as int) =~= tail);
        assert forall|i: int| 0 <= i < others.len() implies writable(
            #[trigger] others[i],
            format,
        ) by {
            assert(others[i] == rectangles[i + 1]);
        }
        lemma_rectangles_read_on(others, format, rest, done.push(first));
        assert(done.push(first) + others =~= done + rectangles);
    }
}

/// An update is read as exactly the rectangles that were written, however many, in their
/// order, and whatever follows it is left.
pub proof fn lemma_update_reads_back(
    rectangles: Seq<RectangleView>,
    format: PixelFormat,
    rest: Seq<u8>,
)
    requires
        forall|i: int|
            0 <= i < rectangles.len() ==> writable(#[trigger] rectangles[i], format),
    ensures
        protocol::read_update(
            rectangles.len(),
            all_written(rectangles) + rest,
            format,
            Seq::empty(),
        ) == (UpdateRead::Whole { rectangles, rest }),
{
    lemma_rectangles_read_on(rectangles, format, rest, Seq::empty());
    assert(Seq::<RectangleView>::empty() + rectangles =~= rectangles);
}

proof fn lemma_reading_goes_on(
    m: nat,
    n: nat,
    b: Seq<u8>,
    format: PixelFormat,
    done: Seq<RectangleView>,
)
    ensures
        match protocol::read_update(m, b, format, done) {
            UpdateRead::Whole { rectangles, rest } => protocol::read_update(m + n, b, format, done)
                == protocol::read_update(n, rest, format, rectangles),
            other => protocol::read_update(m + n, b, format, done) == other || n == 0,
        },
    decreases m,
{
    if m > 0 {
        if let RectangleRead::Whole { rectangle, used } = protocol::read_rectangle(b, format) {
            let next = match rectangle {
                Some(r) => done.push(r),
                None => done,
            };
            lemma_reading_goes_on((m - 1) as nat, n, b.skip(used), format, next);
        }
    }
}

proof fn lemma_done_comes_first(
    n: nat,
    b: Seq<u8>,
    format: PixelFormat,
    done: Seq<RectangleView>,
    later: Seq<RectangleView>,
)
    ensures
        match protocol::read_update(n, b, format, later) {
            UpdateRead::Whole { rectangles, rest } => protocol::read_update(
                n,
                b,
                format,
                done + later,
            ) == (UpdateRead::Whole { rectangles: done + rectangles, rest }),
            other => protocol::read_update(n, b, format, done + later) == other,
        },
    decreases n,
{
    if n > 0 {
        if let RectangleRead::Whole { rectangle, used } = protocol::read_rectangle(b, format) {
            let next = match rectangle {
                Some(r) => later.push(r),
                None => later,
            };
            lemma_done_comes_first((n - 1) as nat, b.skip(used), format, done, next);
            if let Some(r) = rectangle {
                assert(done + later.push(r) =~= (done + later).push(r));
            }
        }
    }
}

/// Reading `m` rectangles and then `n` more gives the first ones followed by the others:
/// two updates written one behind the other are read as one.
pub proof fn lemma_updates_concatenate(
    m: nat,
    n: nat,
    a: Seq<u8>,
    b: Seq<u8>,
    format: PixelFormat,
)
    requires
        protocol::read_update(m, a, format, Seq::empty()) matches UpdateRead::Whole { rest, .. }
            && rest.len() == 0,
    ensures
        ({
            let first = protocol::read_update(m, a, format, Seq::empty())->Whole_rectangles;
            match protocol::read_update(n, b, format, Seq::empty()) {
                UpdateRead::Whole { rectangles, rest } => protocol::read_update(
                    m + n,
                    a + b,
                    format,
                    Seq::empty(),
                ) == (UpdateRead::Whole { rectangles: first + rectangles, rest }),
                _ => n > 0
                    ==> !(protocol::read_update(m + n, a + b, format, Seq::empty()) is Whole),
            }
        }),
{
    let nothing = Seq::<RectangleView>::empty();
    protocol::lemma_update_prefix(m, a, b, format, nothing);
    let first = protocol::read_update(m, a, format, nothing)->Whole_rectangles;
    let rest = protocol::read_update(m, a, format, nothing)->Whole_rest;
    assert(rest + b =~= b);
    lemma_reading_goes_on(m, n, a + b, format, nothing);
    lemma_done_comes_first(n, b, format, first, nothing);
    assert(first + nothing =~= first);
}

/// The shape of a cursor is read over: nothing is drawn for it, and what is behind it is
/// read as if it were not there. `mask` is a bit for each pixel, in whole bytes.
pub proof fn lemma_cursor_is_skipped(
    x: u16,
    y: u16,
    width: u16,
    height: u16,
    shape: Seq<u8>,
    two_colours: bool,
    n: nat,
    format: PixelFormat,
    rest: Seq<u8>,
)
    requires
        shape.len() == width * height * format.step() + (width * height + 7) / 8 + (
        if two_colours {
            6int
        } else {
            0
        }),
    ensures
        ({
            let code = if two_colours {
                seq![255u8, 255, 255, 16]
            } else {
                seq![255u8, 255, 255, 17]
            };
            protocol::read_update(
                n + 1,
                header(x, y, width, height, code) + shape + rest,
                format,
                Seq::empty(),
            ) == protocol::read_update(n, rest, format, Seq::empty())
        }),
{
    let code = if two_colours {
        seq![255u8, 255, 255, 16]
    } else {
        seq![255u8, 255, 255, 17]
    };
    let b = header(x, y, width, height, code) + shape + rest;
    lemma_header(x, y, width, height, code, shape + rest);
    assert(b =~= header(x, y, width, height, code) + (shape + rest));
    assert(b.skip(12 + shape.len() as int) =~= rest);
}

/// The extended report of a size is read as that size, and the layout of its screens,
/// sixteen bytes for each, is read over.
pub proof fn lemma_extended_size_is_read(
    x: u16,
    y: u16,
    width: u16,
    height: u16,
    padding: Seq<u8>,
    screens: u8,
    layout: Seq<u8>,
    format: PixelFormat,
    rest: Seq<u8>,
)
    requires
        padding.len() == 3,
        layout.len() == 16 * screens,
    ensures
        protocol::read_update(
            1,
            header(x, y, width, height, seq![255u8, 255, 254, 204]) + padding.push(screens)
                + layout + rest,
            format,
            Seq::empty(),
        ) == (UpdateRead::Whole {
            rectangles: seq![RectangleView::DesktopSize { width, height }],
            rest,
        }),
{
    let code = seq![255u8, 255, 254, 204];
    let b = header(x, y, width, height, code) + padding.push(screens) + layout + rest;
    let tail = padding.push(screens) + layout + rest;
    lemma_header(x, y, width, height, code, tail);
    assert(b =~= header(x, y, width, height, code) + tail);
    assert(b[15] == tail[3]);
    assert(tail[3] == screens);
    assert(b.skip(16 + 16 * screens) =~= rest);
    reveal_with_fuel(protocol::read_update, 2);
    assert(Seq::<RectangleView>::empty().push(RectangleView::DesktopSize { width, height }) =~= seq![
        RectangleView::DesktopSize { width, height },
    ]);
}

/// Whether a code is the one of an encoding that this client reads.
pub open spec fn readable_code(code: Seq<u8>) -> bool {
    ||| code == seq![0u8, 0, 0, 0]
    ||| code == seq![0u8, 0, 0, 1]
    ||| code == seq![255u8, 255, 255, 33]
    ||| code == seq![255u8, 255, 254, 204]
    ||| code == seq![255u8, 255, 255, 17]
    ||| code == seq![255u8, 255, 255, 16]
}

/// A rectangle in any other encoding is never read as something: the update ends there,
/// behind the header.
pub proof fn lemma_other_encodings_end_the_update(
    x: u16,
    y: u16,
    width: u16,
    height: u16,
    code: Seq<u8>,
    n: nat,
    format: PixelFormat,
    rest: Seq<u8>,
)
    requires
        code.len() == 4,
        !readable_code(code),
        n > 0,
    ensures
        protocol::read_update(n, header(x, y, width, height, code) + rest, format, Seq::empty())
            matches UpdateRead::Unsupported { rest: left, .. } && left == rest,
{
    let b = header(x, y, width, height, code) + rest;
    lemma_header(x, y, width, height, code, rest);
    if code[0] == 0 && code[1] == 0 && code[2] == 0 && code[3] <= 1 {
        assert(code =~= seq![0u8, 0, 0, code[3]]);
    }
    if code[0] == 255 && code[1] == 255 {
        assert(code =~= seq![255u8, 255, code[2], code[3]]);
    }
}

/// An update that is not all there is never read as a whole one.
pub proof fn lemma_cut_updates_are_short(
    rectangles: Seq<RectangleView>,
    format: PixelFormat,
    n: int,
)
    requires
        forall|i: int|
            0 <= i < rectangles.len() ==> writable(#[trigger] rectangles[i], format),
        0 <= n < all_written(rectangles).len(),
    ensures
        protocol::read_update(
            rectangles.len(),
            all_written(rectangles).take(n),
            format,
            Seq::empty(),
        ) is Short,
{
    let whole = all_written(rectangles);
    let cut = whole.take(n);
    protocol::lemma_update_prefix(
        rectangles.len(),
        cut,
        whole.skip(n),
        format,
        Seq::empty(),
    );
    assert(cut + whole.skip(n) =~= whole);
    lemma_update_reads_back(rectangles, format, Seq::empty());
    assert(whole + Seq::<u8>::empty() =~= whole);
    match protocol::read_update(rectangles.len(), cut, format, Seq::empty()) {
        UpdateRead::Whole { rest, .. } => {
            assert((rest + whole.skip(n)).len() > 0);
        },
        _ => {},
    }
}

/// The place of a pixel in a picture `width` pixels wide.
pub open spec fn pixel_place(width: int, x: int, y: int) -> int {
    4 * (y * width + x)
}

/// The four bytes of a pixel of a picture `width` pixels wide.
pub open spec fn pixel_at(picture: Seq<u8>, width: int, x: int, y: int) -> Seq<u8> {
    picture.subrange(pixel_place(width, x, y), pixel_place(width, x, y) + 4)
}

/// Whether a picture has four bytes for each of its pixels.
pub open spec fn is_picture(picture: Seq<u8>, width: int, height: int) -> bool {
    width > 0 && height > 0 && picture.len() == 4 * (width * height)
}

proof fn lemma_pixel_inside(width: int, height: int, x: int, y: int)
    requires
        0 <= x < width,
        0 <= y < height,
    ensures
        0 <= pixel_place(width, x, y),
        pixel_place(width, x, y) + 4 <= 4 * (width * height),
{
    assert(0 <= y * width && y * width + width <= width * height) by (nonlinear_arith)
        requires
            0 <= y < height,
            width > 0,
    ;
}

proof fn lemma_byte_of_pixel(width: int, x: int, y: int, k: int)
    requires
        0 <= x < width,
        0 <= y,
        0 <= k < 4,
    ensures
        ({
            let i = pixel_place(width, x, y) + k;
            i / 4 % width == x && i / 4 / width == y && i % 4 == k && 4 * (i / 4)
                == pixel_place(width, x, y)
        }),
{
    let i = pixel_place(width, x, y) + k;
    assert(i / 4 == y * width + x);
    vstd::arithmetic::div_mod::lemma_fundamental_div_mod_converse(y * width + x, width, y, x);
}

/// The colour 0xRRGGBB is painted as its red, its green and its blue, in this order, and
/// opaque.
pub proof fn lemma_painted_colour(red: u8, green: u8, blue: u8)
    ensures
        live::rgba(red * 65536 + green * 256 + blue) == seq![red, green, blue, 255u8],
{
    let colour = red * 65536 + green * 256 + blue;
    assert(colour / 65536 == red);
    assert(colour / 256 % 256 == green);
    assert(colour % 256 == blue);
    assert(live::rgba(colour) =~= seq![red, green, blue, 255u8]);
}

/// Raw pixels are painted where the rectangle says, row by row, each in its own colour,
/// and every other pixel of the picture stays as it was. What lies outside the picture
/// is left out.
pub proof fn lemma_raw_pixels_are_painted(
    before: Seq<u8>,
    width: int,
    height: int,
    format: PixelFormat,
    left: u16,
    top: u16,
    columns: u16,
    rows: u16,
    pixels: Seq<u8>,
    x: int,
    y: int,
)
    requires
        is_picture(before, width, height),
        format.step() > 0,
        pixels.len() == columns * rows * format.step(),
        0 <= x < width,
        0 <= y < height,
    ensures
        ({
            let after = live::drawn(
                before,
                width,
                height,
                format,
                RectangleView::Raw { x: left, y: top, width: columns, height: rows, pixels },
            );
            let column = x - left;
            let row = y - top;
            &&& after.len() == before.len()
            &&& 0 <= column < columns && 0 <= row < rows ==> pixel_at(after, width, x, y)
                == live::rgba(
                format.colour(pixels.skip((row * columns + column) * format.step())),
            )
            &&& !(0 <= column < columns && 0 <= row < rows) ==> pixel_at(after, width, x, y)
                == pixel_at(before, width, x, y)
        }),
{
    let after = live::drawn(
        before,
        width,
        height,
        format,
        RectangleView::Raw { x: left, y: top, width: columns, height: rows, pixels },
    );
    let column = x - left;
    let row = y - top;
    let at = pixel_place(width, x, y);
    lemma_pixel_inside(width, height, x, y);
    lemma_byte_of_pixel(width, x, y, 0);
    lemma_byte_of_pixel(width, x, y, 1);
    lemma_byte_of_pixel(width, x, y, 2);
    lemma_byte_of_pixel(width, x, y, 3);
    let step = format.step() as int;
    if 0 <= column < columns && 0 <= row < rows {
        let place = row * columns + column;
        assert(place + 1 <= columns * rows) by (nonlinear_arith)
            requires
                place == row * columns + column,
                0 <= column < columns,
                0 <= row < rows,
        ;
        assert(0 <= place) by (nonlinear_arith)
            requires
                place == row * columns + column,
                0 <= column,
                0 <= row,
                0 <= columns,
        ;
        assert(place * step + step <= columns * rows * step) by (nonlinear_arith)
            requires
                place + 1 <= columns * rows,
                step > 0,
        ;
        let colour = live::rgba(format.colour(pixels.skip(place * step)));
        assert forall|k: int| 0 <= k < 4 implies #[trigger] pixel_at(
            after,
            width,
            x,
            y,
        )[k] == colour[k] by {
            lemma_byte_of_pixel(width, x, y, k);
        }
        assert(pixel_at(after, width, x, y) =~= colour);
    } else {
        assert forall|k: int| 0 <= k < 4 implies #[trigger] pixel_at(
            after,
            width,
            x,
            y,
        )[k] == pixel_at(before, width, x, y)[k] by {
            lemma_byte_of_pixel(width, x, y, k);
        }
        assert(pixel_at(after, width, x, y) =~= pixel_at(before, width, x, y));
    }
}

/// A region of one colour is painted in that colour, and every other pixel of the picture
/// stays as it was.
pub proof fn lemma_solid_region_is_painted(
    before: Seq<u8>,
    width: int,
    height: int,
    format: PixelFormat,
    left: u16,
    top: u16,
    columns: u16,
    rows: u16,
    pixel: Seq<u8>,
    x: int,
    y: int,
)
    requires
        is_picture(before, width, height),
        pixel.len() >= format.step(),
        0 <= x < width,
        0 <= y < height,
    ensures
        ({
            let after = live::drawn(
                before,
                width,
                height,
                format,
                RectangleView::Solid { x: left, y: top, width: columns, height: rows, pixel },
            );
            &&& after.len() == before.len()
            &&& pixel_at(after, width, x, y) == if left <= x < left + columns && top <= y < top
                + rows {
                live::rgba(format.colour(pixel))
            } else {
                pixel_at(before, width, x, y)
            }
        }),
{
    let after = live::drawn(
        before,
        width,
        height,
        format,
        RectangleView::Solid { x: left, y: top, width: columns, height: rows, pixel },
    );
    let at = pixel_place(width, x, y);
    lemma_pixel_inside(width, height, x, y);
    let wanted = if left <= x < left + columns && top <= y < top + rows {
        live::rgba(format.colour(pixel))
    } else {
        pixel_at(before, width, x, y)
    };
    assert forall|k: int| 0 <= k < 4 implies #[trigger] pixel_at(
        after,
        width,
        x,
        y,
    )[k] == wanted[k] by {
        lemma_byte_of_pixel(width, x, y, k);
    }
    assert(pixel_at(after, width, x, y) =~= wanted);
}

/// Updates are painted one rectangle after the other: later ones over earlier ones.
pub proof fn lemma_painting_in_turn(
    before: Seq<u8>,
    width: int,
    height: int,
    format: PixelFormat,
    first: Seq<RectangleView>,
    second: Seq<RectangleView>,
)
    ensures
        live::all_drawn(before, width, height, format, first + second) == live::all_drawn(
            live::all_drawn(before, width, height, format, first),
            width,
            height,
            format,
            second,
        ),
        live::all_drawn(before, width, height, format, Seq::empty()) == before,
    decreases second.len(),
{
    if second.len() == 0 {
        assert(first + second =~= first);
    } else {
        lemma_painting_in_turn(before, width, height, format, first, second.drop_last());
        assert((first + second).drop_last() =~= first + second.drop_last());
    }
}

/// A single rectangle of an update is painted as it is.
pub proof fn lemma_one_rectangle_is_painted(
    before: Seq<u8>,
    width: int,
    height: int,
    format: PixelFormat,
    rectangle: RectangleView,
)
    ensures
        live::all_drawn(before, width, height, format, seq![rectangle]) == live::drawn(
            before,
            width,
            height,
            format,
            rectangle,
        ),
{
    reveal_with_fuel(live::all_drawn, 2);
    assert(seq![rectangle].drop_last() =~= Seq::<RectangleView>::empty());
}

/// An update reports the last of the sizes in it, and none where there is none.
pub proof fn lemma_last_size_is_reported(
    before: Seq<RectangleView>,
    width: u16,
    height: u16,
    after: Seq<RectangleView>,
)
    requires
        forall|i: int|
            0 <= i < after.len() ==> !(#[trigger] after[i] is DesktopSize),
    ensures
        live::reported_size(before.push(RectangleView::DesktopSize { width, height }) + after)
            == Some((width as usize, height as usize)),
        live::reported_size(after) is None,
    decreases after.len(),
{
    let sized = before.push(RectangleView::DesktopSize { width, height });
    if after.len() == 0 {
        assert(sized + after =~= sized);
    } else {
        assert(!(after[after.len() - 1] is DesktopSize));
        lemma_last_size_is_reported(before, width, height, after.drop_last());
        assert((sized + after).drop_last() =~= sized + after.drop_last());
    }
}

proof fn lemma_word_bytes(a: u32, b: u32, c: u32, d: u32)
    by (bit_vector)
    requires
        a <= 255,
        b <= 255,
        c <= 255,
        d <= 255,
    ensures
        ({
            let v = (a + b * 256 + c * 65536 + d * 16777216) as u32;
            &&& (v >> 0u8) & 255 == a
            &&& (v >> 8u8) & 255 == b
            &&& (v >> 16u8) & 255 == c
            &&& (v >> 24u8) & 255 == d
        }),
{
}

/// Which of the four bytes of a pixel holds the channel that is shifted by `shift`.
pub open spec fn channel_byte(big_endian: bool, shift: u8) -> int {
    if big_endian {
        3 - shift / 8
    } else {
        (shift / 8) as int
    }
}

proof fn lemma_word_of_four(raw: Seq<u8>)
    requires
        raw.len() == 4,
    ensures
        bytes::be_value(raw) == raw[0] * 16777216 + raw[1] * 65536 + raw[2] * 256 + raw[3],
{
    let three = raw.drop_last();
    let two = three.drop_last();
    let one = two.drop_last();
    assert(one.drop_last() =~= Seq::<u8>::empty());
    reveal_with_fuel(bytes::be_value, 5);
    assert(bytes::be_value(one) == raw[0]);
    assert(bytes::be_value(two) == raw[0] * 256 + raw[1]);
    assert(bytes::be_value(three) == raw[0] * 65536 + raw[1] * 256 + raw[2]);
}

/// Where each channel is a byte of its own, the colour of a pixel is made of those bytes,
/// whichever they are and in whichever order the bytes of a pixel come.
pub proof fn lemma_byte_channels(format: PixelFormat, raw: Seq<u8>)
    requires
        format.bits_per_pixel == 32,
        format.true_colour,
        format.red_max == 255,
        format.green_max == 255,
        format.blue_max == 255,
        format.red_shift % 8 == 0 && format.red_shift < 32,
        format.green_shift % 8 == 0 && format.green_shift < 32,
        format.blue_shift % 8 == 0 && format.blue_shift < 32,
        raw.len() >= 4,
    ensures
        format.colour(raw) == raw[channel_byte(format.big_endian, format.red_shift)] * 65536
            + raw[channel_byte(format.big_endian, format.green_shift)] * 256
            + raw[channel_byte(format.big_endian, format.blue_shift)],
{
    let pixel = raw.take(4);
    assert(format.step() == 4);
    let ordered = if format.big_endian {
        pixel
    } else {
        pixel.reverse()
    };
    lemma_word_of_four(ordered);
    let (a, b, c, d) = (
        ordered[3] as u32,
        ordered[2] as u32,
        ordered[1] as u32,
        ordered[0] as u32,
    );
    lemma_word_bytes(a, b, c, d);
    let value = format.pixel_word(raw);
    assert(value == (a + b * 256 + c * 65536 + d * 16777216) as u32);
    assert forall|shift: u8| shift % 8 == 0 && shift < 32 implies #[trigger] protocol::channel(
        value,
        255,
        shift,
    ) == raw[channel_byte(format.big_endian, shift)] by {
        assert(shift == 0 || shift == 8 || shift == 16 || shift == 24);
        assert(((value >> shift) & 255u32) == ordered[3 - shift / 8] as u32);
        assert(ordered[3 - shift / 8] == raw[channel_byte(format.big_endian, shift)]);
    }
    assert(protocol::channel(value, 255, format.red_shift) == raw[channel_byte(
        format.big_endian,
        format.red_shift,
    )]);
}

proof fn lemma_full_scale(max: int)
    by (nonlinear_arith)
    requires
        max > 0,
    ensures
        max * 255 / max == 255,
{
}

proof fn lemma_scale_order(a: int, b: int, max: int)
    by (nonlinear_arith)
    requires
        0 <= a <= b,
        max > 0,
    ensures
        a * 255 / max <= b * 255 / max,
{
}

/// Whatever the largest value of a channel is, that value is full intensity, zero is none,
/// and more is never shown as less.
pub proof fn lemma_channels_span_the_scale(a: u32, b: u32, max: u16, shift: u8)
    requires
        max > 0,
    ensures
        (a >> shift) & (max as u32) == max ==> protocol::channel(a, max, shift) == 255,
        (a >> shift) & (max as u32) == 0 ==> protocol::channel(a, max, shift) == 0,
        (a >> shift) & (max as u32) <= (b >> shift) & (max as u32) ==> protocol::channel(
            a,
            max,
            shift,
        ) <= protocol::channel(b, max, shift),
        protocol::channel(a, 0, shift) == 0,
{
    let x = ((a >> shift) & (max as u32)) as int;
    let y = ((b >> shift) & (max as u32)) as int;
    lemma_full_scale(max as int);
    if x <= y {
        lemma_scale_order(x, y, max as int);
    }
}

/// Copying a region inside the picture puts each of its pixels at the same place of the
/// other region, as it was before the copy, and every other pixel stays as it was.
pub proof fn lemma_copied_region(
    before: Seq<u8>,
    width: int,
    height: int,
    format: PixelFormat,
    left: u16,
    top: u16,
    columns: u16,
    rows: u16,
    from_x: u16,
    from_y: u16,
    x: int,
    y: int,
)
    requires
        is_picture(before, width, height),
        left + columns <= width,
        top + rows <= height,
        from_x + columns <= width,
        from_y + rows <= height,
        0 <= x < width,
        0 <= y < height,
    ensures
        ({
            let after = live::drawn(
                before,
                width,
                height,
                format,
                RectangleView::CopyRect {
                    x: left,
                    y: top,
                    width: columns,
                    height: rows,
                    src_x: from_x,
                    src_y: from_y,
                },
            );
            &&& after.len() == before.len()
            &&& pixel_at(after, width, x, y) == if left <= x < left + columns && top <= y < top
                + rows {
                pixel_at(before, width, x - left + from_x, y - top + from_y)
            } else {
                pixel_at(before, width, x, y)
            }
        }),
{
    let c = live::Copying {
        width,
        height,
        x: left as int,
        y: top as int,
        columns: columns as int,
        src_x: from_x as int,
        src_y: from_y as int,
    };
    lemma_copied_rows(before, c, rows as nat, x, y);
}

proof fn lemma_row_place(width: int, x: int, y: int, row: int)
    ensures
        live::row_start(width, x, y, row) == pixel_place(width, x, y + row),
{
    assert(((y + row) * width + x) * 4 == 4 * ((y + row) * width + x));
}

proof fn lemma_places_of_row(width: int, x: int, y: int, at_x: int, at_y: int, columns: int)
    requires
        width > 0,
        0 <= x < width,
        0 <= y,
        0 <= at_x,
        at_x + columns <= width,
        0 <= at_y,
        0 <= columns,
    ensures
        y == at_y ==> pixel_place(width, x, y) - pixel_place(width, at_x, at_y) == 4 * (x - at_x),
        y != at_y || x < at_x || x >= at_x + columns ==> pixel_place(width, x, y) + 4
            <= pixel_place(width, at_x, at_y) || pixel_place(width, x, y) >= pixel_place(
            width,
            at_x,
            at_y,
        ) + 4 * columns,
{
    if y < at_y {
        assert(y * width + width <= at_y * width) by (nonlinear_arith)
            requires
                y + 1 <= at_y,
                width > 0,
        ;
    } else if y > at_y {
        assert(at_y * width + width <= y * width) by (nonlinear_arith)
            requires
                at_y + 1 <= y,
                width > 0,
        ;
    }
}

proof fn lemma_copied_rows(before: Seq<u8>, c: live::Copying, rows: nat, x: int, y: int)
    requires
        is_picture(before, c.width, c.height),
        0 <= c.x,
        0 <= c.y,
        0 <= c.src_x,
        0 <= c.src_y,
        0 <= c.columns,
        c.x + c.columns <= c.width,
        c.y + rows <= c.height,
        c.src_x + c.columns <= c.width,
        c.src_y + rows <= c.height,
        0 <= x < c.width,
        0 <= y < c.height,
    ensures
        ({
            let after = live::copied(before, c, rows);
            &&& after.len() == before.len()
            &&& pixel_at(after, c.width, x, y) == if c.x <= x < c.x + c.columns && c.y <= y < c.y
                + rows {
                pixel_at(before, c.width, x - c.x + c.src_x, y - c.y + c.src_y)
            } else {
                pixel_at(before, c.width, x, y)
            }
        }),
    decreases rows,
{
    if rows > 0 {
        let row = rows - 1;
        let rest = live::copied(before, c, row as nat);
        let after = live::copied(before, c, rows);
        lemma_copied_rows(before, c, row as nat, x, y);
        lemma_row_place(c.width, c.x, c.y, row);
        lemma_row_place(c.width, c.src_x, c.src_y, row);
        let to = live::row_start(c.width, c.x, c.y, row);
        let from = live::row_start(c.width, c.src_x, c.src_y, row);
        lemma_row_end(c.width, c.height, c.x, c.y + row, c.columns);
        lemma_row_end(c.width, c.height, c.src_x, c.src_y + row, c.columns);
        lemma_pixel_inside(c.width, c.height, x, y);
        lemma_places_of_row(c.width, x, y, c.x, c.y + row, c.columns);
        let at = pixel_place(c.width, x, y);
        if y == c.y + row && c.x <= x < c.x + c.columns {
            let sx = x - c.x + c.src_x;
            let sy = y - c.y + c.src_y;
            lemma_pixel_inside(c.width, c.height, sx, sy);
            lemma_places_of_row(c.width, sx, sy, c.src_x, c.src_y + row, c.columns);
            assert(pixel_at(after, c.width, x, y) =~= pixel_at(before, c.width, sx, sy));
        } else {
            assert(at + 4 <= to || at >= to + 4 * c.columns);
            assert(pixel_at(after, c.width, x, y) =~= pixel_at(rest, c.width, x, y));
        }
    }
}

proof fn lemma_row_end(width: int, height: int, x: int, y: int, columns: int)
    requires
        width > 0,
        0 <= x,
        0 <= columns,
        x + columns <= width,
        0 <= y < height,
    ensures
        0 <= pixel_place(width, x, y),
        pixel_place(width, x, y) + 4 * columns <= 4 * (width * height),
{
    assert(0 <= y * width && y * width + width <= width * height) by (nonlinear_arith)
        requires
            0 <= y < height,
            width > 0,
    ;
}

/// A server's message with an update is read as exactly the rectangles in it, and leaves
/// the session with the last size that they report.
pub proof fn lemma_update_message_reads_back(
    info: session::ServerInfoView,
    padding: u8,
    rectangles: Seq<RectangleView>,
    rest: Seq<u8>,
)
    requires
        rectangles.len() < 65536,
        forall|i: int|
            0 <= i < rectangles.len() ==> writable(#[trigger] rectangles[i], info.format),
        forall|i: int|
            0 <= i < rectangles.len() ==> ((#[trigger] rectangles[i]) matches
                RectangleView::DesktopSize { width, height } ==> width > 0 && height > 0),
    ensures
        session::read_message_from(
            info,
            seq![0u8, padding] + two(rectangles.len() as int) + all_written(rectangles) + rest,
        ) matches session::MessageRead::Whole { message, width, height, rest: left } && message
            == session::ServerMessageView::FramebufferUpdate(rectangles) && left == rest && (
        match live::reported_size(rectangles) {
            Some((w, h)) => width == w && height == h,
            None => width == info.width && height == info.height,
        }),
{
    let b = seq![0u8, padding] + two(rectangles.len() as int) + all_written(rectangles) + rest;
    assert(b.skip(4) =~= all_written(rectangles) + rest);
    assert(b[2] == two(rectangles.len() as int)[0]);
    assert(b[3] == two(rectangles.len() as int)[1]);
    lemma_update_reads_back(rectangles, info.format, rest);
    lemma_size_after(info.width, info.height, rectangles);
}

proof fn lemma_size_after(width: u16, height: u16, rectangles: Seq<RectangleView>)
    requires
        forall|i: int|
            0 <= i < rectangles.len() ==> ((#[trigger] rectangles[i]) matches
                RectangleView::DesktopSize { width, height } ==> width > 0 && height > 0),
    ensures
        ({
            let (w, h, ok) = session::size_after(width, height, rectangles);
            &&& ok
            &&& match live::reported_size(rectangles) {
                Some((rw, rh)) => w == rw && h == rh,
                None => w == width && h == height,
            }
        }),
    decreases rectangles.len(),
{
    if rectangles.len() > 0 {
        assert(rectangles[rectangles.len() - 1] == rectangles.last());
        assert forall|i: int| 0 <= i < rectangles.len() - 1 implies ((
        #[trigger] rectangles.drop_last()[i]) matches RectangleView::DesktopSize { width, height }
            ==> width > 0 && height > 0) by {
            assert(rectangles.drop_last()[i] == rectangles[i]);
        }
        lemma_size_after(width, height, rectangles.drop_last());
    }
}

/// A message with an update in which a size of nothing is reported is refused.
pub proof fn lemma_size_of_nothing_is_refused(
    info: session::ServerInfoView,
    padding: u8,
    rectangles: Seq<RectangleView>,
    rest: Seq<u8>,
    i: int,
)
    requires
        rectangles.len() < 65536,
        forall|i: int|
            0 <= i < rectangles.len() ==> writable(#[trigger] rectangles[i], info.format),
        0 <= i < rectangles.len(),
        rectangles[i] matches RectangleView::DesktopSize { width, height } && (width == 0 || height
            == 0),
    ensures
        session::read_message_from(
            info,
            seq![0u8, padding] + two(rectangles.len() as int) + all_written(rectangles) + rest,
        ) is Refused,
{
    let b = seq![0u8, padding] + two(rectangles.len() as int) + all_written(rectangles) + rest;
    assert(b.skip(4) =~= all_written(rectangles) + rest);
    assert(b[2] == two(rectangles.len() as int)[0]);
    assert(b[3] == two(rectangles.len() as int)[1]);
    lemma_update_reads_back(rectangles, info.format, rest);
    lemma_nothing_stays_refused(info.width, info.height, rectangles, i);
}

proof fn lemma_nothing_stays_refused(
    width: u16,
    height: u16,
    rectangles: Seq<RectangleView>,
    i: int,
)
    requires
        0 <= i < rectangles.len(),
        rectangles[i] matches RectangleView::DesktopSize { width, height } && (width == 0 || height
            == 0),
    ensures
        !session::size_after(width, height, rectangles).2,
    decreases rectangles.len(),
{
    if i < rectangles.len() - 1 {
        lemma_nothing_stays_refused(width, height, rectangles.drop_last(), i);
    }
}

/// The short messages of a server: a bell is one byte, and a colour map is read over with
/// six bytes for each of its entries.
pub proof fn lemma_short_messages(
    info: session::ServerInfoView,
    header: Seq<u8>,
    count: u16,
    map: Seq<u8>,
    rest: Seq<u8>,
)
    requires
        header.len() == 3,
        map.len() == 6 * count,
    ensures
        session::read_message_from(info, seq![2u8] + rest) == (session::MessageRead::Whole {
            message: session::ServerMessageView::Bell,
            width: info.width,
            height: info.height,
            rest,
        }),
        session::read_message_from(info, seq![1u8] + header + two(count as int) + map + rest) == (
        session::MessageRead::Whole {
            message: session::ServerMessageView::ColourMapIgnored { entries: count as int },
            width: info.width,
            height: info.height,
            rest,
        }),
{
    let bell = seq![2u8] + rest;
    assert(bell.skip(1) =~= rest);
    let b = seq![1u8] + header + two(count as int) + map + rest;
    assert(b[4] == two(count as int)[0]);
    assert(b[5] == two(count as int)[1]);
    assert(b.skip(6 + 6 * count) =~= rest);
}

/// A message that starts with any other number is refused.
pub proof fn lemma_other_messages_are_refused(info: session::ServerInfoView, b: Seq<u8>)
    requires
        b.len() > 0,
        b[0] > 3,
    ensures
        session::read_message_from(info, b) is Refused,
{
}

/// A pixel that is an index of at least eight bits is as grey as its last byte says, and the
/// same in all three colours.
pub proof fn lemma_grey_pixels(format: PixelFormat, value: u32, raw: Seq<u8>)
    ensures
        format.bits_per_pixel >= 8 ==> format.grey(value) == value % 256,
        !format.true_colour ==> format.colour(raw) == format.grey(format.pixel_word(raw)) * 65793,
{
    assert(value & 0xff == value % 256) by (bit_vector);
}

/// Each encoding has its own number on the wire.
pub proof fn lemma_encoding_numbers(code: i32)
    ensures
        protocol::Encoding::of_code(code as int) is Raw <==> code == 0,
        protocol::Encoding::of_code(code as int) is CopyRect <==> code == 1,
        protocol::Encoding::of_code(code as int) is Zlib <==> code == 6,
        protocol::Encoding::of_code(code as int) is Tight <==> code == 7,
        protocol::Encoding::of_code(code as int) is ZlibHex <==> code == 8,
        protocol::Encoding::of_code(code as int) is TightJpeg <==> code == -32,
        protocol::Encoding::of_code(code as int) is DesktopSize <==> code == -223,
        protocol::Encoding::of_code(code as int) is Cursor <==> code == -239,
        protocol::Encoding::of_code(code as int) is XCursor <==> code == -240,
        protocol::Encoding::of_code(code as int) is ExtendedDesktopSize <==> code == -308,
        protocol::Encoding::of_code(code as int).number() == code,
{
}

} // verus!
