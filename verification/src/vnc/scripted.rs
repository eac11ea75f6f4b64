//! A server that shows one picture.
//!
//! It speaks just enough of the protocol for a client to connect without a password and
//! receive a known picture: it sends what it has to say, waits for as many bytes as the
//! client has to answer, and looks only at the number of encodings. After the picture it
//! has nothing more to say.
use vstd::prelude::*;
use crate::bytes;
use crate::vnc::protocol;
use crate::vnc::protocol::Encoding;

verus! {

/// A picture, as 0xRRGGBB for each pixel.
#[derive(Debug)]
pub struct ScriptedFrame {
    pub width: u16,
    pub height: u16,
    /// Row by row, `width * height` of them.
    pub pixels: Vec<u32>,
}

/// What the server waits for.
#[derive(Debug, Clone, Copy, PartialEq, Eq, Structural)]
pub enum Waiting {
    /// The version of the client.
    Version,
    /// The kind of security that the client chose.
    Choice,
    /// The pixel format that the client wants.
    PixelFormat,
    /// The number of encodings that the client reads.
    EncodingCount,
    /// So many encodings.
    Encodings(u16),
    /// The request for a picture.
    Request,
    /// Nothing: whatever comes is let pass.
    Done,
}

impl Waiting {
    /// How many bytes the server waits for.
    pub open spec fn bytes(self) -> nat {
        match self {
            Waiting::Version => 12,
            Waiting::Choice => 1,
            Waiting::PixelFormat => 20,
            Waiting::EncodingCount => 4,
            Waiting::Encodings(count) => (count * 4) as nat,
            Waiting::Request => 10,
            Waiting::Done => 0,
        }
    }

    /// How many bytes the server waits for.
    pub fn wanted(self) -> (r: usize)
        ensures
            r == self.bytes(),
    {
        match self {
            Waiting::Version => 12,
            Waiting::Choice => 1,
            Waiting::PixelFormat => 20,
            Waiting::EncodingCount => 4,
            Waiting::Encodings(count) => count as usize * 4,
            Waiting::Request => 10,
            Waiting::Done => 0,
        }
    }
}

/// The version that the server speaks.
pub open spec fn version_bytes() -> Seq<u8> {
    seq![82u8, 70, 66, 32, 48, 48, 51, 46, 48, 48, 56, 10]
}

/// The name of the server.
pub open spec fn name_bytes() -> Seq<u8> {
    seq![115u8, 99, 114, 105, 112, 116, 101, 100]
}

/// That no security is needed: the result of security, and then the size of the
/// picture, its pixel format and the name of the server.
pub open spec fn welcome(frame: ScriptedFrame) -> Seq<u8> {
    bytes::be32(0) + init_bytes(frame)
}

/// The size of the picture, its pixel format and the name of the server.
pub open spec fn init_bytes(frame: ScriptedFrame) -> Seq<u8> {
    bytes::be16(frame.width as int) + bytes::be16(frame.height as int)
        + protocol::preferred().wire() + bytes::be32(8) + name_bytes()
}

/// A pixel in the format that clients prefer: blue, green, red, and a byte of padding.
pub open spec fn pixel_bytes(pixel: u32) -> Seq<u8> {
    seq![(pixel % 256) as u8, (pixel / 256 % 256) as u8, (pixel / 65536 % 256) as u8, 0]
}

/// Pixels one after another.
pub open spec fn picture_bytes(pixels: Seq<u32>) -> Seq<u8>
    decreases pixels.len(),
{
    if pixels.len() == 0 {
        Seq::empty()
    } else {
        picture_bytes(pixels.drop_last()) + pixel_bytes(pixels.last())
    }
}

/// An update with the whole picture as one rectangle.
pub open spec fn update_bytes(frame: ScriptedFrame) -> Seq<u8> {
    seq![protocol::S2C_FRAMEBUFFER_UPDATE, 0] + bytes::be16(1) + bytes::be16(0) + bytes::be16(0)
        + bytes::be16(frame.width as int) + bytes::be16(frame.height as int) + bytes::be32(0)
        + picture_bytes(frame.pixels@)
}

/// What the server says first.
pub fn greeting() -> (r: Vec<u8>)
    ensures
        r@ == version_bytes(),
{
    let mut out: Vec<u8> = Vec::new();
    bytes::push_all(&mut out, &[82, 70, 66, 32, 48, 48, 51, 46, 48, 48, 56, 10]);
    assert(out@ =~= version_bytes());
    out
}

fn server_init(frame: &ScriptedFrame) -> (r: Vec<u8>)
    ensures
        r@ == init_bytes(*frame),
{
    let mut out: Vec<u8> = Vec::new();
    bytes::push_u16(&mut out, frame.width);
    bytes::push_u16(&mut out, frame.height);
    bytes::push_all(&mut out, &protocol::preferred_pixel_format().encode());
    bytes::push_u32(&mut out, 8);
    bytes::push_all(&mut out, &[115, 99, 114, 105, 112, 116, 101, 100]);
    assert(out@ =~= init_bytes(*frame));
    out
}

proof fn lemma_bytes_of_pixel(p: u32)
    by (bit_vector)
    ensures
        p & 0xff == p % 256,
        (p >> 8) & 0xff == p / 256 % 256,
        (p >> 16) & 0xff == p / 65536 % 256,
{
}

fn push_pixel(out: &mut Vec<u8>, pixel: u32)
    ensures
        final(out)@ == old(out)@ + pixel_bytes(pixel),
{
    proof {
        lemma_bytes_of_pixel(pixel);
    }
    out.push((pixel & 0xff) as u8);
    out.push(((pixel >> 8) & 0xff) as u8);
    out.push(((pixel >> 16) & 0xff) as u8);
    out.push(0);
    assert(out@ =~= old(out)@ + pixel_bytes(pixel));
}

fn update(frame: &ScriptedFrame) -> (r: Vec<u8>)
    ensures
        r@ == update_bytes(*frame),
{
    let mut out: Vec<u8> = Vec::new();
    out.push(0);
    out.push(0);
    bytes::push_u16(&mut out, 1);
    bytes::push_u16(&mut out, 0);
    bytes::push_u16(&mut out, 0);
    bytes::push_u16(&mut out, frame.width);
    bytes::push_u16(&mut out, frame.height);
    bytes::push_i32(&mut out, 0);
    let ghost head = out@;
    assert(head =~= seq![protocol::S2C_FRAMEBUFFER_UPDATE, 0] + bytes::be16(1) + bytes::be16(0)
        + bytes::be16(0) + bytes::be16(frame.width as int) + bytes::be16(frame.height as int)
        + bytes::be32(0));
    let mut i: usize = 0;
    assert(frame.pixels@.take(0) =~= Seq::<u32>::empty());
    assert(head + Seq::<u8>::empty() =~= head);
    while i < frame.pixels.len()
        invariant
            i <= frame.pixels@.len(),
            out@ == head + picture_bytes(frame.pixels@.take(i as int)),
        decreases frame.pixels@.len() - i,
    {
        let ghost before = frame.pixels@.take(i as int);
        push_pixel(&mut out, frame.pixels[i]);
        i = i + 1;
        proof {
            let after = frame.pixels@.take(i as int);
            assert(after.drop_last() =~= before);
            assert(after.last() == frame.pixels@[i - 1]);
            assert(out@ =~= head + picture_bytes(after));
        }
    }
    assert(frame.pixels@.take(i as int) =~= frame.pixels@);
    out
}

/// What the server does with the bytes that it waited for: what it waits for next, and
/// what it says.
pub open spec fn served(waiting: Waiting, b: Seq<u8>, frame: ScriptedFrame) -> (Waiting, Seq<u8>) {
    match waiting {
        Waiting::Version => (Waiting::Choice, seq![1u8, 1u8]),
        Waiting::Choice => (Waiting::PixelFormat, welcome(frame)),
        Waiting::PixelFormat => (Waiting::EncodingCount, Seq::empty()),
        Waiting::EncodingCount => (
            Waiting::Encodings(bytes::u16_at(b, 2) as u16),
            Seq::empty(),
        ),
        Waiting::Encodings(_) => (Waiting::Request, Seq::empty()),
        Waiting::Request => (Waiting::Done, update_bytes(frame)),
        Waiting::Done => (Waiting::Done, Seq::empty()),
    }
}

/// Takes the bytes that the server waited for.
pub fn serve(waiting: Waiting, received: &[u8], frame: &ScriptedFrame) -> (r: (Waiting, Vec<u8>))
    requires
        received@.len() == waiting.bytes(),
    ensures
        (r.0, r.1@) == served(waiting, received@, *frame),
{
    let nothing: Vec<u8> = Vec::new();
    assert(nothing@ =~= Seq::<u8>::empty());
    match waiting {
        Waiting::Version => {
            let mut out: Vec<u8> = Vec::new();
            out.push(1);
            out.push(1);
            assert(out@ =~= seq![1u8, 1u8]);
            (Waiting::Choice, out)
        },
        Waiting::Choice => {
            let mut out: Vec<u8> = Vec::new();
            bytes::push_u32(&mut out, 0);
            bytes::push_all(&mut out, server_init(frame).as_slice());
            assert(out@ =~= welcome(*frame));
            (Waiting::PixelFormat, out)
        },
        Waiting::PixelFormat => (Waiting::EncodingCount, nothing),
        Waiting::EncodingCount => (Waiting::Encodings(bytes::read_u16(received, 2)), nothing),
        Waiting::Encodings(_) => (Waiting::Request, nothing),
        Waiting::Request => (Waiting::Done, update(frame)),
        Waiting::Done => (Waiting::Done, nothing),
    }
}

proof fn lemma_picture_length(pixels: Seq<u32>)
    ensures
        picture_bytes(pixels).len() == pixels.len() * 4,
    decreases pixels.len(),
{
    if pixels.len() > 0 {
        lemma_picture_length(pixels.drop_last());
    }
}

proof fn lemma_pixel_place(pixels: Seq<u32>, i: int)
    requires
        0 <= i < pixels.len(),
    ensures
        picture_bytes(pixels).len() == pixels.len() * 4,
        picture_bytes(pixels).subrange(i * 4, i * 4 + 4) == pixel_bytes(pixels[i]),
    decreases pixels.len(),
{
    lemma_picture_length(pixels);
    lemma_picture_length(pixels.drop_last());
    let whole = picture_bytes(pixels);
    if i == pixels.len() - 1 {
        assert(whole.subrange(i * 4, i * 4 + 4) =~= pixel_bytes(pixels[i]));
    } else {
        lemma_pixel_place(pixels.drop_last(), i);
        assert(whole.subrange(i * 4, i * 4 + 4) =~= picture_bytes(pixels.drop_last()).subrange(
            i * 4,
            i * 4 + 4,
        ));
    }
}

proof fn lemma_channels(v: u32)
    by (bit_vector)
    ensures
        (v >> 16u8) & 255 == v / 65536 % 256,
        (v >> 8u8) & 255 == v / 256 % 256,
        (v >> 0u8) & 255 == v % 256,
{
}

/// A client that reads in its preferred format sees the colour of each pixel.
pub proof fn lemma_pixels_keep_their_colour(pixel: u32)
    requires
        pixel < 0x100_0000,
    ensures
        protocol::preferred().colour(pixel_bytes(pixel)) == pixel,
{
    let raw = pixel_bytes(pixel);
    let format = protocol::preferred();
    assert(raw.take(4) =~= raw);
    let turned = raw.reverse();
    assert(turned =~= seq![
        0u8,
        (pixel / 65536 % 256) as u8,
        (pixel / 256 % 256) as u8,
        (pixel % 256) as u8,
    ]);
    let three = turned.drop_last();
    let two = three.drop_last();
    let one = two.drop_last();
    assert(one.drop_last() =~= Seq::<u8>::empty());
    reveal_with_fuel(bytes::be_value, 5);
    assert(bytes::be_value(one) == 0);
    assert(bytes::be_value(two) == pixel / 65536 % 256);
    assert(bytes::be_value(three) == (pixel / 65536 % 256) * 256 + pixel / 256 % 256);
    assert(bytes::be_value(turned) == pixel);
    assert(format.pixel_word(raw) == pixel);
    lemma_channels(pixel);
}

/// A client that was welcomed reads the update as one rectangle with the whole picture,
/// and nothing is left behind it.
pub proof fn lemma_client_reads_the_picture(frame: ScriptedFrame)
    requires
        frame.pixels@.len() == frame.width * frame.height,
    ensures
        ({
            let b = update_bytes(frame);
            &&& b[0] == protocol::S2C_FRAMEBUFFER_UPDATE
            &&& bytes::u16_at(b, 2) == 1
            &&& protocol::read_update(1, b.skip(4), protocol::preferred(), Seq::empty()) == (
            protocol::UpdateRead::Whole {
                rectangles: seq![
                    protocol::RectangleView::Raw {
                        x: 0,
                        y: 0,
                        width: frame.width,
                        height: frame.height,
                        pixels: picture_bytes(frame.pixels@),
                    },
                ],
                rest: Seq::empty(),
            })
            &&& forall|i: int|
                0 <= i < frame.pixels@.len() ==> (#[trigger] picture_bytes(
                    frame.pixels@,
                ).subrange(i * 4, i * 4 + 4)) == pixel_bytes(frame.pixels@[i])
        }),
{
    let b = update_bytes(frame);
    let rest = b.skip(4);
    let picture = picture_bytes(frame.pixels@);
    lemma_picture_length(frame.pixels@);
    assert(protocol::preferred().step() == 4);
    assert(bytes::u16_at(rest, 0) == 0 && bytes::u16_at(rest, 2) == 0);
    assert(bytes::u16_at(rest, 4) == frame.width);
    assert(bytes::u16_at(rest, 6) == frame.height);
    assert(bytes::u32_at(rest, 8) == 0);
    assert(Encoding::of_code(0) == Encoding::Raw);
    assert(rest.len() == 12 + picture.len());
    assert(rest.subrange(12, 12 + picture.len() as int) =~= picture);
    let raw = protocol::RectangleView::Raw {
        x: 0,
        y: 0,
        width: frame.width,
        height: frame.height,
        pixels: picture,
    };
    assert(frame.width * frame.height * 4 == picture.len());
    assert(protocol::read_rectangle(rest, protocol::preferred()) == (
    protocol::RectangleRead::Whole { rectangle: Some(raw), used: 12 + picture.len() as int }));
    assert(rest.skip(12 + picture.len() as int) =~= Seq::<u8>::empty());
    reveal_with_fuel(protocol::read_update, 2);
    assert(Seq::<protocol::RectangleView>::empty().push(raw) =~= seq![raw]);
    assert forall|i: int| 0 <= i < frame.pixels@.len() implies (#[trigger] picture.subrange(
        i * 4,
        i * 4 + 4,
    )) == pixel_bytes(frame.pixels@[i]) by {
        lemma_pixel_place(frame.pixels@, i);
    }
}

} // verus!
