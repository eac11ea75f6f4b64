//! RFB wire constants, message encoders and rectangle decoding, as RFC 6143
//! describes them. What a server may send and this module does not implement is
//! refused by name instead of being read as something else.
use vstd::prelude::*;
use vstd::slice::slice_subrange;
use vstd::string::StringExecFns;
use crate::bytes;
use crate::text;
use crate::vnc;
use crate::vnc::{short_read, VncError};

verus! {

/// Where message types and encodings are described.
pub const RFC: &'static str = "RFC 6143";

pub const SECURITY_RESULT_OK: u32 = 0;

pub const SECURITY_RESULT_FAILED: u32 = 1;

/// "Too many attempts", which carries a reason string.
pub const SECURITY_RESULT_TOO_MANY: u32 = 2;

pub const C2S_SET_PIXEL_FORMAT: u8 = 0;

pub const C2S_SET_ENCODINGS: u8 = 2;

pub const C2S_FRAMEBUFFER_UPDATE_REQUEST: u8 = 3;

pub const C2S_KEY_EVENT: u8 = 4;

pub const C2S_POINTER_EVENT: u8 = 5;

pub const C2S_CLIENT_CUT_TEXT: u8 = 6;

pub const C2S_SET_DESKTOP_SIZE: u8 = 251;

pub const S2C_FRAMEBUFFER_UPDATE: u8 = 0;

pub const S2C_SET_COLOUR_MAP_ENTRIES: u8 = 1;

pub const S2C_BELL: u8 = 2;

pub const S2C_SERVER_CUT_TEXT: u8 = 3;

pub const POINTER_BUTTON_LEFT: u8 = 1;

pub const POINTER_BUTTON_MIDDLE: u8 = 2;

pub const POINTER_BUTTON_RIGHT: u8 = 4;

pub const POINTER_BUTTON_WHEEL_UP: u8 = 8;

pub const POINTER_BUTTON_WHEEL_DOWN: u8 = 16;

/// Clipboard text of a server beyond this many bytes is refused.
pub const MAX_CUT_TEXT: u32 = 1048576;

/// Security types.
#[derive(Debug, Clone, Copy, PartialEq, Eq, Structural)]
pub enum SecurityType {
    /// No authentication.
    NoAuthentication,
    /// DES challenge and response with the password as the key.
    VncAuthentication,
    /// Offered by Apple Remote Desktop servers; not implemented.
    AppleRemoteDesktop,
    /// Apple's Diffie-Hellman variant; not implemented.
    AppleDiffieHellman,
    /// A type this client has no name for.
    Other(u8),
}

impl SecurityType {
    /// The type that `code` stands for.
    pub open spec fn of_code(code: u8) -> Self {
        if code == 1 {
            SecurityType::NoAuthentication
        } else if code == 2 {
            SecurityType::VncAuthentication
        } else if code == 30 {
            SecurityType::AppleRemoteDesktop
        } else if code == 33 {
            SecurityType::AppleDiffieHellman
        } else {
            SecurityType::Other(code)
        }
    }

    /// The code that stands for this type.
    pub open spec fn number(self) -> u8 {
        match self {
            SecurityType::NoAuthentication => 1,
            SecurityType::VncAuthentication => 2,
            SecurityType::AppleRemoteDesktop => 30,
            SecurityType::AppleDiffieHellman => 33,
            SecurityType::Other(code) => code,
        }
    }

    /// The name this type is reported by.
    pub open spec fn name(self) -> Seq<char> {
        match self {
            SecurityType::NoAuthentication => "None"@,
            SecurityType::VncAuthentication => "VNC authentication"@,
            SecurityType::AppleRemoteDesktop => "Apple Remote Desktop"@,
            SecurityType::AppleDiffieHellman => "Apple Diffie-Hellman"@,
            SecurityType::Other(code) => "security type "@ + text::decimal(code as nat),
        }
    }

    /// The type that `code` stands for.
    pub fn from_code(code: u8) -> (r: Self)
        ensures
            r == Self::of_code(code),
    {
        match code {
            1 => SecurityType::NoAuthentication,
            2 => SecurityType::VncAuthentication,
            30 => SecurityType::AppleRemoteDesktop,
            33 => SecurityType::AppleDiffieHellman,
            other => SecurityType::Other(other),
        }
    }

    /// The code that stands for this type.
    pub fn code(self) -> (r: u8)
        ensures
            r == self.number(),
    {
        match self {
            SecurityType::NoAuthentication => 1,
            SecurityType::VncAuthentication => 2,
            SecurityType::AppleRemoteDesktop => 30,
            SecurityType::AppleDiffieHellman => 33,
            SecurityType::Other(code) => code,
        }
    }

    /// Whether this client can complete this security type.
    pub fn is_supported(self) -> (r: bool)
        ensures
            r == (self is NoAuthentication || self is VncAuthentication),
    {
        matches!(self, SecurityType::NoAuthentication | SecurityType::VncAuthentication)
    }

    /// The name this type is reported by.
    pub fn label(self) -> (r: String)
        ensures
            r@ == self.name(),
    {
        match self {
            SecurityType::NoAuthentication => "None".to_owned(),
            SecurityType::VncAuthentication => "VNC authentication".to_owned(),
            SecurityType::AppleRemoteDesktop => "Apple Remote Desktop".to_owned(),
            SecurityType::AppleDiffieHellman => "Apple Diffie-Hellman".to_owned(),
            SecurityType::Other(code) => text::joined(
                "security type ",
                text::decimal_text(code as u64).as_str(),
            ),
        }
    }
}

/// A security type read from its code has that code again.
pub proof fn lemma_security_code_round_trip(code: u8)
    ensures
        SecurityType::of_code(code).number() == code,
{
}

/// Encodings, registered pseudo-encodings among them.
#[derive(Debug, Clone, Copy, PartialEq, Eq, Structural)]
pub enum Encoding {
    Raw,
    CopyRect,
    /// Reports a new framebuffer size.
    DesktopSize,
    /// Cursor shape update.
    Cursor,
    /// Cursor shape update in two colours.
    XCursor,
    /// Reports a new framebuffer size together with the screen layout.
    ExtendedDesktopSize,
    Zlib,
    ZlibHex,
    Tight,
    TightJpeg,
    Other(i32),
}

impl Encoding {
    /// The encoding that `code` stands for.
    pub open spec fn of_code(code: int) -> Self {
        if code == 0 {
            Encoding::Raw
        } else if code == 1 {
            Encoding::CopyRect
        } else if code == -223 {
            Encoding::DesktopSize
        } else if code == -239 {
            Encoding::Cursor
        } else if code == -240 {
            Encoding::XCursor
        } else if code == -308 {
            Encoding::ExtendedDesktopSize
        } else if code == 6 {
            Encoding::Zlib
        } else if code == 8 {
            Encoding::ZlibHex
        } else if code == 7 {
            Encoding::Tight
        } else if code == -32 {
            Encoding::TightJpeg
        } else {
            Encoding::Other(code as i32)
        }
    }

    /// The code that stands for this encoding.
    pub open spec fn number(self) -> int {
        match self {
            Encoding::Raw => 0,
            Encoding::CopyRect => 1,
            Encoding::DesktopSize => -223,
            Encoding::Cursor => -239,
            Encoding::XCursor => -240,
            Encoding::ExtendedDesktopSize => -308,
            Encoding::Zlib => 6,
            Encoding::ZlibHex => 8,
            Encoding::Tight => 7,
            Encoding::TightJpeg => -32,
            Encoding::Other(code) => code as int,
        }
    }

    /// The name this encoding is reported by.
    pub open spec fn name(self) -> Seq<char> {
        match self {
            Encoding::Raw => "Raw"@,
            Encoding::CopyRect => "CopyRect"@,
            Encoding::DesktopSize => "DesktopSize"@,
            Encoding::Cursor => "Cursor"@,
            Encoding::XCursor => "XCursor"@,
            Encoding::ExtendedDesktopSize => "ExtendedDesktopSize"@,
            Encoding::Zlib => "Zlib"@,
            Encoding::ZlibHex => "ZlibHex"@,
            Encoding::Tight => "Tight"@,
            Encoding::TightJpeg => "Tight/JPEG"@,
            Encoding::Other(code) => "encoding "@ + text::signed_decimal(code as int),
        }
    }

    /// The encoding that `code` stands for.
    pub fn from_code(code: i32) -> (r: Self)
        ensures
            r == Self::of_code(code as int),
    {
        match code {
            0 => Encoding::Raw,
            1 => Encoding::CopyRect,
            -223 => Encoding::DesktopSize,
            -239 => Encoding::Cursor,
            -240 => Encoding::XCursor,
            -308 => Encoding::ExtendedDesktopSize,
            6 => Encoding::Zlib,
            8 => Encoding::ZlibHex,
            7 => Encoding::Tight,
            -32 => Encoding::TightJpeg,
            other => Encoding::Other(other),
        }
    }

    /// The code that stands for this encoding.
    pub fn code(self) -> (r: i32)
        ensures
            r == self.number(),
    {
        match self {
            Encoding::Raw => 0,
            Encoding::CopyRect => 1,
            Encoding::DesktopSize => -223,
            Encoding::Cursor => -239,
            Encoding::XCursor => -240,
            Encoding::ExtendedDesktopSize => -308,
            Encoding::Zlib => 6,
            Encoding::ZlibHex => 8,
            Encoding::Tight => 7,
            Encoding::TightJpeg => -32,
            Encoding::Other(code) => code,
        }
    }

    /// The name this encoding is reported by.
    pub fn label(self) -> (r: String)
        ensures
            r@ == self.name(),
    {
        match self {
            Encoding::Raw => "Raw".to_owned(),
            Encoding::CopyRect => "CopyRect".to_owned(),
            Encoding::DesktopSize => "DesktopSize".to_owned(),
            Encoding::Cursor => "Cursor".to_owned(),
            Encoding::XCursor => "XCursor".to_owned(),
            Encoding::ExtendedDesktopSize => "ExtendedDesktopSize".to_owned(),
            Encoding::Zlib => "Zlib".to_owned(),
            Encoding::ZlibHex => "ZlibHex".to_owned(),
            Encoding::Tight => "Tight".to_owned(),
            Encoding::TightJpeg => "Tight/JPEG".to_owned(),
            Encoding::Other(code) => text::joined(
                "encoding ",
                text::signed_text(code as i64).as_str(),
            ),
        }
    }
}

/// An encoding read from its code has that code again.
pub proof fn lemma_encoding_code_round_trip(code: i32)
    ensures
        Encoding::of_code(code as int).number() == code,
{
}

/// How a server lays out a pixel.
#[derive(Debug, Clone, Copy, PartialEq, Eq, Structural)]
pub struct PixelFormat {
    pub bits_per_pixel: u8,
    pub depth: u8,
    pub big_endian: bool,
    pub true_colour: bool,
    pub red_max: u16,
    pub green_max: u16,
    pub blue_max: u16,
    pub red_shift: u8,
    pub green_shift: u8,
    pub blue_shift: u8,
}

/// The pixel format this client asks every server for: 32 bits per pixel, depth
/// 24, little-endian true colour with blue in the lowest byte.
pub open spec fn preferred() -> PixelFormat {
    PixelFormat {
        bits_per_pixel: 32,
        depth: 24,
        big_endian: false,
        true_colour: true,
        red_max: 255,
        green_max: 255,
        blue_max: 255,
        red_shift: 16,
        green_shift: 8,
        blue_shift: 0,
    }
}

/// The pixel format this client asks every server for.
pub fn preferred_pixel_format() -> (r: PixelFormat)
    ensures
        r == preferred(),
{
    PixelFormat {
        bits_per_pixel: 32,
        depth: 24,
        big_endian: false,
        true_colour: true,
        red_max: 255,
        green_max: 255,
        blue_max: 255,
        red_shift: 16,
        green_shift: 8,
        blue_shift: 0,
    }
}

/// One for true, zero for false.
pub open spec fn flag(b: bool) -> u8 {
    if b {
        1
    } else {
        0
    }
}

fn flag_byte(b: bool) -> (r: u8)
    ensures
        r == flag(b),
{
    if b {
        1
    } else {
        0
    }
}

/// `value` right-shifted by `shift`, masked with `max` and rescaled to 0..=255.
pub open spec fn channel(value: u32, max: u16, shift: u8) -> int {
    if max == 0 {
        0
    } else {
        ((value >> shift) & (max as u32)) * 255 / (max as int)
    }
}

proof fn lemma_and_bound(a: u32, m: u32)
    by (bit_vector)
    ensures
        a & m <= m,
{
}

proof fn lemma_pack(r: u32, g: u32, b: u32)
    by (bit_vector)
    requires
        r <= 255,
        g <= 255,
        b <= 255,
    ensures
        (r << 16) | (g << 8) | b == r * 65536 + g * 256 + b,
{
}

proof fn lemma_low_mask(n: u8)
    by (bit_vector)
    requires
        n < 8,
    ensures
        1 <= (1u32 << n) <= 128,
{
}

impl PixelFormat {
    /// The sixteen bytes of this format on the wire.
    pub open spec fn wire(&self) -> Seq<u8> {
        seq![
            self.bits_per_pixel,
            self.depth,
            flag(self.big_endian),
            flag(self.true_colour),
        ] + bytes::be16(self.red_max as int) + bytes::be16(self.green_max as int) + bytes::be16(
            self.blue_max as int,
        ) + seq![self.red_shift, self.green_shift, self.blue_shift, 0, 0, 0]
    }

    /// The format that the first thirteen of `b` describe.
    pub open spec fn of_wire(b: Seq<u8>) -> Self {
        PixelFormat {
            bits_per_pixel: b[0],
            depth: b[1],
            big_endian: b[2] != 0,
            true_colour: b[3] != 0,
            red_max: bytes::u16_at(b, 4) as u16,
            green_max: bytes::u16_at(b, 6) as u16,
            blue_max: bytes::u16_at(b, 8) as u16,
            red_shift: b[10],
            green_shift: b[11],
            blue_shift: b[12],
        }
    }

    /// Bytes a pixel occupies on the wire.
    pub open spec fn step(&self) -> nat {
        ((self.bits_per_pixel + 7) / 8) as nat
    }

    /// Whether every shift of a channel in use is less than the width of a word.
    pub open spec fn shifts_fit(&self) -> bool {
        self.true_colour ==> {
            &&& self.red_max != 0 ==> self.red_shift < 32
            &&& self.green_max != 0 ==> self.green_shift < 32
            &&& self.blue_max != 0 ==> self.blue_shift < 32
        }
    }

    /// The word that the bytes of a pixel make, of which the low 32 bits count.
    pub open spec fn pixel_word(&self, raw: Seq<u8>) -> u32 {
        let pixel = raw.take(self.step() as int);
        (bytes::be_value(
            if self.big_endian {
                pixel
            } else {
                pixel.reverse()
            },
        ) % 0x1_0000_0000) as u32
    }

    /// The grey level of a pixel that is an index into a colour map.
    pub open spec fn grey(&self, value: u32) -> int {
        let mask: u32 = if self.bits_per_pixel >= 8 {
            0xff
        } else {
            ((1u32 << self.bits_per_pixel) - 1) as u32
        };
        if mask == 0 {
            0
        } else {
            (value & mask) * 255 / (mask as int)
        }
    }

    /// The colour of a pixel as 0xRRGGBB.
    pub open spec fn colour(&self, raw: Seq<u8>) -> int {
        let value = self.pixel_word(raw);
        if self.true_colour {
            channel(value, self.red_max, self.red_shift) * 65536 + channel(
                value,
                self.green_max,
                self.green_shift,
            ) * 256 + channel(value, self.blue_max, self.blue_shift)
        } else {
            self.grey(value) * 65536 + self.grey(value) * 256 + self.grey(value)
        }
    }

    /// The sixteen bytes of this format on the wire.
    pub fn encode(&self) -> (out: [u8; 16])
        ensures
            out@ == self.wire(),
    {
        let out: [u8; 16] = [
            self.bits_per_pixel,
            self.depth,
            flag_byte(self.big_endian),
            flag_byte(self.true_colour),
            (self.red_max / 256) as u8,
            (self.red_max % 256) as u8,
            (self.green_max / 256) as u8,
            (self.green_max % 256) as u8,
            (self.blue_max / 256) as u8,
            (self.blue_max % 256) as u8,
            self.red_shift,
            self.green_shift,
            self.blue_shift,
            0,
            0,
            0,
        ];
        assert(out@ =~= self.wire());
        out
    }

    /// The format at the front of `bytes`; refused where it is incomplete.
    pub fn decode(bytes: &[u8]) -> (r: Result<Self, VncError>)
        ensures
            match r {
                Ok(format) => bytes@.len() >= 16 && format == Self::of_wire(bytes@),
                Err(e) => bytes@.len() < 16 && (e matches VncError::Protocol(text) && text@
                    == "pixel format needs 16 bytes, got "@ + text::decimal(bytes@.len())),
            },
    {
        if bytes.len() < 16 {
            return Err(
                VncError::protocol(
                    text::joined(
                        "pixel format needs 16 bytes, got ",
                        text::decimal_text(bytes.len() as u64).as_str(),
                    ),
                ),
            );
        }
        Ok(
            PixelFormat {
                bits_per_pixel: bytes[0],
                depth: bytes[1],
                big_endian: bytes[2] != 0,
                true_colour: bytes[3] != 0,
                red_max: bytes::read_u16(bytes, 4),
                green_max: bytes::read_u16(bytes, 6),
                blue_max: bytes::read_u16(bytes, 8),
                red_shift: bytes[10],
                green_shift: bytes[11],
                blue_shift: bytes[12],
            },
        )
    }

    /// Bytes a pixel occupies on the wire.
    pub fn bytes_per_pixel(&self) -> (r: usize)
        ensures
            r == self.step(),
            r <= 32,
    {
        (self.bits_per_pixel as usize + 7) / 8
    }

    fn word_of(&self, raw: &[u8]) -> (value: u32)
        requires
            raw@.len() >= self.step(),
        ensures
            value == self.pixel_word(raw@),
    {
        let step: usize = self.bytes_per_pixel();
        let ghost pixel = raw@.take(step as int);
        let ghost ordered = if self.big_endian {
            pixel
        } else {
            pixel.reverse()
        };
        let mut value: u32 = 0;
        let mut i: usize = 0;
        while i < step
            invariant
                i <= step <= raw@.len(),
                step == self.step(),
                pixel == raw@.take(step as int),
                ordered == if self.big_endian {
                    pixel
                } else {
                    pixel.reverse()
                },
                value == bytes::be_value(ordered.take(i as int)) % 0x1_0000_0000,
            decreases step - i,
        {
            let byte: u8 = if self.big_endian {
                raw[i]
            } else {
                raw[step - 1 - i]
            };
            proof {
                let t = ordered.take(i + 1);
                assert(t.drop_last() =~= ordered.take(i as int));
                assert(t.last() == byte);
                let whole = bytes::be_value(ordered.take(i as int));
                assert(bytes::be_value(t) == whole * 256 + byte);
                assert((whole * 256 + byte) % 0x1_0000_0000 == ((whole % 0x1_0000_0000)
                    % 0x100_0000) * 256 + byte) by {
                    let q = whole / 0x1_0000_0000;
                    let r = whole % 0x1_0000_0000;
                    assert(whole == q * 0x1_0000_0000 + r);
                    let h = r / 0x100_0000;
                    let l = r % 0x100_0000;
                    assert(r == h * 0x100_0000 + l);
                }
            }
            value = (value % 0x100_0000) * 256 + byte as u32;
            i = i + 1;
        }
        assert(ordered.take(step as int) =~= ordered);
        value
    }

    /// The colour of the pixel at the front of `raw` as 0xRRGGBB; refused where
    /// the pixel is incomplete.
    pub fn decode_pixel(&self, raw: &[u8]) -> (r: Result<u32, VncError>)
        requires
            self.shifts_fit(),
        ensures
            match r {
                Ok(colour) => raw@.len() >= self.step() && colour == self.colour(raw@) && colour
                    <= 0xff_ffff,
                Err(e) => raw@.len() < self.step() && (e matches VncError::Protocol(text) && text@
                    == "truncated pixel"@),
            },
    {
        let step: usize = self.bytes_per_pixel();
        if raw.len() < step {
            return Err(VncError::protocol("truncated pixel".to_owned()));
        }
        let value: u32 = self.word_of(raw);
        if !self.true_colour {
            let mask: u32 = if self.bits_per_pixel >= 8 {
                0xff
            } else {
                proof {
                    lemma_low_mask(self.bits_per_pixel);
                }
                (1u32 << self.bits_per_pixel) - 1
            };
            let index: u32 = value & mask;
            proof {
                lemma_and_bound(value, mask);
            }
            let level: u32 = if mask == 0 {
                0
            } else {
                let scaled: u32 = index * 255;
                proof {
                    lemma_scaled(index as int, mask as int);
                }
                scaled / mask
            };
            proof {
                lemma_pack(level, level, level);
            }
            return Ok((level << 16) | (level << 8) | level);
        }
        let red: u32 = component(value, self.red_max, self.red_shift);
        let green: u32 = component(value, self.green_max, self.green_shift);
        let blue: u32 = component(value, self.blue_max, self.blue_shift);
        proof {
            lemma_pack(red, green, blue);
        }
        Ok((red << 16) | (green << 8) | blue)
    }
}

proof fn lemma_scaled(x: int, max: int)
    by (nonlinear_arith)
    requires
        0 <= x <= max,
        max > 0,
    ensures
        0 <= x * 255 / max <= 255,
{
}

fn component(value: u32, max: u16, shift: u8) -> (r: u32)
    requires
        max != 0 ==> shift < 32,
    ensures
        r == channel(value, max, shift),
        r <= 255,
{
    if max == 0 {
        return 0;
    }
    let extracted: u32 = (value >> shift) & (max as u32);
    proof {
        lemma_and_bound(value >> shift, max as u32);
        lemma_scaled(extracted as int, max as int);
    }
    (extracted * 255) / (max as u32)
}

/// Reading a written format gives the format back.
pub proof fn lemma_pixel_format_round_trip(format: PixelFormat)
    ensures
        PixelFormat::of_wire(format.wire()) == format,
        format.wire().len() == 16,
{
    let w = format.wire();
    assert(w[4] == bytes::be16(format.red_max as int)[0]);
    assert(w[5] == bytes::be16(format.red_max as int)[1]);
    assert(w[6] == bytes::be16(format.green_max as int)[0]);
    assert(w[7] == bytes::be16(format.green_max as int)[1]);
    assert(w[8] == bytes::be16(format.blue_max as int)[0]);
    assert(w[9] == bytes::be16(format.blue_max as int)[1]);
}

/// A framebuffer update rectangle that this client can draw.
#[derive(Debug, Clone, PartialEq, Eq)]
pub enum Rectangle {
    /// Raw pixels in the negotiated format, row by row, tightly packed.
    Raw { x: u16, y: u16, width: u16, height: u16, pixels: Vec<u8> },
    /// Copy an existing region of the framebuffer.
    CopyRect { x: u16, y: u16, width: u16, height: u16, src_x: u16, src_y: u16 },
    /// A region of one colour.
    Solid { x: u16, y: u16, width: u16, height: u16, pixel: Vec<u8> },
    /// The server reports a new framebuffer size.
    DesktopSize { width: u16, height: u16 },
}

/// A rectangle with its bytes as sequences.
pub enum RectangleView {
    Raw { x: u16, y: u16, width: u16, height: u16, pixels: Seq<u8> },
    CopyRect { x: u16, y: u16, width: u16, height: u16, src_x: u16, src_y: u16 },
    Solid { x: u16, y: u16, width: u16, height: u16, pixel: Seq<u8> },
    DesktopSize { width: u16, height: u16 },
}

impl View for Rectangle {
    type V = RectangleView;

    open spec fn view(&self) -> RectangleView {
        match *self {
            Rectangle::Raw { x, y, width, height, pixels } => RectangleView::Raw {
                x,
                y,
                width,
                height,
                pixels: pixels@,
            },
            Rectangle::CopyRect { x, y, width, height, src_x, src_y } => RectangleView::CopyRect {
                x,
                y,
                width,
                height,
                src_x,
                src_y,
            },
            Rectangle::Solid { x, y, width, height, pixel } => RectangleView::Solid {
                x,
                y,
                width,
                height,
                pixel: pixel@,
            },
            Rectangle::DesktopSize { width, height } => RectangleView::DesktopSize {
                width,
                height,
            },
        }
    }
}

impl Rectangle {
    /// The region this rectangle is about: left, top, width and height.
    pub fn geometry(&self) -> (r: (u16, u16, u16, u16))
        ensures
            r == match *self {
                Rectangle::Raw { x, y, width, height, .. } => (x, y, width, height),
                Rectangle::CopyRect { x, y, width, height, .. } => (x, y, width, height),
                Rectangle::Solid { x, y, width, height, .. } => (x, y, width, height),
                Rectangle::DesktopSize { width, height } => (0u16, 0u16, width, height),
            },
    {
        match self {
            Rectangle::Raw { x, y, width, height, .. } => (*x, *y, *width, *height),
            Rectangle::CopyRect { x, y, width, height, .. } => (*x, *y, *width, *height),
            Rectangle::Solid { x, y, width, height, .. } => (*x, *y, *width, *height),
            Rectangle::DesktopSize { width, height } => (0, 0, *width, *height),
        }
    }
}

/// The views of `rectangles`.
pub open spec fn views(rectangles: Seq<Rectangle>) -> Seq<RectangleView> {
    Seq::new(rectangles.len(), |i: int| rectangles[i]@)
}

/// One framebuffer update: a sequence of rectangles, possibly empty.
#[derive(Debug, Clone, PartialEq, Eq)]
pub struct FramebufferUpdate {
    pub rectangles: Vec<Rectangle>,
}

/// Clipboard text from the server.
#[derive(Debug, Clone, PartialEq, Eq)]
pub struct ServerCutText {
    pub text: String,
}

/// A `SetPixelFormat` message.
pub fn encode_set_pixel_format(format: &PixelFormat) -> (out: Vec<u8>)
    ensures
        out@ == seq![C2S_SET_PIXEL_FORMAT, 0, 0, 0] + format.wire(),
{
    let mut out: Vec<u8> = Vec::with_capacity(20);
    out.push(C2S_SET_PIXEL_FORMAT);
    out.push(0);
    out.push(0);
    out.push(0);
    assert(out@ =~= seq![C2S_SET_PIXEL_FORMAT, 0, 0, 0]);
    bytes::push_all(&mut out, &format.encode());
    out
}

/// The codes of `encodings`, each in four bytes.
pub open spec fn encoding_codes(encodings: Seq<Encoding>) -> Seq<u8>
    decreases encodings.len(),
{
    if encodings.len() == 0 {
        Seq::empty()
    } else {
        encoding_codes(encodings.drop_last()) + bytes::be32(
            bytes::complement32(encodings.last().number()),
        )
    }
}

/// A `SetEncodings` message; refused where the count does not fit.
pub fn encode_set_encodings(encodings: &[Encoding]) -> (r: Result<Vec<u8>, VncError>)
    ensures
        match r {
            Ok(out) => encodings@.len() <= 65535 && out@ == seq![C2S_SET_ENCODINGS, 0] + bytes::be16(
                encodings@.len() as int,
            ) + encoding_codes(encodings@),
            Err(e) => encodings@.len() > 65535 && (e matches VncError::Protocol(text) && text@
                == "too many encodings"@),
        },
{
    if encodings.len() > 65535 {
        return Err(VncError::protocol("too many encodings".to_owned()));
    }
    let mut out: Vec<u8> = Vec::new();
    out.push(C2S_SET_ENCODINGS);
    out.push(0);
    assert(out@ =~= seq![C2S_SET_ENCODINGS, 0]);
    bytes::push_u16(&mut out, encodings.len() as u16);
    let ghost head = out@;
    let mut i: usize = 0;
    assert(out@ =~= head + encoding_codes(encodings@.take(0)));
    while i < encodings.len()
        invariant
            i <= encodings@.len(),
            out@ == head + encoding_codes(encodings@.take(i as int)),
        decreases encodings@.len() - i,
    {
        bytes::push_i32(&mut out, encodings[i].code());
        proof {
            let t = encodings@.take(i + 1);
            assert(t.drop_last() =~= encodings@.take(i as int));
            assert(out@ =~= head + encoding_codes(t));
        }
        i = i + 1;
    }
    assert(encodings@.take(i as int) =~= encodings@);
    Ok(out)
}

/// A `FramebufferUpdateRequest` message.
pub fn encode_framebuffer_update_request(
    incremental: bool,
    x: u16,
    y: u16,
    width: u16,
    height: u16,
) -> (out: Vec<u8>)
    ensures
        out@ == seq![C2S_FRAMEBUFFER_UPDATE_REQUEST, flag(incremental)] + bytes::be16(x as int)
            + bytes::be16(y as int) + bytes::be16(width as int) + bytes::be16(height as int),
{
    let mut out: Vec<u8> = Vec::with_capacity(10);
    out.push(C2S_FRAMEBUFFER_UPDATE_REQUEST);
    out.push(flag_byte(incremental));
    assert(out@ =~= seq![C2S_FRAMEBUFFER_UPDATE_REQUEST, flag(incremental)]);
    bytes::push_u16(&mut out, x);
    bytes::push_u16(&mut out, y);
    bytes::push_u16(&mut out, width);
    bytes::push_u16(&mut out, height);
    out
}

/// A `KeyEvent` message for an X11 keysym; `down` false is a release.
pub fn encode_key_event(down: bool, keysym: u32) -> (out: [u8; 8])
    ensures
        out@ == seq![C2S_KEY_EVENT, flag(down), 0, 0] + bytes::be32(keysym as int),
{
    let out: [u8; 8] = [
        C2S_KEY_EVENT,
        flag_byte(down),
        0,
        0,
        (keysym / 16777216) as u8,
        (keysym / 65536 % 256) as u8,
        (keysym / 256 % 256) as u8,
        (keysym % 256) as u8,
    ];
    assert(out@ =~= seq![C2S_KEY_EVENT, flag(down), 0, 0] + bytes::be32(keysym as int));
    out
}

/// A `PointerEvent` message.
pub fn encode_pointer_event(buttons: u8, x: u16, y: u16) -> (out: [u8; 6])
    ensures
        out@ == seq![C2S_POINTER_EVENT, buttons] + bytes::be16(x as int) + bytes::be16(y as int),
{
    let out: [u8; 6] = [
        C2S_POINTER_EVENT,
        buttons,
        (x / 256) as u8,
        (x % 256) as u8,
        (y / 256) as u8,
        (y % 256) as u8,
    ];
    assert(out@ =~= seq![C2S_POINTER_EVENT, buttons] + bytes::be16(x as int) + bytes::be16(
        y as int,
    ));
    out
}

/// A `ClientCutText` message; refused where the length does not fit.
pub fn encode_client_cut_text(text: &str) -> (r: Result<Vec<u8>, VncError>)
    ensures
        ({
            let body = vstd::utf8::encode_utf8(text@);
            match r {
                Ok(out) => body.len() <= u32::MAX && out@ == seq![C2S_CLIENT_CUT_TEXT, 0, 0, 0]
                    + bytes::be32(body.len() as int) + body,
                Err(e) => body.len() > u32::MAX && (e matches VncError::Protocol(t) && t@
                    == "clipboard text too long"@),
            }
        }),
{
    let body = text.as_bytes();
    if body.len() as u64 > u32::MAX as u64 {
        return Err(VncError::protocol("clipboard text too long".to_owned()));
    }
    let mut out: Vec<u8> = Vec::new();
    out.push(C2S_CLIENT_CUT_TEXT);
    out.push(0);
    out.push(0);
    out.push(0);
    assert(out@ =~= seq![C2S_CLIENT_CUT_TEXT, 0, 0, 0]);
    bytes::push_u32(&mut out, body.len() as u32);
    bytes::push_all(&mut out, body);
    Ok(out)
}

/// What the front of a byte string is when read as a rectangle.
pub enum RectangleRead {
    /// A rectangle, if there is something to draw, in the first `used` bytes.
    Whole { rectangle: Option<RectangleView>, used: int },
    /// The input ends inside `what`.
    Short { what: Seq<char> },
    /// An encoding this client does not read.
    Unsupported { encoding: Encoding },
}

/// The front of `b` read as a rectangle whose pixels are laid out by `format`.
pub open spec fn read_rectangle(b: Seq<u8>, format: PixelFormat) -> RectangleRead {
    if b.len() < 12 {
        RectangleRead::Short { what: "rectangle header"@ }
    } else {
        let x = bytes::u16_at(b, 0) as u16;
        let y = bytes::u16_at(b, 2) as u16;
        let width = bytes::u16_at(b, 4) as u16;
        let height = bytes::u16_at(b, 6) as u16;
        let area = width * height;
        let encoding = Encoding::of_code(bytes::signed32(bytes::u32_at(b, 8)));
        match encoding {
            Encoding::Raw => {
                let length = area * format.step();
                if b.len() < 12 + length {
                    RectangleRead::Short { what: "raw rectangle"@ }
                } else {
                    RectangleRead::Whole {
                        rectangle: Some(
                            RectangleView::Raw {
                                x,
                                y,
                                width,
                                height,
                                pixels: b.subrange(12, 12 + length),
                            },
                        ),
                        used: 12 + length,
                    }
                }
            },
            Encoding::CopyRect => if b.len() < 16 {
                RectangleRead::Short { what: "copyrect source"@ }
            } else {
                RectangleRead::Whole {
                    rectangle: Some(
                        RectangleView::CopyRect {
                            x,
                            y,
                            width,
                            height,
                            src_x: bytes::u16_at(b, 12) as u16,
                            src_y: bytes::u16_at(b, 14) as u16,
                        },
                    ),
                    used: 16,
                }
            },
            Encoding::DesktopSize => RectangleRead::Whole {
                rectangle: Some(RectangleView::DesktopSize { width, height }),
                used: 12,
            },
            Encoding::ExtendedDesktopSize => if b.len() < 16 {
                RectangleRead::Short { what: "extended desktop size"@ }
            } else if b.len() < 16 + 16 * b[15] {
                RectangleRead::Short { what: "extended desktop size screens"@ }
            } else {
                RectangleRead::Whole {
                    rectangle: Some(RectangleView::DesktopSize { width, height }),
                    used: 16 + 16 * b[15],
                }
            },
            Encoding::Cursor | Encoding::XCursor => {
                let extra = if encoding == Encoding::XCursor {
                    6int
                } else {
                    0
                };
                let length = area * format.step() + (area + 7) / 8 + extra;
                if b.len() < 12 + length {
                    RectangleRead::Short { what: "cursor rectangle"@ }
                } else {
                    RectangleRead::Whole { rectangle: None, used: 12 + length }
                }
            },
            other => RectangleRead::Unsupported { encoding: other },
        }
    }
}

/// What the front of a byte string is when read as an update.
pub enum UpdateRead {
    /// The rectangles to draw, and the bytes behind the update.
    Whole { rectangles: Seq<RectangleView>, rest: Seq<u8> },
    /// The input ends inside `what`.
    Short { what: Seq<char> },
    /// An encoding this client does not read, and the bytes behind the header that
    /// names it.
    Unsupported { encoding: Encoding, rest: Seq<u8> },
}

/// `count` rectangles read from the front of `b`, after those in `done`.
pub open spec fn read_update(
    count: nat,
    b: Seq<u8>,
    format: PixelFormat,
    done: Seq<RectangleView>,
) -> UpdateRead
    decreases count,
{
    if count == 0 {
        UpdateRead::Whole { rectangles: done, rest: b }
    } else {
        match read_rectangle(b, format) {
            RectangleRead::Whole { rectangle, used } => read_update(
                (count - 1) as nat,
                b.skip(used),
                format,
                match rectangle {
                    Some(r) => done.push(r),
                    None => done,
                },
            ),
            RectangleRead::Short { what } => UpdateRead::Short { what },
            RectangleRead::Unsupported { encoding } => UpdateRead::Unsupported {
                encoding,
                rest: b.skip(12),
            },
        }
    }
}

/// The rectangle at the front of `b`, if there is something to draw, and how many
/// bytes it takes.
fn decode_rectangle(b: &[u8], format: &PixelFormat) -> (r: Result<
    (Option<Rectangle>, usize),
    VncError,
>)
    ensures
        match r {
            Ok((rectangle, used)) => used <= b@.len() && read_rectangle(b@, *format) == (
            RectangleRead::Whole {
                rectangle: match rectangle {
                    Some(x) => Some(x@),
                    None => None,
                },
                used: used as int,
            }),
            Err(e) => match read_rectangle(b@, *format) {
                RectangleRead::Whole { .. } => false,
                RectangleRead::Short { what } => vnc::is_short_read(e, what),
                RectangleRead::Unsupported { encoding } => b@.len() >= 12 && (
                e matches VncError::Protocol(text) && text@ == vnc::unsupported_encoding_text(
                    encoding,
                )),
            },
        },
{
    if b.len() < 12 {
        return Err(short_read("rectangle header"));
    }
    let x: u16 = bytes::read_u16(b, 0);
    let y: u16 = bytes::read_u16(b, 2);
    let width: u16 = bytes::read_u16(b, 4);
    let height: u16 = bytes::read_u16(b, 6);
    let encoding = Encoding::from_code(bytes::read_i32(b, 8));
    let step: u64 = format.bytes_per_pixel() as u64;
    proof {
        lemma_area(width as int, height as int, step as int);
    }
    let area: u64 = width as u64 * height as u64;
    let left: u64 = (b.len() - 12) as u64;
    match encoding {
        Encoding::Raw => {
            let length: u64 = area * step;
            if left < length {
                return Err(short_read("raw rectangle"));
            }
            let used: usize = 12 + length as usize;
            let pixels = bytes::copy_range(b, 12, used);
            let rectangle = Rectangle::Raw { x, y, width, height, pixels };
            Ok((Some(rectangle), used))
        },
        Encoding::CopyRect => {
            if b.len() < 16 {
                return Err(short_read("copyrect source"));
            }
            let rectangle = Rectangle::CopyRect {
                x,
                y,
                width,
                height,
                src_x: bytes::read_u16(b, 12),
                src_y: bytes::read_u16(b, 14),
            };
            Ok((Some(rectangle), 16))
        },
        Encoding::DesktopSize => Ok((Some(Rectangle::DesktopSize { width, height }), 12)),
        Encoding::ExtendedDesktopSize => {
            if b.len() < 16 {
                return Err(short_read("extended desktop size"));
            }
            let screens: usize = b[15] as usize;
            if b.len() - 16 < 16 * screens {
                return Err(short_read("extended desktop size screens"));
            }
            Ok((Some(Rectangle::DesktopSize { width, height }), 16 + 16 * screens))
        },
        Encoding::Cursor | Encoding::XCursor => {
            let extra: u64 = if encoding == Encoding::XCursor {
                6
            } else {
                0
            };
            let length: u64 = area * step + (area + 7) / 8 + extra;
            if left < length {
                return Err(short_read("cursor rectangle"));
            }
            Ok((None, 12 + length as usize))
        },
        other => Err(VncError::unsupported_encoding(other)),
    }
}

proof fn lemma_area(width: int, height: int, step: int)
    by (nonlinear_arith)
    requires
        0 <= width <= 65535,
        0 <= height <= 65535,
        0 <= step <= 32,
    ensures
        0 <= width * height <= 65535 * 65535,
        0 <= width * height * step <= 65535 * 65535 * 32,
{
}

/// Reads the `count` rectangles of an update from the front of `reader`, whose
/// pixels are laid out by `format`. What was read is taken even where that fails: all
/// of the input where it ends too early, and all up to the end of the header where a
/// rectangle cannot be read.
pub fn decode_framebuffer_update(count: u16, reader: &mut &[u8], format: &PixelFormat) -> (r: Result<
    FramebufferUpdate,
    VncError,
>)
    ensures
        match r {
            Ok(update) => read_update(count as nat, old(reader)@, *format, Seq::empty()) == (
            UpdateRead::Whole { rectangles: views(update.rectangles@), rest: final(reader)@ }),
            Err(e) => match read_update(count as nat, old(reader)@, *format, Seq::empty()) {
                UpdateRead::Whole { .. } => false,
                UpdateRead::Short { what } => vnc::is_short_read(e, what) && final(reader)@.len()
                    == 0,
                UpdateRead::Unsupported { encoding, rest } => e matches VncError::Protocol(text)
                    && text@ == vnc::unsupported_encoding_text(encoding) && final(reader)@ == rest,
            },
        },
{
    let start: &[u8] = *reader;
    let mut rest: &[u8] = start;
    let mut rectangles: Vec<Rectangle> = Vec::new();
    let mut n: u16 = 0;
    assert(views(rectangles@) =~= Seq::empty());
    while n < count
        invariant
            n <= count,
            read_update((count - n) as nat, rest@, *format, views(rectangles@)) == read_update(
                count as nat,
                start@,
                *format,
                Seq::empty(),
            ),
            reader@ == old(reader)@,
            start@ == old(reader)@,
        decreases count - n,
    {
        match decode_rectangle(rest, format) {
            Err(e) => {
                let taken: usize = match &e {
                    VncError::Io { .. } => rest.len(),
                    _ => 12,
                };
                *reader = slice_subrange(rest, taken, rest.len());
                assert(reader@ =~= rest@.skip(taken as int));
                return Err(e);
            },
            Ok((rectangle, used)) => {
                let ghost before = rest@;
                rest = slice_subrange(rest, used, rest.len());
                assert(rest@ =~= before.skip(used as int));
                if let Some(rectangle) = rectangle {
                    let ghost drawn = rectangles@;
                    rectangles.push(rectangle);
                    assert(views(rectangles@) =~= views(drawn).push(rectangle@));
                }
            },
        }
        n = n + 1;
    }
    *reader = rest;
    Ok(FramebufferUpdate { rectangles })
}

/// Reads the text of a `ServerCutText` message from the front of `reader`. What was read
/// is taken even where that fails: all of the input where it ends too early, and the
/// length where it is over the limit.
pub fn decode_server_cut_text(reader: &mut &[u8]) -> (r: Result<ServerCutText, VncError>)
    ensures
        ({
            let b = old(reader)@;
            let length = bytes::u32_at(b, 0);
            match r {
                Ok(cut) => b.len() >= 4 && length <= MAX_CUT_TEXT && b.len() >= 4 + length
                    && cut.text@ == text::shown(b.subrange(4, 4 + length)) && final(reader)@
                    == b.skip(4 + length),
                Err(e) => if b.len() < 4 {
                    vnc::is_short_read(e, "cut text length"@) && final(reader)@.len() == 0
                } else if length > MAX_CUT_TEXT {
                    (e matches VncError::Protocol(t) && t@ == "server cut text of "@
                        + text::decimal(length as nat) + " bytes exceeds the 1048576 byte limit"@)
                        && final(reader)@ == b.skip(4)
                } else {
                    b.len() < 4 + length && vnc::is_short_read(e, "cut text body"@) && final(reader)@.len() == 0
                },
            }
        }),
{
    let b: &[u8] = *reader;
    let whole: usize = b.len();
    if whole < 4 {
        *reader = slice_subrange(b, whole, whole);
        return Err(short_read("cut text length"));
    }
    let length: u32 = bytes::read_u32(b, 0);
    if length > MAX_CUT_TEXT {
        let mut message = "server cut text of ".to_owned();
        message.append(text::decimal_text(length as u64).as_str());
        message.append(" bytes exceeds the 1048576 byte limit");
        *reader = slice_subrange(b, 4, whole);
        assert(reader@ =~= old(reader)@.skip(4));
        return Err(VncError::protocol(message));
    }
    if whole - 4 < length as usize {
        *reader = slice_subrange(b, whole, whole);
        return Err(short_read("cut text body"));
    }
    let end: usize = 4 + length as usize;
    let text = text::lossy(slice_subrange(b, 4, end));
    *reader = slice_subrange(b, end, whole);
    assert(reader@ =~= old(reader)@.skip(end as int));
    Ok(ServerCutText { text })
}

proof fn lemma_rectangle_prefix(b: Seq<u8>, more: Seq<u8>, format: PixelFormat)
    ensures
        match read_rectangle(b, format) {
            RectangleRead::Short { .. } => true,
            other => read_rectangle(b + more, format) == other,
        },
        read_rectangle(b, format) matches RectangleRead::Whole { used, .. } ==> 0 <= used <= b.len(),
{
    let all = b + more;
    if b.len() >= 12 {
        assert forall|i: int| 0 <= i < b.len() implies #[trigger] all[i] == b[i] by {}
        let width = bytes::u16_at(b, 4);
        let height = bytes::u16_at(b, 6);
        lemma_area(width, height, format.step() as int);
        let length = (width as u16) * (height as u16) * format.step();
        assert(0 <= length);
        if b.len() >= 12 + length {
            assert(all.subrange(12, 12 + length) =~= b.subrange(12, 12 + length));
        }
    }
}

/// Bytes that arrive later do not change an update that could be read, or
/// refused, without them.
pub proof fn lemma_update_prefix(
    count: nat,
    b: Seq<u8>,
    more: Seq<u8>,
    format: PixelFormat,
    done: Seq<RectangleView>,
)
    ensures
        match read_update(count, b, format, done) {
            UpdateRead::Whole { rectangles, rest } => read_update(count, b + more, format, done) == (
            UpdateRead::Whole { rectangles, rest: rest + more }),
            UpdateRead::Short { .. } => true,
            UpdateRead::Unsupported { encoding, rest } => read_update(count, b + more, format, done)
                == (UpdateRead::Unsupported { encoding, rest: rest + more }),
        },
    decreases count,
{
    if count > 0 {
        lemma_rectangle_prefix(b, more, format);
        if let RectangleRead::Whole { rectangle, used } = read_rectangle(b, format) {
            let next = match rectangle {
                Some(r) => done.push(r),
                None => done,
            };
            assert((b + more).skip(used) =~= b.skip(used) + more);
            lemma_update_prefix((count - 1) as nat, b.skip(used), more, format, next);
        } else if b.len() >= 12 {
            assert((b + more).skip(12) =~= b.skip(12) + more);
        }
    }
}

} // verus!
