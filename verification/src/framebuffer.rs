//! Writing single pixels into a linear framebuffer.

use vstd::prelude::*;

verus! {

/// A pixel's place on the screen, counted from the top left corner.
#[derive(Debug, Clone, Copy, PartialEq, Eq, Structural)]
pub struct Position {
    pub x: usize,
    pub y: usize,
}

/// A colour as three 8-bit channels.
#[derive(Debug, Clone, Copy, PartialEq, Eq, Structural)]
pub struct Color {
    pub red: u8,
    pub green: u8,
    pub blue: u8,
}

/// How the bytes of one pixel encode its colour.
#[derive(Debug, Clone, Copy, PartialEq, Eq, Structural)]
pub enum PixelFormat {
    /// One byte red, one byte green, one byte blue.
    Rgb,
    /// One byte blue, one byte green, one byte red.
    Bgr,
    /// One byte of grayscale.
    U8,
    /// A format given only by the bit offsets of its channels. Pixels of
    /// such a format cannot be written.
    Unknown { red_position: u8, green_position: u8, blue_position: u8 },
}

/// The layout of a framebuffer.
#[derive(Debug, Clone, Copy)]
pub struct FrameBufferInfo {
    /// The total size in bytes.
    pub byte_len: usize,
    /// The width in pixels.
    pub width: usize,
    /// The height in pixels.
    pub height: usize,
    /// The colour format of each pixel.
    pub pixel_format: PixelFormat,
    /// The number of bytes that one pixel takes.
    pub bytes_per_pixel: usize,
    /// The number of pixels from the start of one line to the start of the next.
    pub stride: usize,
}

impl PixelFormat {
    /// The bytes that encode `color` in this format; empty for a format
    /// that cannot be written.
    pub open spec fn encode(self, color: Color) -> Seq<u8> {
        match self {
            PixelFormat::Rgb => seq![color.red, color.green, color.blue],
            PixelFormat::Bgr => seq![color.blue, color.green, color.red],
            PixelFormat::U8 => seq![gray_level(color)],
            PixelFormat::Unknown { .. } => seq![],
        }
    }

    /// Whether pixels of this format can be written.
    pub open spec fn supported(self) -> bool {
        !(self is Unknown)
    }

    /// The number of bytes that a pixel of this format is written with.
    pub open spec fn channels(self) -> int {
        match self {
            PixelFormat::Rgb | PixelFormat::Bgr => 3,
            PixelFormat::U8 => 1,
            PixelFormat::Unknown { .. } => 0,
        }
    }
}

/// The grayscale value of a colour: a third of each channel, each rounded
/// down on its own, then summed.
pub open spec fn gray_level(color: Color) -> u8 {
    (color.red / 3 + color.green / 3 + color.blue / 3) as u8
}

impl FrameBufferInfo {
    /// The index of the first byte of the pixel at `position`.
    pub open spec fn byte_offset(self, position: Position) -> int {
        (position.y * self.stride + position.x) * self.bytes_per_pixel
    }

    /// Whether the pixel at `position` can be written into a buffer of
    /// `buffer_len` bytes: the format is one that can be written, a pixel
    /// has room for its channels, and the pixel lies within the buffer.
    pub open spec fn admits(self, buffer_len: int, position: Position) -> bool {
        &&& self.pixel_format.supported()
        &&& self.pixel_format.channels() <= self.bytes_per_pixel
        &&& self.byte_offset(position) + self.bytes_per_pixel <= buffer_len
    }
}

impl PixelFormat {
    /// The number of bytes that a pixel of this format is written with;
    /// zero for a format that cannot be written.
    pub fn channel_count(&self) -> (count: usize)
        ensures
            count == self.channels(),
            count == self.encode(Color { red: 0, green: 0, blue: 0 }).len(),
            (count == 0) == !self.supported(),
    {
        match self {
            PixelFormat::Rgb => 3,
            PixelFormat::Bgr => 3,
            PixelFormat::U8 => 1,
            PixelFormat::Unknown { .. } => 0,
        }
    }
}

impl FrameBufferInfo {
    /// Decides whether `set_pixel_in` may be called for `position` on a
    /// buffer of `buffer_len` bytes.
    pub fn can_set_pixel(&self, buffer_len: usize, position: Position) -> (ok: bool)
        ensures
            ok == self.admits(buffer_len as int, position),
    {
        let channels: usize = self.pixel_format.channel_count();
        if channels == 0 || channels > self.bytes_per_pixel {
            return false;
        }
        proof {
            lemma_offset_parts(
                position.y as int,
                self.stride as int,
                position.x as int,
                self.bytes_per_pixel as int,
            );
        }
        let line_offset: usize = match position.y.checked_mul(self.stride) {
            Some(offset) => offset,
            None => { return false; },
        };
        let pixel_offset: usize = match line_offset.checked_add(position.x) {
            Some(offset) => offset,
            None => { return false; },
        };
        let byte_offset: usize = match pixel_offset.checked_mul(self.bytes_per_pixel) {
            Some(offset) => offset,
            None => { return false; },
        };
        match byte_offset.checked_add(self.bytes_per_pixel) {
            Some(end) => end <= buffer_len,
            None => false,
        }
    }
}

/// The buffer `buffer` after the bytes `bytes` were written at index `at`.
pub open spec fn overwritten(buffer: Seq<u8>, at: int, bytes: Seq<u8>) -> Seq<u8> {
    Seq::new(
        buffer.len(),
        |i: int|
            if at <= i < at + bytes.len() {
                bytes[i - at]
            } else {
                buffer[i]
            },
    )
}

/// Writes the colour of one pixel into the framebuffer's bytes.
///
/// The pixel's bytes start at `(y * stride + x) * bytes_per_pixel`. Only the
/// bytes that the format defines are written: a pixel's remaining bytes, and
/// every other pixel, keep their values.
pub fn set_pixel_in(buffer: &mut [u8], info: FrameBufferInfo, position: Position, color: Color)
    requires
        info.admits(old(buffer)@.len() as int, position),
    ensures
        final(buffer)@ == overwritten(
            old(buffer)@,
            info.byte_offset(position),
            info.pixel_format.encode(color),
        ),
{
    let buffer_len: usize = buffer.len();
    proof {
        lemma_offset_parts(
            position.y as int,
            info.stride as int,
            position.x as int,
            info.bytes_per_pixel as int,
        );
    }
    let line_offset: usize = position.y * info.stride;
    let pixel_offset: usize = line_offset + position.x;
    let byte_offset: usize = pixel_offset * info.bytes_per_pixel;
    assert(byte_offset + info.bytes_per_pixel <= buffer_len);
    match info.pixel_format {
        PixelFormat::Rgb => {
            buffer[byte_offset] = color.red;
            buffer[byte_offset + 1] = color.green;
            buffer[byte_offset + 2] = color.blue;
        },
        PixelFormat::Bgr => {
            buffer[byte_offset] = color.blue;
            buffer[byte_offset + 1] = color.green;
            buffer[byte_offset + 2] = color.red;
        },
        PixelFormat::U8 => {
            let gray: u8 = color.red / 3 + color.green / 3 + color.blue / 3;
            buffer[byte_offset] = gray;
        },
        PixelFormat::Unknown { .. } => unreached(),
    }
    assert(final(buffer)@ =~= overwritten(
        old(buffer)@,
        info.byte_offset(position),
        info.pixel_format.encode(color),
    ));
}

/// With at least one byte per pixel, a line's offset and a pixel's index
/// are no larger than the pixel's byte offset.
proof fn lemma_offset_parts(y: int, stride: int, x: int, bytes_per_pixel: int)
    requires
        0 <= y,
        0 <= stride,
        0 <= x,
        1 <= bytes_per_pixel,
    ensures
        0 <= y * stride <= y * stride + x <= (y * stride + x) * bytes_per_pixel,
{
    assert(0 <= y * stride) by (nonlinear_arith)
        requires
            0 <= y,
            0 <= stride,
    ;
    let pixel = y * stride + x;
    assert(pixel <= pixel * bytes_per_pixel) by (nonlinear_arith)
        requires
            0 <= pixel,
            1 <= bytes_per_pixel,
    ;
}

} // verus!
