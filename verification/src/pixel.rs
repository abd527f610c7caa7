//! Pixel buffers as a toolkit hands them over, and the densely packed icon
//! images a tray backend takes.
//!
//! A toolkit describes an image by its size, the number of bytes from one row
//! to the next (which may include padding), the number of channels per pixel,
//! and whether the fourth channel is alpha. A tray backend wants four bytes per
//! pixel, no padding, in a channel order of its own. [`convert`] goes from the
//! first to the second.

use vstd::prelude::*;
use vstd::arithmetic::div_mod::lemma_fundamental_div_mod_converse;

verus! {

/// One of the four channels of an output pixel.
#[derive(Clone, Copy, Debug, PartialEq, Eq, Structural)]
pub enum Channel {
    Red,
    Green,
    Blue,
    Alpha,
}

/// The byte order of one packed pixel.
#[derive(Clone, Copy, Debug, PartialEq, Eq, Structural)]
pub enum ChannelOrder {
    /// Alpha first, then red, green, blue: what a status-notifier host reads.
    Argb,
    /// Red, green, blue, then alpha: what the native shell tray reads.
    Rgba,
}

impl Channel {
    /// Where this channel sits inside a source pixel: red, green, blue, alpha.
    pub open spec fn source_index(self) -> int {
        match self {
            Channel::Red => 0,
            Channel::Green => 1,
            Channel::Blue => 2,
            Channel::Alpha => 3,
        }
    }
}

impl ChannelOrder {
    /// The channel stored in byte `k` (0 to 3) of a packed pixel.
    pub open spec fn channel_at(self, k: int) -> Channel {
        match self {
            ChannelOrder::Argb => if k == 0 {
                Channel::Alpha
            } else if k == 1 {
                Channel::Red
            } else if k == 2 {
                Channel::Green
            } else {
                Channel::Blue
            },
            ChannelOrder::Rgba => if k == 0 {
                Channel::Red
            } else if k == 1 {
                Channel::Green
            } else if k == 2 {
                Channel::Blue
            } else {
                Channel::Alpha
            },
        }
    }

    /// The byte of a packed pixel that stores `channel`; the inverse of
    /// [`ChannelOrder::channel_at`].
    pub open spec fn position_of(self, channel: Channel) -> int {
        match self {
            ChannelOrder::Argb => match channel {
                Channel::Alpha => 0,
                Channel::Red => 1,
                Channel::Green => 2,
                Channel::Blue => 3,
            },
            ChannelOrder::Rgba => channel.source_index(),
        }
    }
}

/// An image as a toolkit exposes it. The bytes are read, never changed.
#[derive(Clone, Debug, PartialEq, Eq)]
pub struct PixelBuffer {
    /// Pixels per row.
    pub width: i32,
    /// Number of rows.
    pub height: i32,
    /// Bytes from the start of one row to the start of the next.
    pub stride: usize,
    /// Bytes per pixel.
    pub channel_count: usize,
    /// Whether a fourth channel, if there is one, holds alpha.
    pub has_alpha: bool,
    /// The rows, one after the other.
    pub data: Vec<u8>,
}

/// A packed image: four bytes per pixel, rows back to back.
#[derive(Clone, Debug, PartialEq, Eq)]
pub struct IconImage {
    /// Pixels per row.
    pub width: u32,
    /// Number of rows.
    pub height: u32,
    /// `width * height` pixels of four bytes each.
    pub data: Vec<u8>,
}

impl IconImage {
    /// The data holds exactly four bytes for each pixel.
    pub open spec fn wf(&self) -> bool {
        self.data@.len() == 4 * (self.width * self.height)
    }

    /// An image without pixels stands for "no icon".
    pub open spec fn spec_is_empty(&self) -> bool {
        self.data@.len() == 0
    }

    /// The image without pixels.
    pub fn empty() -> (image: IconImage)
        ensures
            image.width == 0,
            image.height == 0,
            image.data@ == Seq::<u8>::empty(),
            image.wf(),
    {
        IconImage { width: 0, height: 0, data: Vec::new() }
    }

    /// The number of pixels, where it can be counted in 32 bits. A native
    /// shell multiplies width by height in 32 bits and cannot take an image
    /// for which this is `None`.
    pub fn pixel_count(&self) -> (count: Option<u32>)
        ensures
            count is Some <==> self.width * self.height <= u32::MAX,
            count matches Some(pixels) ==> pixels == self.width * self.height,
    {
        assert(self.width * self.height <= 0xffff_ffff * 0xffff_ffff) by (nonlinear_arith)
            requires
                self.width <= 0xffff_ffff,
                self.height <= 0xffff_ffff,
        ;
        let pixels: u64 = (self.width as u64) * (self.height as u64);
        if pixels <= 0xffff_ffff {
            Some(pixels as u32)
        } else {
            None
        }
    }

    /// Whether the image has no pixels.
    #[verifier::when_used_as_spec(spec_is_empty)]
    pub fn is_empty(&self) -> (r: bool)
        ensures
            r == self.spec_is_empty(),
    {
        self.data.len() == 0
    }
}

impl PixelBuffer {
    /// Buffers that are turned down: no area, or fewer than three channels.
    pub open spec fn rejected(&self) -> bool {
        self.width <= 0 || self.height <= 0 || self.channel_count < 3
    }

    /// The data reaches to the end of the last pixel of the last row.
    pub open spec fn covers_pixels(&self) -> bool {
        (self.height - 1) * self.stride + self.width * self.channel_count <= self.data@.len()
    }

    /// Every pixel that a conversion reads lies inside the data.
    pub open spec fn wf(&self) -> bool {
        self.rejected() || self.covers_pixels()
    }

    /// Whether alpha is read from the buffer rather than made up.
    pub open spec fn carries_alpha(&self) -> bool {
        self.has_alpha && self.channel_count >= 4
    }

    /// Index of the first byte of pixel `(x, y)`.
    pub open spec fn offset(&self, x: int, y: int) -> int {
        y * self.stride + x * self.channel_count
    }

    /// The value of `channel` at pixel `(x, y)`; a buffer that carries no
    /// alpha is fully opaque.
    pub open spec fn sample(&self, x: int, y: int, channel: Channel) -> u8 {
        match channel {
            Channel::Alpha => if self.carries_alpha() {
                self.data@[self.offset(x, y) + 3]
            } else {
                255u8
            },
            _ => self.data@[self.offset(x, y) + channel.source_index()],
        }
    }

    /// Byte `i` of the packed image: channel `i % 4` of pixel `i / 4`, the
    /// pixels counted row by row.
    pub open spec fn packed_byte(&self, order: ChannelOrder, i: int) -> u8 {
        let pixel = i / 4;
        self.sample(
            pixel % (self.width as int),
            pixel / (self.width as int),
            order.channel_at(i % 4),
        )
    }

    /// The packed image in `order`: empty for a rejected buffer.
    pub open spec fn packed(&self, order: ChannelOrder) -> Seq<u8> {
        if self.rejected() {
            Seq::empty()
        } else {
            Seq::new(
                (4 * (self.width * self.height)) as nat,
                |i: int| self.packed_byte(order, i),
            )
        }
    }

    /// Whether the buffer is turned down.
    pub fn is_rejected(&self) -> (r: bool)
        ensures
            r == self.rejected(),
    {
        self.width <= 0 || self.height <= 0 || self.channel_count < 3
    }

    /// Whether [`convert`] may be called on the buffer.
    pub fn is_well_formed(&self) -> (r: bool)
        ensures
            r == self.wf(),
    {
        if self.is_rejected() {
            return true;
        }
        let rows: u128 = (self.height - 1) as u128;
        let stride: u128 = self.stride as u128;
        let width: u128 = self.width as u128;
        let channels: u128 = self.channel_count as u128;
        assert(rows * stride <= 0x8000_0000 * 0x1_0000_0000_0000_0000) by (nonlinear_arith)
            requires
                rows < 0x8000_0000,
                stride < 0x1_0000_0000_0000_0000,
        ;
        assert(width * channels <= 0x8000_0000 * 0x1_0000_0000_0000_0000) by (nonlinear_arith)
            requires
                width < 0x8000_0000,
                channels < 0x1_0000_0000_0000_0000,
        ;
        let needed: u128 = rows * stride + width * channels;
        needed <= self.data.len() as u128
    }
}

/// Repacks `buffer` into four bytes per pixel in `order`.
///
/// Rows are found by the stride, so padding between rows is skipped. Red,
/// green and blue are copied; alpha is copied where the buffer carries it and
/// is 255 otherwise. A rejected buffer gives the image without pixels.
pub fn convert(buffer: &PixelBuffer, order: ChannelOrder) -> (image: IconImage)
    requires
        buffer.wf(),
    ensures
        image.data@ == buffer.packed(order),
        buffer.rejected() ==> image.width == 0 && image.height == 0 && image.is_empty(),
        !buffer.rejected() ==> image.width == buffer.width && image.height == buffer.height,
        image.wf(),
{
    if buffer.is_rejected() {
        return IconImage::empty();
    }
    let width: usize = buffer.width as usize;
    let height: usize = buffer.height as usize;
    let stride: usize = buffer.stride;
    let channels: usize = buffer.channel_count;
    let with_alpha: bool = buffer.has_alpha && channels >= 4;
    let len: usize = buffer.data.len();
    let mut out: Vec<u8> = Vec::new();
    let mut y: usize = 0;
    while y < height
        invariant
            !buffer.rejected(),
            buffer.covers_pixels(),
            width == buffer.width,
            height == buffer.height,
            stride == buffer.stride,
            channels == buffer.channel_count,
            with_alpha == buffer.carries_alpha(),
            len == buffer.data@.len(),
            y <= height,
            out@.len() == 4 * (y * width),
            forall|i: int| 0 <= i < out@.len() ==> out@[i] == buffer.packed_byte(order, i),
        decreases height - y,
    {
        assert(y * stride <= (height - 1) * stride) by (nonlinear_arith)
            requires
                y <= height - 1,
                stride >= 0,
        ;
        assert(0 <= width * channels) by (nonlinear_arith)
            requires
                width >= 0,
                channels >= 0,
        ;
        let row: usize = y * stride;
        let mut x: usize = 0;
        while x < width
            invariant
                !buffer.rejected(),
                buffer.covers_pixels(),
                width == buffer.width,
                height == buffer.height,
                stride == buffer.stride,
                channels == buffer.channel_count,
                with_alpha == buffer.carries_alpha(),
                len == buffer.data@.len(),
                y < height,
                x <= width,
                row == y * stride,
                row <= (height - 1) * stride,
                out@.len() == 4 * (y * width + x),
                forall|i: int| 0 <= i < out@.len() ==> out@[i] == buffer.packed_byte(order, i),
            decreases width - x,
        {
            assert(x * channels + channels <= width * channels) by (nonlinear_arith)
                requires
                    x < width,
                    channels >= 0,
            ;
            let at: usize = row + x * channels;
            assert(at == buffer.offset(x as int, y as int));
            let red: u8 = buffer.data[at];
            let green: u8 = buffer.data[at + 1];
            let blue: u8 = buffer.data[at + 2];
            let alpha: u8 = if with_alpha {
                buffer.data[at + 3]
            } else {
                255
            };
            let ghost before = out@;
            match order {
                ChannelOrder::Argb => {
                    out.push(alpha);
                    out.push(red);
                    out.push(green);
                    out.push(blue);
                },
                ChannelOrder::Rgba => {
                    out.push(red);
                    out.push(green);
                    out.push(blue);
                    out.push(alpha);
                },
            }
            proof {
                let pixel = y * width + x;
                lemma_fundamental_div_mod_converse(pixel, width as int, y as int, x as int);
                assert forall|i: int| 0 <= i < out@.len() implies out@[i] == buffer.packed_byte(
                    order,
                    i,
                ) by {
                    if i < before.len() {
                        assert(out@[i] == before[i]);
                    } else {
                        assert(i / 4 == pixel);
                        assert(i % 4 == i - 4 * pixel);
                    }
                }
            }
            x = x + 1;
        }
        assert(y * width + width == (y + 1) * width) by (nonlinear_arith);
        y = y + 1;
    }
    assert(height * width == width * height) by (nonlinear_arith);
    IconImage { width: buffer.width as u32, height: buffer.height as u32, data: out }
}

/// Channel `channel` of pixel `(x, y)` is byte `position_of(channel)` of the
/// pixel's four bytes in the packed image, and the pixels follow each other row
/// by row without gaps.
pub proof fn packed_pixel_layout(
    buffer: PixelBuffer,
    order: ChannelOrder,
    x: int,
    y: int,
    channel: Channel,
)
    requires
        !buffer.rejected(),
        0 <= x < buffer.width,
        0 <= y < buffer.height,
    ensures
        0 <= 4 * (y * buffer.width + x) + order.position_of(channel) < buffer.packed(order).len(),
        buffer.packed(order)[4 * (y * buffer.width + x) + order.position_of(channel)]
            == buffer.sample(x, y, channel),
{
    let width = buffer.width as int;
    let height = buffer.height as int;
    let pixel = y * width + x;
    assert(0 <= pixel < width * height) by (nonlinear_arith)
        requires
            pixel == y * width + x,
            0 <= x < width,
            0 <= y < height,
    ;
    lemma_fundamental_div_mod_converse(pixel, width, y, x);
    let i = 4 * pixel + order.position_of(channel);
    assert(i / 4 == pixel);
    assert(i % 4 == order.position_of(channel));
    assert(order.channel_at(order.position_of(channel)) == channel);
}

/// A buffer of four channels with alpha is repacked without changing a value:
/// each of the four bytes of every source pixel, alpha included, is found
/// again in the packed pixel, at the place the target order gives its channel.
pub proof fn four_channel_bytes_only_move(
    buffer: PixelBuffer,
    order: ChannelOrder,
    x: int,
    y: int,
    channel: Channel,
)
    requires
        buffer.wf(),
        buffer.channel_count == 4,
        buffer.has_alpha,
        0 <= x < buffer.width,
        0 <= y < buffer.height,
    ensures
        0 <= buffer.offset(x, y) + channel.source_index() < buffer.data@.len(),
        buffer.packed(order)[4 * (y * buffer.width + x) + order.position_of(channel)]
            == buffer.data@[buffer.offset(x, y) + channel.source_index()],
{
    packed_pixel_layout(buffer, order, x, y, channel);
    let stride = buffer.stride as int;
    let height = buffer.height as int;
    assert(0 <= y * stride <= (height - 1) * stride) by (nonlinear_arith)
        requires
            0 <= y <= height - 1,
            stride >= 0,
    ;
}

/// Where the buffer declares no alpha, every pixel of the packed image is
/// fully opaque, whatever bytes the buffer holds.
pub proof fn missing_alpha_is_opaque(buffer: PixelBuffer, order: ChannelOrder, pixel: int)
    requires
        !buffer.has_alpha,
        0 <= pixel,
        4 * pixel + 3 < buffer.packed(order).len(),
    ensures
        buffer.packed(order)[4 * pixel + order.position_of(Channel::Alpha)] == 255,
{
    let i = 4 * pixel + order.position_of(Channel::Alpha);
    assert(i / 4 == pixel);
    assert(i % 4 == order.position_of(Channel::Alpha));
}

/// A buffer without area or with fewer than three channels packs to nothing.
pub proof fn rejected_buffer_packs_to_nothing(buffer: PixelBuffer, order: ChannelOrder)
    requires
        buffer.width <= 0 || buffer.height <= 0 || buffer.channel_count < 3,
    ensures
        buffer.packed(order).len() == 0,
{
}

} // verus!
