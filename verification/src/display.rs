//! From video memory to the picture. Video memory holds the picture on its
//! side: each run of 32 bytes is one column of the upright picture, each
//! byte a strip of eight pixels of that column, bit 0 lowest on the
//! screen.

use vstd::prelude::*;
use crate::memory::VIDEO_RAM_SIZE;
use crate::state::EmulatorState;

verus! {

/// The width of the upright picture in pixels.
pub const WIDTH: usize = 224;

/// The height of the upright picture in pixels.
pub const HEIGHT: usize = 256;

/// The bytes of video memory that make one column of the picture.
pub const BYTES_PER_COLUMN: usize = 32;

/// The side, in screen units, of the square drawn for one pixel.
pub const PIXEL_SIZE: u32 = 2;

/// The colours of the picture: a dark background, and three tints that
/// stand for the coloured strips glued on the cabinet's screen.
#[derive(Clone, Copy, PartialEq, Eq, Debug, Structural)]
pub enum Color {
    Black,
    White,
    Red,
    Green,
}

/// One pixel of the upright picture.
#[derive(Clone, Copy, PartialEq, Eq, Debug, Structural)]
pub struct Pixel {
    /// The column, 0 at the left.
    pub x: usize,
    /// The row, 0 at the top.
    pub y: usize,
    /// The colour.
    pub color: Color,
}

/// The square drawn for one pixel: the corner nearest the top left of the
/// screen, and the side.
#[derive(Clone, Copy, PartialEq, Eq, Debug, Structural)]
pub struct Square {
    pub x: i32,
    pub y: i32,
    pub side: u32,
}

/// The tint of the strip of eight pixels that starts `height` pixels above
/// the bottom of the picture: red for the strips that start above 200 and
/// below 220, green for those that start below 80, white elsewhere.
pub open spec fn tint(height: int) -> Color {
    if 200 < height < 220 {
        Color::Red
    } else if height < 80 {
        Color::Green
    } else {
        Color::White
    }
}

/// The pixel that bit `bit` of byte `index` of video memory stands for,
/// when the byte holds `byte`. The byte's column is `index / 32`; its
/// strip starts `8 * (index % 32)` pixels above the bottom of the picture
/// and bit 0 is the lowest pixel of the strip. A clear bit is black, a set
/// bit has the tint of its strip.
pub open spec fn pixel_of(index: int, bit: int, byte: u8) -> Pixel {
    let height = 8 * (index % 32);
    Pixel {
        x: (index / 32) as usize,
        y: (255 - (height + bit)) as usize,
        color: if (byte as int / vstd::arithmetic::power2::pow2(bit as nat) as int) % 2 == 1 {
            tint(height)
        } else {
            Color::Black
        },
    }
}

/// The picture that video memory `video` stands for: eight pixels for each
/// byte, in the order of the bytes and, within a byte, of the bits.
pub open spec fn picture_of(video: Seq<u8>) -> Seq<Pixel> {
    Seq::new(8 * video.len(), |i: int| pixel_of(i / 8, i % 8, video[i / 8]))
}

/// The tint of the strip that starts `height` pixels above the bottom.
pub fn tint_at(height: usize) -> (r: Color)
    ensures
        r == tint(height as int),
{
    if height > 200 && height < 220 {
        Color::Red
    } else if height < 80 {
        Color::Green
    } else {
        Color::White
    }
}

/// The pixel that bit `bit` of byte `index` of video memory stands for.
pub fn pixel(index: usize, bit: u8, byte: u8) -> (r: Pixel)
    requires
        index < VIDEO_RAM_SIZE,
        bit < 8,
    ensures
        r == pixel_of(index as int, bit as int, byte),
        r.x < WIDTH,
        r.y < HEIGHT,
{
    let height: usize = 8 * (index % BYTES_PER_COLUMN);
    proof {
        vstd::arithmetic::power2::lemma2_to64();
    }
    assert(bit < 8 ==> (((byte >> bit) & 1 == 1) == (if bit == 0 {
        (byte / 1) % 2 == 1
    } else if bit == 1 {
        (byte / 2) % 2 == 1
    } else if bit == 2 {
        (byte / 4) % 2 == 1
    } else if bit == 3 {
        (byte / 8) % 2 == 1
    } else if bit == 4 {
        (byte / 16) % 2 == 1
    } else if bit == 5 {
        (byte / 32) % 2 == 1
    } else if bit == 6 {
        (byte / 64) % 2 == 1
    } else {
        (byte / 128) % 2 == 1
    }))) by (bit_vector);
    let lit = (byte >> bit) & 1 == 1;
    Pixel {
        x: index / BYTES_PER_COLUMN,
        y: HEIGHT - 1 - (height + bit as usize),
        color: if lit {
            tint_at(height)
        } else {
            Color::Black
        },
    }
}

/// The square to draw for a pixel.
pub fn square(p: Pixel) -> (r: Square)
    requires
        p.x < WIDTH,
        p.y < HEIGHT,
    ensures
        r.x == p.x * PIXEL_SIZE,
        r.y == p.y * PIXEL_SIZE,
        r.side == PIXEL_SIZE,
{
    let scale = PIXEL_SIZE as i32;
    Square { x: (p.x as i32) * scale, y: (p.y as i32) * scale, side: PIXEL_SIZE }
}

/// The video memory of a state, byte by byte.
pub open spec fn video_of(state: EmulatorState) -> Seq<u8> {
    Seq::new(VIDEO_RAM_SIZE as nat, |i: int| state@.bus.video_byte(i))
}

/// The whole picture that the state's video memory stands for.
pub fn render(state: &EmulatorState) -> (r: Vec<Pixel>)
    ensures
        r@ == picture_of(video_of(*state)),
{
    let mut pixels: Vec<Pixel> = Vec::new();
    let mut index: usize = 0;
    while index < VIDEO_RAM_SIZE
        invariant
            index <= VIDEO_RAM_SIZE,
            pixels@.len() == 8 * index,
            forall|i: int|
                0 <= i < 8 * index ==> pixels@[i] == pixel_of(
                    i / 8,
                    i % 8,
                    #[trigger] video_of(*state)[i / 8],
                ),
        decreases VIDEO_RAM_SIZE - index,
    {
        let byte = state.framebuffer_byte(index);
        let mut bit: u8 = 0;
        while bit < 8
            invariant
                index < VIDEO_RAM_SIZE,
                bit <= 8,
                byte == video_of(*state)[index as int],
                pixels@.len() == 8 * index + bit,
                forall|i: int|
                    0 <= i < 8 * index + bit ==> pixels@[i] == pixel_of(
                        i / 8,
                        i % 8,
                        #[trigger] video_of(*state)[i / 8],
                    ),
            decreases 8 - bit,
        {
            pixels.push(pixel(index, bit, byte));
            bit = bit + 1;
        }
        index = index + 1;
    }
    assert(pixels@ =~= picture_of(video_of(*state)));
    pixels
}

/// Every pixel of the picture is a bit of video memory: the pixel in
/// column `x` and row `y` is bit `(255 - y) % 8` of byte
/// `32 * x + (255 - y) / 8`.
pub proof fn lemma_pixel_is_covered(x: int, y: int, byte: u8)
    requires
        0 <= x < WIDTH,
        0 <= y < HEIGHT,
    ensures
        ({
            let index = 32 * x + (255 - y) / 8;
            let bit = (255 - y) % 8;
            &&& 0 <= index < VIDEO_RAM_SIZE
            &&& 0 <= bit < 8
            &&& pixel_of(index, bit, byte).x == x
            &&& pixel_of(index, bit, byte).y == y
        }),
{
}

/// No two bits of video memory are the same pixel.
pub proof fn lemma_pixels_are_distinct(
    index: int,
    bit: int,
    byte: u8,
    other_index: int,
    other_bit: int,
    other_byte: u8,
)
    requires
        0 <= index < VIDEO_RAM_SIZE,
        0 <= other_index < VIDEO_RAM_SIZE,
        0 <= bit < 8,
        0 <= other_bit < 8,
        pixel_of(index, bit, byte).x == pixel_of(other_index, other_bit, other_byte).x,
        pixel_of(index, bit, byte).y == pixel_of(other_index, other_bit, other_byte).y,
    ensures
        index == other_index,
        bit == other_bit,
{
}

} // verus!
