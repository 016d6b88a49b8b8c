//! The display adapter: turns the core's grid of on/off pixels into a buffer
//! of RGB bytes, and into rows of characters for a terminal.

use crate::machine::{grid_view, DISPLAY_HEIGHT, DISPLAY_WIDTH};
use vstd::prelude::*;

verus! {

/// Bytes per pixel in the buffer: red, green, blue.
pub const CHANNELS: usize = 3;

/// Bytes that one frame of the machine's display takes in the buffer: 64
/// columns by 32 rows by 3 channels.
pub const FRAME_BYTES: usize = 6144;

/// Intensity of a pixel that is on.
pub const LIT: u8 = 255;

/// The character shown for a pixel that is on: a full block.
pub const BLOCK: char = '\u{2588}';

/// The character shown for a pixel that is off.
pub const BLANK: char = ' ';

/// The intensity that stands for a pixel's state.
pub open spec fn intensity(on: bool) -> u8 {
    if on {
        LIT
    } else {
        0
    }
}

/// The buffer after a frame has been copied into it: byte `i` of the first
/// `FRAME_BYTES` belongs to pixel `i / 3`, counted row by row, and holds that
/// pixel's intensity in each of its three channels. Bytes beyond the frame
/// stay as they were.
pub open spec fn rendered(frame: Seq<Seq<bool>>, pixels: Seq<u8>) -> Seq<u8> {
    Seq::new(
        pixels.len(),
        |i: int|
            if i < FRAME_BYTES {
                intensity(
                    frame[(i / CHANNELS as int) / DISPLAY_WIDTH as int][(i / CHANNELS as int)
                        % DISPLAY_WIDTH as int],
                )
            } else {
                pixels[i]
            },
    )
}

/// Row `y` of the buffer as characters: a block where the pixel's first
/// channel is nonzero, a blank where it is zero.
pub open spec fn ascii_row(pixels: Seq<u8>, y: int) -> Seq<char> {
    Seq::new(
        DISPLAY_WIDTH as nat,
        |x: int|
            if pixels[(y * DISPLAY_WIDTH + x) * CHANNELS] > 0 {
                BLOCK
            } else {
                BLANK
            },
    )
}

/// A buffer of RGB bytes, three per pixel, row by row.
pub struct Display {
    /// Pixels per row that the buffer was made for.
    pub width: usize,
    /// Rows that the buffer was made for.
    pub height: usize,
    /// The bytes: red, green and blue of the first pixel, then of the next.
    pub pixels: Vec<u8>,
}

impl Display {
    /// A black buffer for `width` by `height` pixels. The buffer's length,
    /// `width * height * 3`, must be one that a vector can have.
    pub fn new(width: usize, height: usize) -> (display: Display)
        requires
            width * height * CHANNELS <= isize::MAX,
        ensures
            display.width == width,
            display.height == height,
            display.pixels@ == Seq::new((width * height * CHANNELS) as nat, |i: int| 0u8),
    {
        assert(width * height <= width * height * CHANNELS) by (nonlinear_arith);
        let pixels: Vec<u8> = vec![0; width * height * CHANNELS];
        assert(pixels@ =~= Seq::new((width * height * CHANNELS) as nat, |i: int| 0u8));
        Display { width, height, pixels }
    }

    /// Blackens the buffer.
    pub fn clear(&mut self)
        ensures
            final(self).width == old(self).width,
            final(self).height == old(self).height,
            final(self).pixels@ == Seq::new(old(self).pixels@.len(), |i: int| 0u8),
    {
        let mut i: usize = 0;
        while i < self.pixels.len()
            invariant
                i <= self.pixels.len(),
                self.width == old(self).width,
                self.height == old(self).height,
                self.pixels.len() == old(self).pixels.len(),
                forall|j: int| 0 <= j < i ==> self.pixels[j] == 0,
            decreases self.pixels.len() - i,
        {
            self.pixels[i] = 0;
            i += 1;
        }
        assert(self.pixels@ =~= Seq::new(old(self).pixels@.len(), |i: int| 0u8));
    }

    /// Copies a frame of the machine's display into the buffer: every pixel
    /// that is on becomes white, every pixel that is off black. The buffer
    /// must hold at least one frame.
    pub fn update_from_chip8(&mut self, chip8_display: &[[bool; DISPLAY_WIDTH]; DISPLAY_HEIGHT])
        requires
            old(self).pixels.len() >= FRAME_BYTES,
        ensures
            final(self).width == old(self).width,
            final(self).height == old(self).height,
            final(self).pixels@ == rendered(grid_view(*chip8_display), old(self).pixels@),
    {
        let ghost frame = grid_view(*chip8_display);
        let mut y: usize = 0;
        while y < DISPLAY_HEIGHT
            invariant
                y <= DISPLAY_HEIGHT,
                frame == grid_view(*chip8_display),
                self.width == old(self).width,
                self.height == old(self).height,
                self.pixels.len() == old(self).pixels.len(),
                self.pixels.len() >= FRAME_BYTES,
                forall|i: int|
                    0 <= i < self.pixels.len() ==> self.pixels[i] == if i < y * DISPLAY_WIDTH
                        * CHANNELS {
                        rendered(frame, old(self).pixels@)[i]
                    } else {
                        old(self).pixels[i]
                    },
            decreases DISPLAY_HEIGHT - y,
        {
            let mut x: usize = 0;
            while x < DISPLAY_WIDTH
                invariant
                    x <= DISPLAY_WIDTH,
                    y < DISPLAY_HEIGHT,
                    frame == grid_view(*chip8_display),
                    self.width == old(self).width,
                    self.height == old(self).height,
                    self.pixels.len() == old(self).pixels.len(),
                    self.pixels.len() >= FRAME_BYTES,
                    forall|i: int|
                        0 <= i < self.pixels.len() ==> self.pixels[i] == if i < (y * DISPLAY_WIDTH
                            + x) * CHANNELS {
                            rendered(frame, old(self).pixels@)[i]
                        } else {
                            old(self).pixels[i]
                        },
                decreases DISPLAY_WIDTH - x,
            {
                let pixel_index: usize = (y * DISPLAY_WIDTH + x) * CHANNELS;
                let color: u8 = if chip8_display[y][x] {
                    LIT
                } else {
                    0
                };
                self.pixels[pixel_index] = color;
                self.pixels[pixel_index + 1] = color;
                self.pixels[pixel_index + 2] = color;
                x += 1;
            }
            y += 1;
        }
        assert(self.pixels@ =~= rendered(frame, old(self).pixels@));
    }

    /// The frame in the buffer as 32 rows of 64 characters, for a terminal.
    /// The buffer must reach to the first channel of the last pixel.
    pub fn ascii_rows(&self) -> (rows: Vec<Vec<char>>)
        requires
            self.pixels.len() > FRAME_BYTES - CHANNELS,
        ensures
            rows.len() == DISPLAY_HEIGHT,
            forall|y: int|
                0 <= y < DISPLAY_HEIGHT ==> (#[trigger] rows[y])@ == ascii_row(self.pixels@, y),
    {
        let mut rows: Vec<Vec<char>> = Vec::new();
        let mut y: usize = 0;
        while y < DISPLAY_HEIGHT
            invariant
                y <= DISPLAY_HEIGHT,
                rows.len() == y,
                self.pixels.len() > FRAME_BYTES - CHANNELS,
                forall|k: int| 0 <= k < y ==> (#[trigger] rows[k])@ == ascii_row(self.pixels@, k),
            decreases DISPLAY_HEIGHT - y,
        {
            let mut row: Vec<char> = Vec::new();
            let mut x: usize = 0;
            while x < DISPLAY_WIDTH
                invariant
                    x <= DISPLAY_WIDTH,
                    y < DISPLAY_HEIGHT,
                    row.len() == x,
                    self.pixels.len() > FRAME_BYTES - CHANNELS,
                    forall|k: int| 0 <= k < x ==> row[k] == ascii_row(self.pixels@, y as int)[k],
                decreases DISPLAY_WIDTH - x,
            {
                let pixel_index: usize = (y * DISPLAY_WIDTH + x) * CHANNELS;
                let pixel: u8 = self.pixels[pixel_index];
                row.push(if pixel > 0 { BLOCK } else { BLANK });
                x += 1;
            }
            assert(row@ =~= ascii_row(self.pixels@, y as int));
            rows.push(row);
            y += 1;
        }
        rows
    }
}

} // verus!
