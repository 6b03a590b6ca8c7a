//! The picture: the video memory of the board turned into a frame of RGBA pixels.
//!
//! The video memory holds one bit for each pixel, and the monitor stands on its side
//! in the cabinet: a column of the picture, read from the bottom up, is 32 bytes of
//! video memory in a row.

use vstd::prelude::*;

verus! {

/// The columns of the picture.
pub const WIDTH: usize = 224;

/// The rows of the picture.
pub const HEIGHT: usize = 256;

/// The bytes of video memory for one picture.
pub const VIDEO_BYTES: usize = 7168;

/// The bytes of one frame: four for each pixel.
pub const FRAME_BYTES: usize = 229376;

/// The colour of a pixel that is not lit.
pub const BLACK: [u8; 4] = [0, 0, 0, 255];

/// The colour of the overlay over the lower part of the screen.
pub const GREEN: [u8; 4] = [0, 255, 0, 255];

/// The colour of the overlay near the top of the screen.
pub const RED: [u8; 4] = [255, 0, 0, 255];

/// The colour of a lit pixel under no overlay.
pub const WHITE: [u8; 4] = [255, 255, 255, 255];

/// The colour of the plastic strip that lies over the screen at column `x`, where
/// `base` is the height above the bottom of the screen, rounded down to a multiple of
/// eight: green for the two lowest bands between columns 20 and 120, green for the
/// bands from 16 to 63, red for the bands from 200 to 220, white elsewhere.
pub open spec fn overlay(x: int, base: int) -> [u8; 4] {
    if base <= 63 && (base >= 15 || (base <= 15 && 20 <= x <= 120)) {
        GREEN
    } else if 200 <= base <= 220 {
        RED
    } else {
        WHITE
    }
}

/// The colour of the pixel at column `x` and row `row` of the picture, both counted
/// from the top left. The pixel stands `255 - row` above the bottom of its column; it
/// is lit if its bit in the video memory is set, and then has the colour of the
/// overlay.
pub open spec fn pixel(video: Seq<u8>, x: int, row: int) -> [u8; 4] {
    let height: int = HEIGHT - 1 - row;
    let byte: u8 = video[x * 32 + height / 8];
    if (byte >> ((height % 8) as u8)) & 1 == 0 {
        BLACK
    } else {
        overlay(x, (height / 8) * 8)
    }
}

/// Whether `frame` shows the picture that `video` holds.
pub open spec fn shows(frame: Seq<u8>, video: Seq<u8>) -> bool {
    &&& frame.len() == FRAME_BYTES
    &&& forall|x: int, row: int, channel: int|
        0 <= x < WIDTH && 0 <= row < HEIGHT && 0 <= channel < 4 ==> #[trigger] frame[4 * (row
            * WIDTH + x) + channel] == pixel(video, x, row)@[channel]
}

/// The colour of the overlay.
pub fn overlay_colour(x: usize, base: usize) -> (colour: [u8; 4])
    ensures
        colour == overlay(x as int, base as int),
{
    if base <= 63 && (base >= 15 || (base <= 15 && x >= 20 && x <= 120)) {
        GREEN
    } else if base >= 200 && base <= 220 {
        RED
    } else {
        WHITE
    }
}

/// Writes the four bytes of one pixel.
fn put(frame: &mut [u8], index: usize, colour: [u8; 4])
    requires
        old(frame)@.len() == FRAME_BYTES,
        index < WIDTH * HEIGHT,
    ensures
        final(frame)@.len() == FRAME_BYTES,
        forall|k: int|
            0 <= k < FRAME_BYTES ==> final(frame)@[k] == if 4 * index <= k < 4 * index + 4 {
                colour@[k - 4 * index]
            } else {
                old(frame)@[k]
            },
{
    frame[4 * index] = colour[0];
    frame[4 * index + 1] = colour[1];
    frame[4 * index + 2] = colour[2];
    frame[4 * index + 3] = colour[3];
}

/// Draws the picture that `video` holds into `frame`, four bytes for each pixel, row
/// by row from the top. Nothing is drawn, and `false` returned, unless `video` has
/// `VIDEO_BYTES` bytes and `frame` has `FRAME_BYTES`.
pub fn render(video: &[u8], frame: &mut [u8]) -> (drawn: bool)
    ensures
        drawn == (video@.len() == VIDEO_BYTES && old(frame)@.len() == FRAME_BYTES),
        drawn ==> shows(final(frame)@, video@),
        !drawn ==> final(frame)@ == old(frame)@,
{
    if video.len() != VIDEO_BYTES || frame.len() != FRAME_BYTES {
        return false;
    }
    let mut i: usize = 0;
    let mut x: usize = 0;
    while x < WIDTH
        invariant
            x <= WIDTH,
            i == x * 32,
            video@.len() == VIDEO_BYTES,
            frame@.len() == FRAME_BYTES,
            forall|c: int, row: int, channel: int|
                0 <= c < x && 0 <= row < HEIGHT && 0 <= channel < 4 ==> #[trigger] frame@[4 * (row
                    * WIDTH + c) + channel] == pixel(video@, c, row)@[channel],
        decreases WIDTH - x,
    {
        let mut y: usize = 0;
        while y < HEIGHT
            invariant
                x < WIDTH,
                y <= HEIGHT,
                y % 8 == 0,
                i == x * 32 + y / 8,
                video@.len() == VIDEO_BYTES,
                frame@.len() == FRAME_BYTES,
                forall|c: int, row: int, channel: int|
                    0 <= c < x && 0 <= row < HEIGHT && 0 <= channel < 4 ==> #[trigger] frame@[4
                        * (row * WIDTH + c) + channel] == pixel(video@, c, row)@[channel],
                forall|row: int, channel: int|
                    HEIGHT - y <= row < HEIGHT && 0 <= channel < 4 ==> #[trigger] frame@[4 * (row
                        * WIDTH + x) + channel] == pixel(video@, x as int, row)@[channel],
            decreases HEIGHT - y,
        {
            let byte: u8 = video[i];
            i += 1;
            let mut shift: usize = 0;
            while shift < 8
                invariant
                    x < WIDTH,
                    y < HEIGHT,
                    y % 8 == 0,
                    shift <= 8,
                    byte == video@[x * 32 + y / 8],
                    video@.len() == VIDEO_BYTES,
                    frame@.len() == FRAME_BYTES,
                    forall|c: int, row: int, channel: int|
                        0 <= c < x && 0 <= row < HEIGHT && 0 <= channel < 4 ==> #[trigger] frame@[4
                            * (row * WIDTH + c) + channel] == pixel(video@, c, row)@[channel],
                    forall|row: int, channel: int|
                        HEIGHT - y - shift <= row < HEIGHT && 0 <= channel < 4
                            ==> #[trigger] frame@[4 * (row * WIDTH + x) + channel] == pixel(
                            video@,
                            x as int,
                            row,
                        )@[channel],
                decreases 8 - shift,
            {
                let result: [u8; 4] = if (byte >> (shift as u8)) & 1 == 0 {
                    BLACK
                } else {
                    overlay_colour(x, y)
                };
                let row: usize = HEIGHT - 1 - y - shift;
                let ghost before: Seq<u8> = frame@;
                put(frame, row * WIDTH + x, result);
                proof {
                    assert((HEIGHT - 1 - row) / 8 == y / 8);
                    assert((HEIGHT - 1 - row) % 8 == shift);
                    assert(result == pixel(video@, x as int, row as int));
                    assert forall|c: int, r: int, channel: int|
                        0 <= c < WIDTH && 0 <= r < HEIGHT && 0 <= channel < 4 && (c != x || r
                            != row) implies #[trigger] frame@[4 * (r * WIDTH + c) + channel]
                        == before[4 * (r * WIDTH + c) + channel] by {
                        lemma_pixels_apart(c, r, x as int, row as int);
                    }
                }
                shift += 1;
            }
            y += 8;
        }
        x += 1;
    }
    true
}

/// Two different pixels have their bytes apart.
proof fn lemma_pixels_apart(x1: int, row1: int, x2: int, row2: int)
    requires
        0 <= x1 < WIDTH,
        0 <= x2 < WIDTH,
        0 <= row1 < HEIGHT,
        0 <= row2 < HEIGHT,
        x1 != x2 || row1 != row2,
    ensures
        row1 * WIDTH + x1 != row2 * WIDTH + x2,
        0 <= row1 * WIDTH + x1 < WIDTH * HEIGHT,
{
}

} // verus!
