//! Pixel conversion: from a decoded frame of interleaved 8-bit red, green and
//! blue to the output surface's 32-bit words.

use vstd::prelude::*;
use crate::error::PlaybackError;

verus! {

/// A decoded video frame, scaled to the output size: `width` times `height`
/// pixels, row after row, three bytes each in the order red, green, blue.
#[derive(Debug)]
pub struct VideoFrame {
    pub width: u32,
    pub height: u32,
    pub data: Vec<u8>,
}

/// The surface word for a pixel: blue in the lowest byte, green in the next,
/// red in the third, and nothing in the fourth.
pub open spec fn rgb_word(red: u8, green: u8, blue: u8) -> u32 {
    (red * 0x1_0000 + green * 0x100 + blue) as u32
}

/// The number of pixels of a frame.
pub open spec fn pixel_count(frame: VideoFrame) -> nat {
    (frame.width * frame.height) as nat
}

/// The surface word for pixel `index` of a frame's data.
pub open spec fn pixel_word(data: Seq<u8>, index: int) -> u32 {
    rgb_word(data[3 * index], data[3 * index + 1], data[3 * index + 2])
}

/// What writing a frame to a surface comes to: a frame whose data is shorter
/// than three bytes per pixel is malformed, and a surface with fewer words
/// than the frame has pixels cannot take it.
pub open spec fn frame_fits(frame: VideoFrame, surface_len: nat) -> Result<(), PlaybackError> {
    if frame.data@.len() < 3 * pixel_count(frame) {
        Err(PlaybackError::MalformedFrame)
    } else if surface_len < pixel_count(frame) {
        Err(PlaybackError::SurfaceTooSmall)
    } else {
        Ok(())
    }
}

/// The place of byte `at` of row `row` in a buffer whose rows are `pitch`
/// bytes apart.
pub open spec fn byte_index(pitch: int, row: int, at: int) -> int {
    row * pitch + at
}

/// Whether a scaler's plane holds a whole picture: its rows, `stride` bytes
/// apart, are long enough for three bytes per pixel, and the last of them
/// ends within the plane.
pub open spec fn rows_fit(len: nat, width: u32, height: u32, stride: usize) -> bool {
    &&& 3 * width <= stride
    &&& height > 0 ==> (height - 1) * stride + 3 * width <= len
}

/// Whether `frame` is the picture in a scaler's plane `bytes` with the
/// padding at the end of each row left out: it has the plane's dimensions,
/// three bytes per pixel and no more, and byte `at` of its row `row` is byte
/// `at` of the plane's row `row`.
pub open spec fn is_tight_copy(
    frame: VideoFrame,
    bytes: Seq<u8>,
    width: u32,
    height: u32,
    stride: usize,
) -> bool {
    &&& frame.width == width
    &&& frame.height == height
    &&& frame.data@.len() == 3 * width * height
    &&& forall|row: int, at: int|
        0 <= row < height && 0 <= at < 3 * width ==> frame.data@[#[trigger] byte_index(
            3 * width,
            row,
            at,
        )] == bytes[byte_index(stride as int, row, at)]
}

/// Rows further down start further on: a byte of an earlier row comes before
/// every byte of a later one.
proof fn lemma_rows_in_order(pitch: int, earlier: int, at: int, later: int)
    by (nonlinear_arith)
    requires
        0 <= earlier < later,
        0 <= at < pitch,
    ensures
        0 <= byte_index(pitch, earlier, at) < later * pitch,
{
}

/// Packs three 8-bit channels into one surface word.
pub fn pack_rgb(red: u8, green: u8, blue: u8) -> (word: u32)
    ensures
        word == rgb_word(red, green, blue),
        word == red * 0x1_0000 + green * 0x100 + blue,
{
    let r: u32 = red as u32;
    let g: u32 = green as u32;
    let b: u32 = blue as u32;
    assert(b | (g << 8) | (r << 16) == r * 0x1_0000 + g * 0x100 + b) by (bit_vector)
        requires
            r < 256,
            g < 256,
            b < 256,
    ;
    b | (g << 8) | (r << 16)
}

/// Writes a frame's pixels to the front of the surface, one word per pixel in
/// the frame's order, and leaves the rest of the surface alone. A malformed
/// frame or a surface that is too small is refused, and the surface is then
/// not touched.
pub fn write_frame(frame: &VideoFrame, surface: &mut [u32]) -> (written: Result<
    (),
    PlaybackError,
>)
    ensures
        written == frame_fits(*frame, old(surface)@.len()),
        final(surface)@.len() == old(surface)@.len(),
        written is Err ==> final(surface)@ == old(surface)@,
        written is Ok ==> forall|i: int|
            0 <= i < pixel_count(*frame) ==> #[trigger] final(surface)@[i] == pixel_word(
                frame.data@,
                i,
            ),
        written is Ok ==> forall|i: int|
            pixel_count(*frame) <= i < old(surface)@.len() ==> #[trigger] final(surface)@[i]
                == old(surface)@[i],
{
    assert(frame.width * frame.height <= 0xffff_ffff * 0xffff_ffff) by (nonlinear_arith)
        requires
            frame.width <= 0xffff_ffff,
            frame.height <= 0xffff_ffff,
    ;
    let pixels: u64 = (frame.width as u64) * (frame.height as u64);
    if ((frame.data.len() / 3) as u64) < pixels {
        return Err(PlaybackError::MalformedFrame);
    }
    if (surface.len() as u64) < pixels {
        return Err(PlaybackError::SurfaceTooSmall);
    }
    let count: usize = pixels as usize;
    let mut next: usize = 0;
    while next < count
        invariant
            count == pixel_count(*frame),
            next <= count,
            3 * count <= frame.data@.len() <= usize::MAX,
            count <= surface@.len(),
            surface@.len() == old(surface)@.len(),
            forall|i: int| 0 <= i < next ==> #[trigger] surface@[i] == pixel_word(frame.data@, i),
            forall|i: int| next <= i < surface@.len() ==> #[trigger] surface@[i] == old(surface)@[i],
        decreases count - next,
    {
        let at: usize = 3 * next;
        let word = pack_rgb(frame.data[at], frame.data[at + 1], frame.data[at + 2]);
        surface[next] = word;
        next += 1;
    }
    Ok(())
}

/// Takes the picture out of a scaler's plane, whose rows may end in padding:
/// `height` rows of `width` pixels, each row starting `stride` bytes after
/// the one before. The frame that results holds the rows on end, three bytes
/// per pixel. A plane whose rows are too short for the width, or which ends
/// before its last row does, is malformed.
pub fn tight_rows(bytes: &[u8], width: u32, height: u32, stride: usize) -> (frame: Result<
    VideoFrame,
    PlaybackError,
>)
    ensures
        match frame {
            Ok(frame) => rows_fit(bytes@.len(), width, height, stride) && is_tight_copy(
                frame,
                bytes@,
                width,
                height,
                stride,
            ),
            Err(error) => !rows_fit(bytes@.len(), width, height, stride) && error
                == PlaybackError::MalformedFrame,
        },
{
    let wide: u64 = 3 * (width as u64);
    if wide > stride as u64 {
        return Err(PlaybackError::MalformedFrame);
    }
    let row_len: usize = wide as usize;
    let len: usize = bytes.len();
    if height > 0 {
        assert((height - 1) * stride <= 0xffff_ffff * 0xffff_ffff_ffff_ffff) by (nonlinear_arith)
            requires
                0 < height <= 0xffff_ffff,
                stride <= 0xffff_ffff_ffff_ffff,
        ;
        let last_row_ends: u128 = (height as u128 - 1) * (stride as u128) + (row_len as u128);
        if last_row_ends > len as u128 {
            return Err(PlaybackError::MalformedFrame);
        }
    }
    let mut data: Vec<u8> = Vec::new();
    let mut row: u32 = 0;
    let mut row_starts: usize = 0;
    while row < height
        invariant
            row <= height,
            row_len == 3 * width,
            row_len <= stride,
            rows_fit(bytes@.len(), width, height, stride),
            bytes@.len() <= usize::MAX,
            row < height ==> row_starts == row * stride,
            data@.len() == row * row_len,
            forall|r: int, at: int|
                0 <= r < row && 0 <= at < row_len ==> data@[#[trigger] byte_index(
                    row_len as int,
                    r,
                    at,
                )] == bytes@[byte_index(stride as int, r, at)],
        decreases height - row,
    {
        proof {
            assert(row * stride <= (height - 1) * stride) by (nonlinear_arith)
                requires
                    0 <= row <= height - 1,
                    stride >= 0,
            ;
        }
        let mut at: usize = 0;
        while at < row_len
            invariant
                row < height,
                at <= row_len,
                row_len == 3 * width,
                row_starts == row * stride,
                row_starts + row_len <= bytes@.len() <= usize::MAX,
                data@.len() == row * row_len + at,
                forall|r: int, a: int|
                    0 <= r < row && 0 <= a < row_len ==> data@[#[trigger] byte_index(
                        row_len as int,
                        r,
                        a,
                    )] == bytes@[byte_index(stride as int, r, a)],
                forall|a: int|
                    0 <= a < at ==> data@[#[trigger] byte_index(row_len as int, row as int, a)]
                        == bytes@[byte_index(stride as int, row as int, a)],
            decreases row_len - at,
        {
            let ghost before = data@;
            data.push(bytes[row_starts + at]);
            proof {
                assert forall|r: int, a: int| 0 <= r < row && 0 <= a < row_len implies data@[#[trigger] byte_index(
                    row_len as int,
                    r,
                    a,
                )] == bytes@[byte_index(stride as int, r, a)] by {
                    lemma_rows_in_order(row_len as int, r, a, row as int);
                    assert(data@[byte_index(row_len as int, r, a)] == before[byte_index(
                        row_len as int,
                        r,
                        a,
                    )]);
                }
                assert forall|a: int| 0 <= a < at + 1 implies data@[#[trigger] byte_index(
                    row_len as int,
                    row as int,
                    a,
                )] == bytes@[byte_index(stride as int, row as int, a)] by {
                    if a < at {
                        assert(data@[byte_index(row_len as int, row as int, a)] == before[byte_index(
                            row_len as int,
                            row as int,
                            a,
                        )]);
                    }
                }
            }
            at += 1;
        }
        proof {
            assert((row + 1) * row_len == row * row_len + row_len) by (nonlinear_arith);
            assert((row + 1) * stride == row * stride + stride) by (nonlinear_arith);
            if row + 1 < height {
                assert((row + 1) * stride <= (height - 1) * stride) by (nonlinear_arith)
                    requires
                        0 <= row + 1 <= height - 1,
                        stride >= 0,
                ;
            }
        }
        row += 1;
        if row < height {
            row_starts = row_starts + stride;
        }
    }
    assert(data@.len() == 3 * width * height) by (nonlinear_arith)
        requires
            data@.len() == row * row_len,
            row == height,
            row_len == 3 * width,
    ;
    Ok(VideoFrame { width, height, data })
}

} // verus!
