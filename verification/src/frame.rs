//! The per-frame transform pipeline: crops a raw pixel buffer to a
//! rectangle, copies it into a fresh buffer with no row padding, and stamps
//! the result with a capture timestamp.

use vstd::prelude::*;
use crate::CaptureError;
use crate::geometry::Rect;

verus! {

/// A normalized output frame: a fixed 32-bit-per-pixel interleaved layout,
/// no row padding, and a capture timestamp in nanoseconds used only for
/// relative ordering.
#[derive(Clone, Debug, PartialEq, Eq)]
pub struct NormalizedFrame {
    pub display_time: u64,
    pub width: u32,
    pub height: u32,
    pub data: Vec<u8>,
}

impl NormalizedFrame {
    /// The buffer holds exactly four bytes per pixel.
    pub open spec fn wf(self) -> bool {
        self.data.len() == self.width * self.height * 4
    }
}

/// Whether a buffer has exactly the size of a `w` by `h` frame at four
/// bytes per pixel.
pub open spec fn buffer_matches(data: Seq<u8>, w: int, h: int) -> bool {
    data.len() == w * h * 4
}

/// Whether a crop rectangle lies entirely inside a `w` by `h` frame.
pub open spec fn crop_fits(c: Rect, w: int, h: int) -> bool {
    &&& c.origin.x + c.size.width <= w
    &&& c.origin.y + c.size.height <= h
}

/// The bytes of row `y` of a `fw`-pixel-wide frame, restricted to the
/// pixel columns `sx` (inclusive) to `ex` (exclusive).
pub open spec fn row_bytes(data: Seq<u8>, fw: int, y: int, sx: int, ex: int) -> Seq<u8> {
    data.subrange((y * fw + sx) * 4, (y * fw + ex) * 4)
}

/// The first `rows` cropped rows, starting at row `sy`, concatenated in
/// row order.
pub open spec fn cropped_bytes_up_to(
    data: Seq<u8>,
    fw: int,
    sx: int,
    ex: int,
    sy: int,
    rows: int,
) -> Seq<u8>
    decreases rows,
{
    if rows <= 0 {
        Seq::empty()
    } else {
        cropped_bytes_up_to(data, fw, sx, ex, sy, rows - 1) + row_bytes(
            data,
            fw,
            sy + rows - 1,
            sx,
            ex,
        )
    }
}

/// The padding-free bytes of the sub-rectangle with pixel columns
/// `sx..ex` and rows `sy..ey` of a `fw`-pixel-wide frame.
pub open spec fn cropped_bytes(data: Seq<u8>, fw: int, sx: int, sy: int, ex: int, ey: int) -> Seq<
    u8,
> {
    cropped_bytes_up_to(data, fw, sx, ex, sy, ey - sy)
}

/// The cropped buffer holds exactly four bytes per retained pixel.
pub proof fn lemma_cropped_bytes_len(
    data: Seq<u8>,
    fw: int,
    sx: int,
    ex: int,
    sy: int,
    rows: int,
)
    requires
        0 <= sx <= ex <= fw,
        0 <= sy,
        0 <= rows,
        (sy + rows) * fw * 4 <= data.len(),
    ensures
        cropped_bytes_up_to(data, fw, sx, ex, sy, rows).len() == rows * (ex - sx) * 4,
    decreases rows,
{
    if rows > 0 {
        let y = sy + rows - 1;
        assert((sy + rows - 1) * fw * 4 <= (sy + rows) * fw * 4) by (nonlinear_arith)
            requires
                0 <= fw,
        ;
        lemma_cropped_bytes_len(data, fw, sx, ex, sy, rows - 1);
        assert(0 <= y * fw) by (nonlinear_arith)
            requires
                0 <= y,
                0 <= fw,
        ;
        assert((y * fw + ex) * 4 <= (sy + rows) * fw * 4) by (nonlinear_arith)
            requires
                ex <= fw,
                y + 1 == sy + rows,
                0 <= fw,
        ;
        assert(cropped_bytes_up_to(data, fw, sx, ex, sy, rows) == cropped_bytes_up_to(
            data,
            fw,
            sx,
            ex,
            sy,
            rows - 1,
        ) + row_bytes(data, fw, y, sx, ex));
        assert(row_bytes(data, fw, y, sx, ex).len() == (ex - sx) * 4);
        assert((cropped_bytes_up_to(data, fw, sx, ex, sy, rows - 1) + row_bytes(
            data,
            fw,
            y,
            sx,
            ex,
        )).len() == cropped_bytes_up_to(data, fw, sx, ex, sy, rows - 1).len() + row_bytes(
            data,
            fw,
            y,
            sx,
            ex,
        ).len());
        assert(rows * (ex - sx) * 4 == (rows - 1) * (ex - sx) * 4 + (ex - sx) * 4)
            by (nonlinear_arith);
        assert(cropped_bytes_up_to(data, fw, sx, ex, sy, rows).len() == rows * (ex - sx) * 4);
    } else {
        assert(rows == 0);
        assert(cropped_bytes_up_to(data, fw, sx, ex, sy, rows) == Seq::<u8>::empty());
        assert(cropped_bytes_up_to(data, fw, sx, ex, sy, rows).len() == rows * (ex - sx) * 4);
    }
}

/// A full-width crop of the first `rows` rows is exactly the corresponding
/// prefix of the buffer.
proof fn lemma_full_rows_prefix(data: Seq<u8>, fw: int, rows: int)
    requires
        0 <= fw,
        0 <= rows,
        rows * fw * 4 <= data.len(),
    ensures
        cropped_bytes_up_to(data, fw, 0, fw, 0, rows) == data.subrange(0, rows * fw * 4),
    decreases rows,
{
    if rows <= 0 {
        assert(rows * fw * 4 == 0) by (nonlinear_arith)
            requires
                rows == 0,
        ;
        assert(data.subrange(0, 0) =~= Seq::<u8>::empty());
        assert(cropped_bytes_up_to(data, fw, 0, fw, 0, rows) == data.subrange(0, rows * fw * 4));
    } else {
        assert((rows - 1) * fw * 4 <= rows * fw * 4) by (nonlinear_arith)
            requires
                0 <= fw,
        ;
        assert(0 <= (rows - 1) * fw * 4) by (nonlinear_arith)
            requires
                0 < rows,
                0 <= fw,
        ;
        lemma_full_rows_prefix(data, fw, rows - 1);
        assert(((rows - 1) * fw + fw) * 4 == rows * fw * 4) by (nonlinear_arith);
        assert(((rows - 1) * fw) * 4 == (rows - 1) * fw * 4) by (nonlinear_arith);
        assert(cropped_bytes_up_to(data, fw, 0, fw, 0, rows) == cropped_bytes_up_to(
            data,
            fw,
            0,
            fw,
            0,
            rows - 1,
        ) + row_bytes(data, fw, rows - 1, 0, fw));
        assert(row_bytes(data, fw, rows - 1, 0, fw) == data.subrange(
            (rows - 1) * fw * 4,
            rows * fw * 4,
        ));
        assert(data.subrange(0, rows * fw * 4) =~= data.subrange(0, (rows - 1) * fw * 4)
            + data.subrange((rows - 1) * fw * 4, rows * fw * 4));
        assert(cropped_bytes_up_to(data, fw, 0, fw, 0, rows) == data.subrange(
            0,
            (rows - 1) * fw * 4,
        ) + data.subrange((rows - 1) * fw * 4, rows * fw * 4));
        assert(cropped_bytes_up_to(data, fw, 0, fw, 0, rows) == data.subrange(0, rows * fw * 4));
    }
}

/// Round-trip law: cropping with a rectangle that covers the whole frame
/// keeps every byte, so the cropped transform and the full-buffer
/// transform produce bit-identical pixel data.
pub proof fn lemma_full_crop_identity(data: Seq<u8>, fw: int, fh: int)
    requires
        0 <= fw,
        0 <= fh,
        data.len() == fw * fh * 4,
    ensures
        cropped_bytes(data, fw, 0, 0, fw, fh) == data,
{
    assert(fh * fw * 4 == fw * fh * 4) by (nonlinear_arith);
    lemma_full_rows_prefix(data, fw, fh);
    assert(data.subrange(0, fh * fw * 4) =~= data);
}

/// Copies the pixels of the rectangle with columns `sx..ex` and rows
/// `sy..ey` out of a `fw` by `fh` frame buffer into a fresh, padding-free
/// buffer.
fn crop_buffer(data: &Vec<u8>, fw: u32, fh: u32, sx: u32, sy: u32, ex: u32, ey: u32) -> (out: Vec<
    u8,
>)
    requires
        sx <= ex <= fw,
        sy <= ey <= fh,
        data.len() == fw * fh * 4,
    ensures
        out@ == cropped_bytes(data@, fw as int, sx as int, sy as int, ex as int, ey as int),
{
    let mut out: Vec<u8> = Vec::new();
    let mut y: u32 = sy;
    assert(out@ =~= cropped_bytes_up_to(data@, fw as int, sx as int, ex as int, sy as int, 0));
    while y < ey
        invariant
            sy <= y <= ey,
            sx <= ex <= fw,
            sy <= ey <= fh,
            data.len() == fw * fh * 4,
            out@ == cropped_bytes_up_to(
                data@,
                fw as int,
                sx as int,
                ex as int,
                sy as int,
                y - sy,
            ),
        decreases ey - y,
    {
        proof {
            assert(0 <= (y as int) * (fw as int) && ((y as int) * (fw as int) + ex as int) * 4
                <= (fw as int) * (fh as int) * 4) by (nonlinear_arith)
                requires
                    0 <= y as int,
                    (y as int) < fh as int,
                    ex as int <= fw as int,
                    0 <= fw as int,
            ;
        }
        let row_start: u64 = ((y as u64) * (fw as u64) + (sx as u64)) * 4;
        let row_end: u64 = ((y as u64) * (fw as u64) + (ex as u64)) * 4;
        let ghost prefix = out@;
        let mut i: u64 = row_start;
        assert(data@.subrange(row_start as int, row_start as int) =~= Seq::<u8>::empty());
        assert(prefix + Seq::<u8>::empty() =~= prefix);
        while i < row_end
            invariant
                row_start <= i <= row_end,
                row_end <= data.len(),
                out@ == prefix + data@.subrange(row_start as int, i as int),
            decreases row_end - i,
        {
            let b: u8 = data[i as usize];
            out.push(b);
            assert(data@.subrange(row_start as int, i + 1) =~= data@.subrange(
                row_start as int,
                i as int,
            ).push(b));
            assert(prefix + data@.subrange(row_start as int, i as int).push(b) =~= (prefix
                + data@.subrange(row_start as int, i as int)).push(b));
            i = i + 1;
        }
        y = y + 1;
        assert(out@ =~= cropped_bytes_up_to(
            data@,
            fw as int,
            sx as int,
            ex as int,
            sy as int,
            y - sy,
        ));
    }
    out
}

/// Transforms one raw frame into a normalized frame: validates the buffer
/// size, crops to the requested rectangle (or keeps the full frame),
/// copies the pixels into a fresh padding-free buffer, and stamps the
/// given capture timestamp. A buffer of the wrong size or a crop
/// rectangle outside the frame yields `CaptureError::BufferExtraction`.
pub fn transform_frame(
    frame_width: u32,
    frame_height: u32,
    data: &Vec<u8>,
    crop: Option<Rect>,
    display_time: u64,
) -> (r: Result<NormalizedFrame, CaptureError>)
    ensures
        (match crop {
            None => if buffer_matches(data@, frame_width as int, frame_height as int) {
                r matches Ok(f) && f.display_time == display_time && f.width == frame_width
                    && f.height == frame_height && f.data@ == data@
            } else {
                r == Err::<NormalizedFrame, CaptureError>(CaptureError::BufferExtraction)
            },
            Some(c) => if buffer_matches(data@, frame_width as int, frame_height as int)
                && crop_fits(c, frame_width as int, frame_height as int) {
                r matches Ok(f) && f.display_time == display_time && f.width == c.size.width
                    && f.height == c.size.height && f.data@ == cropped_bytes(
                    data@,
                    frame_width as int,
                    c.origin.x as int,
                    c.origin.y as int,
                    c.origin.x + c.size.width,
                    c.origin.y + c.size.height,
                )
            } else {
                r == Err::<NormalizedFrame, CaptureError>(CaptureError::BufferExtraction)
            },
        }),
        r matches Ok(f) ==> f.wf(),
{
    let fw64: u64 = frame_width as u64;
    let fh64: u64 = frame_height as u64;
    proof {
        assert(fw64 * fh64 <= 0xffff_ffffu64 * 0xffff_ffffu64) by (nonlinear_arith)
            requires
                fw64 <= 0xffff_ffffu64,
                fh64 <= 0xffff_ffffu64,
        ;
    }
    let pixels: u64 = fw64 * fh64;
    if pixels > u64::MAX / 4 {
        proof {
            assert(data.len() <= usize::MAX);
            assert(data@.len() == data.len());
            assert(usize::MAX <= u64::MAX);
        }
        return Err(CaptureError::BufferExtraction);
    }
    let expected: u64 = pixels * 4;
    proof {
        assert(data.len() <= usize::MAX);
        assert(data@.len() == data.len());
        assert(usize::MAX <= u64::MAX);
    }
    if data.len() as u64 != expected {
        return Err(CaptureError::BufferExtraction);
    }
    match crop {
        None => {
            let out = crop_buffer(data, frame_width, frame_height, 0, 0, frame_width, frame_height);
            proof {
                lemma_full_crop_identity(data@, frame_width as int, frame_height as int);
            }
            Ok(NormalizedFrame { display_time, width: frame_width, height: frame_height, data: out })
        },
        Some(c) => {
            let ex64: u64 = c.origin.x as u64 + c.size.width as u64;
            let ey64: u64 = c.origin.y as u64 + c.size.height as u64;
            if ex64 > fw64 || ey64 > fh64 {
                return Err(CaptureError::BufferExtraction);
            }
            let ex: u32 = ex64 as u32;
            let ey: u32 = ey64 as u32;
            let out = crop_buffer(data, frame_width, frame_height, c.origin.x, c.origin.y, ex, ey);
            proof {
                assert((c.origin.y + c.size.height) * frame_width * 4 <= frame_width
                    * frame_height * 4) by (nonlinear_arith)
                    requires
                        c.origin.y + c.size.height <= frame_height as int,
                        0 <= frame_width as int,
                ;
                lemma_cropped_bytes_len(
                    data@,
                    frame_width as int,
                    c.origin.x as int,
                    c.origin.x + c.size.width,
                    c.origin.y as int,
                    c.size.height as int,
                );
                assert(c.size.height * c.size.width * 4 == c.size.width * c.size.height * 4)
                    by (nonlinear_arith);
            }
            Ok(NormalizedFrame {
                display_time,
                width: c.size.width,
                height: c.size.height,
                data: out,
            })
        },
    }
}

} // verus!
