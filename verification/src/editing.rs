//! In-memory editing of decoded pixel buffers.
//!
//! An editing frame is the header a worker keeps while it rewrites pixels:
//! dimensions, stride, and a memory format that may be one of the
//! source-only layouts.  [`clip`] cuts a rectangle out of a strided buffer
//! and leaves the frame describing the cut, tightly packed.

use vstd::prelude::*;

use crate::error::Error;
use crate::memory_format::{ExtendedMemoryFormat, MemoryFormatInfo};

verus! {

/// The header of a buffer being edited.
#[derive(Debug, Clone, Copy, PartialEq, Eq, Structural)]
pub struct EditingFrame {
    pub width: u32,
    pub height: u32,
    /// Line stride in bytes.
    pub stride: u32,
    pub memory_format: ExtendedMemoryFormat,
}

/// Whether a clip rectangle can be cut from a buffer of the frame's stride:
/// the new row size fits the machine, and every row of the rectangle lies
/// inside the buffer.
pub open spec fn spec_clip_ok(
    buf: Seq<u8>,
    stride: int,
    psize: int,
    x: int,
    y: int,
    width: int,
    height: int,
) -> bool {
    &&& width * psize <= u32::MAX
    &&& height * (width * psize) <= usize::MAX
    &&& (height > 0 ==> (y + height - 1) * stride + x * psize + width * psize <= buf.len())
}

/// Cut the rectangle `(x, y, width, height)` (in pixels) out of `buf`.
///
/// The result holds the rectangle's rows tightly packed, and the frame is
/// updated to the rectangle's dimensions with stride `width * psize`.  On
/// an error the frame is untouched: `DimensionOverflow` when a size leaves
/// the machine's range, `Io` when a row of the rectangle reaches outside
/// the buffer.
pub fn clip(buf: Vec<u8>, frame: &mut EditingFrame, rect: (u32, u32, u32, u32)) -> (r: Result<
    Vec<u8>,
    Error,
>)
    ensures
        ({
            let (x, y, width, height) = rect;
            let psize = old(frame).memory_format.spec_n_bytes();
            let stride = old(frame).stride as int;
            let wb = width * psize;
            &&& (r is Ok <==> spec_clip_ok(
                buf@,
                stride,
                psize,
                x as int,
                y as int,
                width as int,
                height as int,
            ))
            &&& (match r {
                Ok(out) => {
                    &&& out@.len() == height * wb
                    &&& (forall|row: int, k: int|
                        0 <= row < height && 0 <= k < wb ==> #[trigger] out@[row * wb + k]
                            == buf@[(y + row) * stride + x * psize + k])
                    &&& *final(frame) == (EditingFrame {
                        width,
                        height,
                        stride: wb as u32,
                        memory_format: old(frame).memory_format,
                    })
                },
                Err(e) => {
                    &&& *final(frame) == *old(frame)
                    &&& (e matches Error::DimensionOverflow <==> (width * psize > u32::MAX
                        || height * (width * psize) > usize::MAX))
                    &&& (e matches Error::DimensionOverflow || e matches Error::Io(_))
                },
            })
        }),
{
    let (x, y, width, height) = rect;
    let psize: u32 = frame.memory_format.n_bytes().u32();
    proof {
        assert((width as int) * (psize as int) == (psize as int) * (width as int))
            by (nonlinear_arith);
    }
    let new_stride: u32 = match psize.checked_mul(width) {
        Some(s) => s,
        None => {
            return Err(Error::DimensionOverflow);
        },
    };
    proof {
        assert((height as int) * (new_stride as int) <= 0xffff_ffff * 0xffff_ffff)
            by (nonlinear_arith)
            requires
                height as int <= 0xffff_ffff,
                new_stride as int <= 0xffff_ffff,
        ;
    }
    let total64: u64 = (height as u64) * (new_stride as u64);
    if total64 > usize::MAX as u64 {
        return Err(Error::DimensionOverflow);
    }
    let wb: usize = new_stride as usize;
    let buflen: usize = buf.len();
    if height == 0 {
        proof {
            assert(0int * (width as int * frame.memory_format.spec_n_bytes()) == 0)
                by (nonlinear_arith);
        }
        frame.width = width;
        frame.height = height;
        frame.stride = new_stride;
        return Ok(Vec::new());
    }
    proof {
        assert((x as int) * (psize as int) <= 0xffff_ffff * 16) by (nonlinear_arith)
            requires
                x as int <= 0xffff_ffff,
                0 <= psize as int <= 16,
        ;
    }
    let xb64: u64 = (x as u64) * (psize as u64);
    if xb64 > usize::MAX as u64 {
        proof {
            assert(0 <= ((y as int) + (height as int) - 1) * (frame.stride as int))
                by (nonlinear_arith)
                requires
                    0 <= y,
                    1 <= height,
                    0 <= frame.stride,
            ;
        }
        return Err(Error::Io("clip rectangle reaches outside the buffer".to_string()));
    }
    let xb: usize = xb64 as usize;
    let st: usize = frame.stride as usize;
    if height > 0 {
        proof {
            assert(((y as int) + (height as int) - 1) * (frame.stride as int) <= 0x2_0000_0000
                * 0x1_0000_0000) by (nonlinear_arith)
                requires
                    0 <= (y as int) + (height as int) - 1 <= 0x2_0000_0000,
                    0 <= frame.stride as int <= 0x1_0000_0000,
            ;
        }
        let last_row: u128 = ((y as u128) + (height as u128) - 1) * (frame.stride as u128) + (
        xb as u128) + (wb as u128);
        if last_row > buflen as u128 {
            return Err(Error::Io("clip rectangle reaches outside the buffer".to_string()));
        }
    }
    let mut out: Vec<u8> = Vec::new();
    let mut row: usize = 0;
    let h: usize = height as usize;
    let ghost gstride: int = frame.stride as int;
    proof {
        assert(0 * wb == 0) by (nonlinear_arith);
    }
    while row < h
        invariant
            h == height,
            wb == width * old(frame).memory_format.spec_n_bytes(),
            xb == x * old(frame).memory_format.spec_n_bytes(),
            gstride == old(frame).stride,
            st == gstride,
            h * wb <= usize::MAX,
            buflen == buf@.len(),
            h > 0 ==> (y + h - 1) * gstride + xb + wb <= buf@.len(),
            row <= h,
            out@.len() == row * wb,
            forall|r0: int, k: int|
                0 <= r0 < row && 0 <= k < wb ==> #[trigger] out@[r0 * wb + k] == buf@[(y + r0)
                    * gstride + xb + k],
        decreases h - row,
    {
        proof {
            assert((y + row) * gstride <= (y + h - 1) * gstride && 0 <= (y + row) * gstride && (row
                + 1) * wb == row * wb + wb && row * wb + wb <= h * wb) by (nonlinear_arith)
                requires
                    row + 1 <= h,
                    0 <= row,
                    0 <= y,
                    0 <= wb,
                    0 <= gstride,
            ;
        }
        let base64: u64 = ((y as u64) + (row as u64)) * (st as u64) + (xb as u64);
        proof {
            assert(base64 + wb <= buflen);
        }
        let base: usize = base64 as usize;
        let mut k: usize = 0;
        while k < wb
            invariant
                base == (y + row) * gstride + xb,
                base + wb <= buf@.len(),
                buflen == buf@.len(),
                k <= wb,
                out@.len() == row * wb + k,
                forall|r0: int, j: int|
                    0 <= r0 < row && 0 <= j < wb ==> #[trigger] out@[r0 * wb + j] == buf@[(y + r0)
                        * gstride + xb + j],
                forall|j: int| 0 <= j < k ==> #[trigger] out@[row * wb + j] == buf@[base + j],
            decreases wb - k,
        {
            let b: u8 = buf[base + k];
            out.push(b);
            proof {
                assert forall|r0: int, j: int|
                    0 <= r0 < row && 0 <= j < wb implies #[trigger] out@[r0 * wb + j] == buf@[(y
                    + r0) * gstride + xb + j] by {
                    assert(0 <= r0 * wb + j && r0 * wb + j < row * wb + k) by (nonlinear_arith)
                        requires
                            0 <= r0,
                            r0 + 1 <= row,
                            0 <= j < wb,
                            0 <= k,
                    ;
                }
            }
            k += 1;
        }
        proof {
            assert(row * wb + wb == (row + 1) * wb) by (nonlinear_arith);
            assert forall|r0: int, j: int|
                0 <= r0 < row + 1 && 0 <= j < wb implies #[trigger] out@[r0 * wb + j] == buf@[(y
                + r0) * gstride + xb + j] by {
                if r0 < row {
                    assert(r0 * wb + j < row * wb) by (nonlinear_arith)
                        requires
                            r0 + 1 <= row,
                            0 <= j < wb,
                            0 <= r0,
                    ;
                } else {
                    assert(out@[row * wb + j] == buf@[base + j]);
                }
            }
        }
        row += 1;
    }
    frame.width = width;
    frame.height = height;
    frame.stride = new_stride;
    let ghost gwb: int = wb as int;
    proof {
        assert(out@.len() == (height as int) * gwb) by (nonlinear_arith)
            requires
                out@.len() == h * gwb,
                h as int == height as int,
        ;
    }
    Ok(out)
}

} // verus!
