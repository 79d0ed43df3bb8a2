//! Wire types exchanged with a worker, and the host's frame post-processing.
//!
//! A worker returns decoded pixels as an anonymous in-memory file; the frame
//! message only carries its dimensions, stride, memory format and the file
//! handle.  On receipt the host validates the declared extent against the
//! texture ([`validate_frame`]) and normalizes the stride when rows are not
//! a whole number of pixels ([`remove_stride_if_needed`]).

use vstd::prelude::*;

use crate::convert::lemma_layout;
use crate::error::Error;
use crate::memory_format::{MemoryFormat, MemoryFormatInfo};

verus! {

/// Largest permitted texture extent in bytes: 8 GB.
pub const MAX_TEXTURE_SIZE: u64 = 8_000_000_000;

/// A handle to binary data transported out of band: the raw number of the
/// in-memory file that carries it.  The bytes themselves are reached outside
/// the library by mapping that file.
#[derive(Debug, Clone, Copy, PartialEq, Eq, Structural)]
pub struct BinaryData {
    pub fd: i32,
}

impl BinaryData {
    pub fn new(fd: i32) -> (r: BinaryData)
        ensures
            r.fd == fd,
    {
        BinaryData { fd }
    }

    pub fn as_raw_fd(&self) -> (r: i32)
        ensures
            r == self.fd,
    {
        self.fd
    }
}

/// Options the application hands a worker before the first request.
#[derive(Debug, Clone, PartialEq, Eq)]
pub struct InitializationDetails {
    /// Directory to expose read-only inside the sandbox, for formats whose
    /// files reference siblings.
    pub base_dir: Option<String>,
}

impl Default for InitializationDetails {
    fn default() -> (r: Self)
        ensures
            r.base_dir is None,
    {
        InitializationDetails { base_dir: None }
    }
}

/// The one-time request that hands a worker its input.
///
/// Ownership of the source descriptor moves to the worker.
#[derive(Debug, Clone, PartialEq, Eq)]
pub struct InitRequest {
    /// Source from which the loader reads the image data.
    pub fd: BinaryData,
    pub mime_type: String,
    pub details: InitializationDetails,
}

/// Per-frame decode instructions; workers treat them as hints.
#[derive(Debug, Clone, PartialEq, Eq)]
pub struct FrameRequest {
    /// Scale image to these dimensions.
    pub scale: Option<(u32, u32)>,
    /// Instruction to only decode part of the image.
    pub clip: Option<(u32, u32, u32, u32)>,
}

impl Default for FrameRequest {
    fn default() -> (r: Self)
        ensures
            r.scale is None,
            r.clip is None,
    {
        FrameRequest { scale: None, clip: None }
    }
}

/// Various image metadata, returned from the initial request.
///
/// Width and height are early estimates; the per-frame values take
/// precedence when they differ.
#[derive(Debug, Clone, PartialEq, Eq)]
pub struct ImageInfo {
    pub width: u32,
    pub height: u32,
    pub format_name: Option<String>,
    pub exif: Option<BinaryData>,
    pub xmp: Option<BinaryData>,
    pub key_value: Option<Vec<(String, String)>>,
    pub transformations_applied: bool,
    /// Textual description of the image dimensions.
    pub dimensions_text: Option<String>,
}

impl ImageInfo {
    /// Metadata holding nothing but the dimensions.
    pub open spec fn spec_new(width: u32, height: u32) -> ImageInfo {
        ImageInfo {
            width,
            height,
            format_name: None,
            exif: None,
            xmp: None,
            key_value: None,
            transformations_applied: false,
            dimensions_text: None,
        }
    }

    pub fn new(width: u32, height: u32) -> (r: Self)
        ensures
            r == ImageInfo::spec_new(width, height),
    {
        Self {
            width,
            height,
            format_name: None,
            exif: None,
            xmp: None,
            key_value: None,
            transformations_applied: false,
            dimensions_text: None,
        }
    }
}

/// The first reply of a loader: image metadata plus the object path on which
/// frames are requested.
#[derive(Debug, Clone, PartialEq, Eq)]
pub struct RemoteImage {
    pub frame_request: String,
    pub details: ImageInfo,
}

impl RemoteImage {
    pub fn new(image_info: ImageInfo, frame_request: String) -> (r: Self)
        ensures
            r.frame_request == frame_request,
            r.details == image_info,
    {
        Self { frame_request, details: image_info }
    }
}

/// More information about a frame.
#[derive(Debug, Clone, PartialEq, Eq)]
pub struct FrameDetails {
    /// ICC color profile.
    pub iccp: Option<BinaryData>,
    /// Coding-independent code points (HDR information).
    pub cicp: Option<Vec<u8>>,
    /// Bit depth per channel; only set if it can differ for the format.
    pub bit_depth: Option<u8>,
    /// Image has an alpha channel; only set if it can differ for the format.
    pub alpha_channel: Option<bool>,
    /// Image uses grayscale mode; only set if it can differ for the format.
    pub grayscale: Option<bool>,
    pub n_frame: Option<u64>,
}

impl FrameDetails {
    /// All fields unset.
    pub open spec fn spec_default() -> FrameDetails {
        FrameDetails {
            iccp: None,
            cicp: None,
            bit_depth: None,
            alpha_channel: None,
            grayscale: None,
            n_frame: None,
        }
    }
}

impl Default for FrameDetails {
    fn default() -> (r: Self)
        ensures
            r == FrameDetails::spec_default(),
    {
        FrameDetails {
            iccp: None,
            cicp: None,
            bit_depth: None,
            alpha_channel: None,
            grayscale: None,
            n_frame: None,
        }
    }
}

/// One decoded frame: its extent and the file that holds its pixels.
#[derive(Debug, Clone, PartialEq, Eq)]
pub struct Frame {
    pub width: u32,
    pub height: u32,
    /// Line stride in bytes.
    pub stride: u32,
    pub memory_format: MemoryFormat,
    pub texture: BinaryData,
    /// Duration to show the frame, in microseconds, for animations.
    ///
    /// If the value is not set, the image is not animated.
    pub delay: Option<u64>,
    pub details: FrameDetails,
}

impl Frame {
    /// A frame with tightly packed rows, no delay and no details.
    pub fn new(width: u32, height: u32, memory_format: MemoryFormat, texture: BinaryData) -> (r:
        Result<Self, Error>)
        ensures
            r is Ok <==> width * memory_format.spec_n_bytes() <= u32::MAX,
            (match r {
                Ok(frame) => frame == (Frame {
                    width,
                    height,
                    stride: (width * memory_format.spec_n_bytes()) as u32,
                    memory_format,
                    texture,
                    delay: None,
                    details: FrameDetails::spec_default(),
                }),
                Err(e) => e == Error::DimensionOverflow,
            }),
    {
        proof {
            assert((width as int) * memory_format.spec_n_bytes() == memory_format.spec_n_bytes()
                * (width as int)) by (nonlinear_arith);
        }
        let stride = match memory_format.n_bytes().u32().checked_mul(width) {
            Some(stride) => stride,
            None => {
                return Err(Error::DimensionOverflow);
            },
        };
        Ok(Self {
            width,
            height,
            stride,
            memory_format,
            texture,
            delay: None,
            details: FrameDetails::default(),
        })
    }

    /// The number of texture bytes the declared extent covers.
    pub fn n_bytes(&self) -> (r: Result<usize, Error>)
        ensures
            r is Ok <==> self.stride * self.height <= usize::MAX,
            (match r {
                Ok(n) => n == self.stride * self.height,
                Err(e) => e == Error::DimensionOverflow,
            }),
    {
        proof {
            assert((self.stride as int) * (self.height as int) <= 0xffff_ffff * 0xffff_ffff)
                by (nonlinear_arith)
                requires
                    self.stride as int <= 0xffff_ffff,
                    self.height as int <= 0xffff_ffff,
            ;
        }
        let p = (self.stride as u64) * (self.height as u64);
        if p > usize::MAX as u64 {
            Err(Error::DimensionOverflow)
        } else {
            Ok(p as usize)
        }
    }
}

/// A decoded image handed back by a worker in one piece: its metadata and
/// every frame.
#[derive(Debug, Clone, PartialEq, Eq)]
pub struct NewImage {
    pub image_info: ImageInfo,
    pub frames: Vec<Frame>,
}

impl NewImage {
    pub fn new(image_info: ImageInfo, frames: Vec<Frame>) -> (r: Self)
        ensures
            r.image_info == image_info,
            r.frames == frames,
    {
        Self { image_info, frames }
    }
}

/// Options for encoding an image.
#[derive(Debug, Clone, Copy, PartialEq, Eq, Structural)]
pub struct EncodingOptions {
    pub quality: Option<u8>,
    pub compression: Option<u8>,
}

impl Default for EncodingOptions {
    fn default() -> (r: Self)
        ensures
            r.quality is None,
            r.compression is None,
    {
        EncodingOptions { quality: None, compression: None }
    }
}

/// An encoded image produced by a worker.
#[derive(Debug, Clone, Copy, PartialEq, Eq, Structural)]
pub struct EncodedImage {
    pub data: BinaryData,
}

impl EncodedImage {
    pub fn new(data: BinaryData) -> (r: Self)
        ensures
            r.data == data,
    {
        Self { data }
    }
}

/// The invariants a received frame must satisfy before its texture is used:
/// the declared extent fits in memory and inside the texture, the stride
/// holds at least one row of pixels, both dimensions are nonzero and fit in
/// a signed 32-bit integer, and the extent stays under the texture limit.
pub open spec fn spec_frame_valid(frame: Frame, texture_len: u64) -> bool {
    &&& frame.stride * frame.height <= usize::MAX
    &&& texture_len >= frame.stride * frame.height
    &&& frame.stride >= frame.width * frame.memory_format.spec_n_bytes()
    &&& frame.width >= 1
    &&& frame.height >= 1
    &&& frame.stride * frame.height <= MAX_TEXTURE_SIZE
    &&& frame.width <= i32::MAX
    &&& frame.height <= i32::MAX
}

/// The error [`validate_frame`] reports for an invalid frame: the first
/// check that fails, in the order the checks are made.
pub open spec fn spec_frame_error(frame: Frame, texture_len: u64) -> Error {
    if frame.stride * frame.height > usize::MAX {
        Error::DimensionOverflow
    } else if texture_len < frame.stride * frame.height {
        Error::TextureTooSmall {
            actual: texture_len,
            declared: (frame.stride * frame.height) as u64,
        }
    } else if frame.width * frame.memory_format.spec_n_bytes() > u32::MAX {
        Error::DimensionOverflow
    } else if frame.stride < frame.width * frame.memory_format.spec_n_bytes() {
        Error::StrideTooSmall
    } else if frame.width < 1 || frame.height < 1 {
        Error::WidthOrHeightZero
    } else if frame.stride * frame.height > MAX_TEXTURE_SIZE {
        Error::TextureTooLarge
    } else {
        Error::DimensionOverflow
    }
}

/// Check a received frame against the invariants of [`spec_frame_valid`],
/// given the length of the texture it arrived with.
pub fn validate_frame(frame: &Frame, texture_len: u64) -> (r: Result<(), Error>)
    ensures
        r is Ok <==> spec_frame_valid(*frame, texture_len),
        r matches Err(e) ==> e == spec_frame_error(*frame, texture_len),
{
    proof {
        assert((frame.width as int) * frame.memory_format.spec_n_bytes()
            == frame.memory_format.spec_n_bytes() * (frame.width as int) && (frame.stride as int)
            * (frame.height as int) <= 0xffff_ffff * 0xffff_ffff) by (nonlinear_arith)
            requires
                frame.stride as int <= 0xffff_ffff,
                frame.height as int <= 0xffff_ffff,
        ;
    }
    let n_bytes = match frame.n_bytes() {
        Ok(n) => n,
        Err(e) => {
            return Err(e);
        },
    };
    if texture_len < n_bytes as u64 {
        return Err(Error::TextureTooSmall { actual: texture_len, declared: n_bytes as u64 });
    }
    let row_bytes = match frame.memory_format.n_bytes().u32().checked_mul(frame.width) {
        Some(row_bytes) => row_bytes,
        None => {
            return Err(Error::DimensionOverflow);
        },
    };
    if frame.stride < row_bytes {
        return Err(Error::StrideTooSmall);
    }
    if frame.width < 1 || frame.height < 1 {
        return Err(Error::WidthOrHeightZero);
    }
    if (frame.stride as u64) * (frame.height as u64) > MAX_TEXTURE_SIZE {
        return Err(Error::TextureTooLarge);
    }
    if frame.width > i32::MAX as u32 || frame.height > i32::MAX as u32 {
        return Err(Error::DimensionOverflow);
    }
    Ok(())
}

/// A row of pixels occupies a whole number of pixels after normalization.
pub proof fn lemma_normalized_stride_divides(width: int, bpp: int)
    requires
        bpp > 0,
        width >= 0,
    ensures
        (width * bpp) % bpp == 0,
{
    vstd::arithmetic::div_mod::lemma_mod_multiples_basic(width, bpp);
}

/// Rewrite the texture so rows are tightly packed, when the declared stride
/// is not a whole number of pixels.
///
/// Downstream consumers require `stride == width * bytes_per_pixel`; a frame
/// whose stride is not a multiple of the pixel size gets each row's pixel
/// data moved to `row * width * bytes_per_pixel` and the buffer cut to the
/// packed size.  A frame whose stride already is a whole number of pixels is
/// left exactly as it came, so a second application changes nothing.
pub fn remove_stride_if_needed(buf: &mut Vec<u8>, frame: &mut Frame)
    requires
        old(frame).stride >= old(frame).width * old(frame).memory_format.spec_n_bytes(),
        old(buf)@.len() >= old(frame).stride * old(frame).height,
        old(frame).stride * old(frame).height <= usize::MAX,
    ensures
        final(frame).width == old(frame).width,
        final(frame).height == old(frame).height,
        final(frame).memory_format == old(frame).memory_format,
        final(frame).texture == old(frame).texture,
        final(frame).delay == old(frame).delay,
        final(frame).details == old(frame).details,
        old(frame).stride as int % old(frame).memory_format.spec_n_bytes() == 0 ==> *final(frame)
            == *old(frame) && *final(buf) == *old(buf),
        old(frame).stride as int % old(frame).memory_format.spec_n_bytes() != 0 ==> {
            let wb = old(frame).width * old(frame).memory_format.spec_n_bytes();
            &&& final(frame).stride == wb
            &&& final(buf)@.len() == old(frame).height * wb
            &&& forall|row: int, k: int|
                0 <= row < old(frame).height && 0 <= k < wb ==> #[trigger] final(buf)@[row * wb
                    + k] == old(buf)@[row * old(frame).stride + k]
        },
{
    proof {
        lemma_layout(old(frame).memory_format);
    }
    let bpp: u32 = frame.memory_format.n_bytes().u32();
    if frame.stride % bpp == 0 {
        return ;
    }
    let w: usize = frame.width as usize;
    let h: usize = frame.height as usize;
    let st: usize = frame.stride as usize;
    let wb: usize = w * (bpp as usize);
    let ghost gwb: int = wb as int;
    let ghost oh: int = old(frame).height as int;
    let ghost ost: int = old(frame).stride as int;
    let ghost olen: int = old(buf)@.len() as int;
    proof {
        assert(h * st <= usize::MAX && h * st == ost * oh && 0 * gwb == 0) by (nonlinear_arith)
            requires
                h as int == oh,
                st as int == ost,
                gwb == wb,
                wb <= st,
                ost * oh <= usize::MAX,
        ;
    }
    let mut out: Vec<u8> = Vec::new();
    let mut row: usize = 0;
    while row < h
        invariant
            wb == old(frame).width * old(frame).memory_format.spec_n_bytes(),
            wb <= st,
            st as int == old(frame).stride,
            h as int == old(frame).height,
            old(buf)@.len() >= h * st,
            h * st <= usize::MAX,
            buf == old(buf),
            row <= h,
            out@.len() == row * wb,
            forall|r0: int, k: int|
                0 <= r0 < row && 0 <= k < wb ==> #[trigger] out@[r0 * wb + k] == old(buf)@[r0 * st
                    + k],
        decreases h - row,
    {
        proof {
            assert(row * st + wb <= row * st + st && row * st + st <= h * st && row * st >= 0 && (
            row + 1) * wb == row * wb + wb && (row + 1) * st == row * st + st && row * wb <= row
                * st) by (nonlinear_arith)
                requires
                    row + 1 <= h,
                    0 <= row,
                    0 <= wb <= st,
            ;
        }
        let base = row * st;
        let mut k: usize = 0;
        while k < wb
            invariant
                wb <= st,
                base == row * st,
                base + st <= h * st,
                old(buf)@.len() >= h * st,
                h * st <= usize::MAX,
                buf == old(buf),
                k <= wb,
                out@.len() == row * wb + k,
                forall|r0: int, j: int|
                    0 <= r0 < row && 0 <= j < wb ==> #[trigger] out@[r0 * wb + j] == old(buf)@[r0
                        * st + j],
                forall|j: int| 0 <= j < k ==> #[trigger] out@[row * wb + j] == old(buf)@[base + j],
            decreases wb - k,
        {
            let b: u8 = buf[base + k];
            out.push(b);
            proof {
                assert forall|r0: int, j: int|
                    0 <= r0 < row && 0 <= j < wb implies #[trigger] out@[r0 * wb + j] == old(
                buf,
                )@[r0 * st + j] by {
                    assert(0 <= r0 * wb + j && r0 * wb + j < row * wb + k) by (nonlinear_arith)
                        requires
                            0 <= r0,
                            r0 + 1 <= row,
                            0 <= j < wb,
                            0 <= k,
                    ;
                }
            }
            k += 1;
        }
        proof {
            assert(row * wb + wb == (row + 1) * wb) by (nonlinear_arith);
            assert forall|r0: int, j: int|
                0 <= r0 < row + 1 && 0 <= j < wb implies #[trigger] out@[r0 * wb + j] == old(buf)@[
            r0 * st + j] by {
                if r0 < row {
                    assert(r0 * wb + j < row * wb) by (nonlinear_arith)
                        requires
                            r0 + 1 <= row,
                            0 <= j < wb,
                            0 <= r0,
                    ;
                } else {
                    assert(out@[row * wb + j] == old(buf)@[row * st + j]);
                }
            }
        }
        row += 1;
    }
    let new_stride: u32 = frame.width * bpp;
    frame.stride = new_stride;
    *buf = out;
    proof {
        assert(buf@.len() == oh * gwb) by (nonlinear_arith)
            requires
                buf@.len() == h * gwb,
                h as int == oh,
        ;
    }
}

} // verus!
