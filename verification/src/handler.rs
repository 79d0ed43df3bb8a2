//! Shared loader plumbing: per-format capabilities and frame details.
//!
//! A loader binary describes its format once — the format name, the default
//! bit depth, whether alpha and grayscale can vary — and the handler derives
//! the metadata and frame details from the plain values the decoder
//! reports: its dimensions, its color type, and its color profile.

use vstd::prelude::*;

use crate::editing::EditingFrame;
use crate::error::Error;
use crate::frame::{BinaryData, FrameDetails, ImageInfo};
use crate::memory_format::{ExtendedMemoryFormat, MemoryFormat, MemoryFormatInfo};

verus! {

/// The color types a decoder can produce pixels in.
#[derive(Debug, Clone, Copy, PartialEq, Eq, Structural)]
pub enum ColorType {
    L8,
    La8,
    Rgb8,
    Rgba8,
    L16,
    La16,
    Rgb16,
    Rgba16,
    Rgb32F,
    Rgba32F,
}

/// The color type of the original, undecoded image data, which can be finer
/// grained than what the decoder produces.
#[derive(Debug, Clone, Copy, PartialEq, Eq, Structural)]
pub enum ExtendedColorType {
    A8,
    L1,
    La1,
    Rgb1,
    Rgba1,
    L2,
    La2,
    Rgb2,
    Rgba2,
    L4,
    La4,
    Rgb4,
    Rgba4,
    L8,
    La8,
    Rgb8,
    Rgba8,
    L16,
    La16,
    Rgb16,
    Rgba16,
    Bgr8,
    Bgra8,
    Rgb32F,
    Rgba32F,
    Unknown(u8),
    /// Any layout the channel table does not describe.
    Other,
}

/// The `(alpha, grayscale, bits per channel)` triple of a stored color
/// type, where the table describes it.
pub open spec fn spec_channel_details(color_type: ExtendedColorType) -> Option<(bool, bool, u8)> {
    match color_type {
        ExtendedColorType::A8 => Some((true, false, 8)),
        ExtendedColorType::L1 => Some((false, true, 1)),
        ExtendedColorType::La1 => Some((true, true, 1)),
        ExtendedColorType::Rgb1 => Some((false, false, 1)),
        ExtendedColorType::Rgba1 => Some((true, false, 1)),
        ExtendedColorType::L2 => Some((false, true, 2)),
        ExtendedColorType::La2 => Some((true, true, 2)),
        ExtendedColorType::Rgb2 => Some((false, false, 2)),
        ExtendedColorType::Rgba2 => Some((true, false, 2)),
        ExtendedColorType::L4 => Some((false, true, 4)),
        ExtendedColorType::La4 => Some((true, true, 4)),
        ExtendedColorType::Rgb4 => Some((false, false, 4)),
        ExtendedColorType::Rgba4 => Some((true, false, 4)),
        ExtendedColorType::L8 => Some((false, true, 8)),
        ExtendedColorType::La8 => Some((true, true, 8)),
        ExtendedColorType::Rgb8 => Some((false, false, 8)),
        ExtendedColorType::Rgba8 => Some((true, false, 8)),
        ExtendedColorType::L16 => Some((false, true, 16)),
        ExtendedColorType::La16 => Some((true, true, 16)),
        ExtendedColorType::Rgb16 => Some((false, false, 16)),
        ExtendedColorType::Rgba16 => Some((true, false, 16)),
        ExtendedColorType::Bgr8 => Some((false, false, 8)),
        ExtendedColorType::Bgra8 => Some((true, false, 8)),
        ExtendedColorType::Rgb32F => Some((false, false, 32)),
        ExtendedColorType::Rgba32F => Some((true, false, 32)),
        ExtendedColorType::Unknown(bits) => Some((false, false, bits)),
        ExtendedColorType::Other => None,
    }
}

/// Whether a stored color type has alpha, is grayscale, and how many bits
/// one channel has.
pub fn channel_details(color_type: ExtendedColorType) -> (r: Option<(bool, bool, u8)>)
    ensures
        r == spec_channel_details(color_type),
{
    match color_type {
        ExtendedColorType::A8 => Some((true, false, 8)),
        ExtendedColorType::L1 => Some((false, true, 1)),
        ExtendedColorType::La1 => Some((true, true, 1)),
        ExtendedColorType::Rgb1 => Some((false, false, 1)),
        ExtendedColorType::Rgba1 => Some((true, false, 1)),
        ExtendedColorType::L2 => Some((false, true, 2)),
        ExtendedColorType::La2 => Some((true, true, 2)),
        ExtendedColorType::Rgb2 => Some((false, false, 2)),
        ExtendedColorType::Rgba2 => Some((true, false, 2)),
        ExtendedColorType::L4 => Some((false, true, 4)),
        ExtendedColorType::La4 => Some((true, true, 4)),
        ExtendedColorType::Rgb4 => Some((false, false, 4)),
        ExtendedColorType::Rgba4 => Some((true, false, 4)),
        ExtendedColorType::L8 => Some((false, true, 8)),
        ExtendedColorType::La8 => Some((true, true, 8)),
        ExtendedColorType::Rgb8 => Some((false, false, 8)),
        ExtendedColorType::Rgba8 => Some((true, false, 8)),
        ExtendedColorType::L16 => Some((false, true, 16)),
        ExtendedColorType::La16 => Some((true, true, 16)),
        ExtendedColorType::Rgb16 => Some((false, false, 16)),
        ExtendedColorType::Rgba16 => Some((true, false, 16)),
        ExtendedColorType::Bgr8 => Some((false, false, 8)),
        ExtendedColorType::Bgra8 => Some((true, false, 8)),
        ExtendedColorType::Rgb32F => Some((false, false, 32)),
        ExtendedColorType::Rgba32F => Some((true, false, 32)),
        ExtendedColorType::Unknown(bits) => Some((false, false, bits)),
        ExtendedColorType::Other => None,
    }
}

/// The decoder color type with the same layout as a memory format, if one
/// exists.
pub open spec fn spec_to_color_type(format: MemoryFormat) -> Option<ColorType> {
    match format {
        MemoryFormat::G8 => Some(ColorType::L8),
        MemoryFormat::G8a8 => Some(ColorType::La8),
        MemoryFormat::R8g8b8 => Some(ColorType::Rgb8),
        MemoryFormat::R8g8b8a8 => Some(ColorType::Rgba8),
        MemoryFormat::G16 => Some(ColorType::L16),
        MemoryFormat::G16a16 => Some(ColorType::La16),
        MemoryFormat::R16g16b16 => Some(ColorType::Rgb16),
        MemoryFormat::R16g16b16a16 => Some(ColorType::Rgba16),
        MemoryFormat::R32g32b32Float => Some(ColorType::Rgb32F),
        MemoryFormat::R32g32b32a32Float => Some(ColorType::Rgba32F),
        _ => None,
    }
}

impl MemoryFormat {
    /// The decoder color type with the same layout, if one exists.
    pub fn to_color_type(&self) -> (r: Option<ColorType>)
        ensures
            r == spec_to_color_type(*self),
    {
        match self {
            MemoryFormat::G8 => Some(ColorType::L8),
            MemoryFormat::G8a8 => Some(ColorType::La8),
            MemoryFormat::R8g8b8 => Some(ColorType::Rgb8),
            MemoryFormat::R8g8b8a8 => Some(ColorType::Rgba8),
            MemoryFormat::G16 => Some(ColorType::L16),
            MemoryFormat::G16a16 => Some(ColorType::La16),
            MemoryFormat::R16g16b16 => Some(ColorType::Rgb16),
            MemoryFormat::R16g16b16a16 => Some(ColorType::Rgba16),
            MemoryFormat::R32g32b32Float => Some(ColorType::Rgb32F),
            MemoryFormat::R32g32b32a32Float => Some(ColorType::Rgba32F),
            _ => None,
        }
    }

    /// The memory format in which a decoder delivers the given color type.
    pub fn from_color_type(color_type: ColorType) -> (r: MemoryFormat)
        ensures
            r == (match color_type {
                ColorType::L8 => MemoryFormat::G8,
                ColorType::La8 => MemoryFormat::G8a8,
                ColorType::Rgb8 => MemoryFormat::R8g8b8,
                ColorType::Rgba8 => MemoryFormat::R8g8b8a8,
                ColorType::L16 => MemoryFormat::G16,
                ColorType::La16 => MemoryFormat::G16a16,
                ColorType::Rgb16 => MemoryFormat::R16g16b16,
                ColorType::Rgba16 => MemoryFormat::R16g16b16a16,
                ColorType::Rgb32F => MemoryFormat::R32g32b32Float,
                ColorType::Rgba32F => MemoryFormat::R32g32b32a32Float,
            }),
    {
        match color_type {
            ColorType::L8 => MemoryFormat::G8,
            ColorType::La8 => MemoryFormat::G8a8,
            ColorType::Rgb8 => MemoryFormat::R8g8b8,
            ColorType::Rgba8 => MemoryFormat::R8g8b8a8,
            ColorType::L16 => MemoryFormat::G16,
            ColorType::La16 => MemoryFormat::G16a16,
            ColorType::Rgb16 => MemoryFormat::R16g16b16,
            ColorType::Rgba16 => MemoryFormat::R16g16b16a16,
            ColorType::Rgb32F => MemoryFormat::R32g32b32Float,
            ColorType::Rgba32F => MemoryFormat::R32g32b32a32Float,
        }
    }
}

impl ExtendedMemoryFormat {
    /// The decoder color type with the same layout, if one exists.
    pub fn to_color_type(&self) -> (r: Option<ColorType>)
        ensures
            r == (match self {
                ExtendedMemoryFormat::Basic(basic) => spec_to_color_type(*basic),
                ExtendedMemoryFormat::Y8Cb8Cr8 => None::<ColorType>,
            }),
    {
        match self {
            ExtendedMemoryFormat::Basic(basic) => basic.to_color_type(),
            ExtendedMemoryFormat::Y8Cb8Cr8 => None,
        }
    }
}

/// Per-format capabilities a loader declares once.
#[derive(Debug, Clone, PartialEq, Eq)]
pub struct Handler {
    pub format_name: Option<String>,
    pub default_bit_depth: Option<u8>,
    pub supports_two_alpha_modes: bool,
    pub supports_two_grayscale_modes: bool,
}

impl Default for Handler {
    fn default() -> (r: Self)
        ensures
            r.format_name is None,
            r.default_bit_depth is None,
            !r.supports_two_alpha_modes,
            !r.supports_two_grayscale_modes,
    {
        Handler {
            format_name: None,
            default_bit_depth: None,
            supports_two_alpha_modes: false,
            supports_two_grayscale_modes: false,
        }
    }
}

impl Handler {
    pub fn format_name(self, format_name: String) -> (r: Self)
        ensures
            r == (Handler { format_name: Some(format_name), ..self }),
    {
        Self { format_name: Some(format_name), ..self }
    }

    pub fn default_bit_depth(self, default_bit_depth: u8) -> (r: Self)
        ensures
            r == (Handler { default_bit_depth: Some(default_bit_depth), ..self }),
    {
        Self { default_bit_depth: Some(default_bit_depth), ..self }
    }

    pub fn supports_two_alpha_modes(self, supports_two_alpha_modes: bool) -> (r: Self)
        ensures
            r == (Handler { supports_two_alpha_modes, ..self }),
    {
        Self { supports_two_alpha_modes, ..self }
    }

    pub fn supports_two_grayscale_modes(self, supports_two_grayscale_modes: bool) -> (r: Self)
        ensures
            r == (Handler { supports_two_grayscale_modes, ..self }),
    {
        Self { supports_two_grayscale_modes, ..self }
    }

    /// The metadata reply for a decoder that reports these dimensions.
    pub fn info(&self, width: u32, height: u32) -> (r: ImageInfo)
        ensures
            r == (ImageInfo { format_name: self.format_name, ..ImageInfo::spec_new(
                width,
                height,
            ) }),
    {
        let mut info = ImageInfo::new(width, height);
        info.format_name = self.format_name.clone();
        info
    }

    /// The editing-frame header for a decoder that reports these dimensions
    /// and this memory format, with tightly packed rows.
    pub fn simple_frame(&self, width: u32, height: u32, memory_format: ExtendedMemoryFormat) -> (r:
        Result<EditingFrame, Error>)
        ensures
            r is Ok <==> width * memory_format.spec_n_bytes() <= u32::MAX,
            (match r {
                Ok(frame) => frame == (EditingFrame {
                    width,
                    height,
                    stride: (width * memory_format.spec_n_bytes()) as u32,
                    memory_format,
                }),
                Err(e) => e == Error::DimensionOverflow,
            }),
    {
        proof {
            assert((width as int) * memory_format.spec_n_bytes() == memory_format.spec_n_bytes()
                * (width as int)) by (nonlinear_arith);
        }
        let stride = match memory_format.n_bytes().u32().checked_mul(width) {
            Some(stride) => stride,
            None => {
                return Err(Error::DimensionOverflow);
            },
        };
        Ok(EditingFrame { width, height, stride, memory_format })
    }

    /// The frame details for a decoder that reports this color profile and
    /// this original color type: the bit depth is reported when it differs
    /// from the format's default, and the alpha and grayscale modes when the
    /// format admits both.
    pub fn frame_details(&self, iccp: Option<BinaryData>, original_color_type: ExtendedColorType)
        -> (r: FrameDetails)
        ensures
            r.iccp == iccp,
            r.cicp is None,
            r.n_frame is None,
            (match spec_channel_details(original_color_type) {
                Some(details) => {
                    &&& r.bit_depth == (if self.default_bit_depth != Some(details.2) {
                        Some(details.2)
                    } else {
                        None::<u8>
                    })
                    &&& r.alpha_channel == (if self.supports_two_alpha_modes {
                        Some(details.0)
                    } else {
                        None::<bool>
                    })
                    &&& r.grayscale == (if self.supports_two_grayscale_modes {
                        Some(details.1)
                    } else {
                        None::<bool>
                    })
                },
                None => r.bit_depth is None && r.alpha_channel is None && r.grayscale is None,
            }),
    {
        let mut details = FrameDetails::default();
        details.iccp = iccp;
        if let Some((alpha_channel, grayscale, bits)) = channel_details(original_color_type) {
            let differs = match self.default_bit_depth {
                Some(d) => d != bits,
                None => true,
            };
            if differs {
                details.bit_depth = Some(bits);
            }
            if self.supports_two_alpha_modes {
                details.alpha_channel = Some(alpha_channel);
            }
            if self.supports_two_grayscale_modes {
                details.grayscale = Some(grayscale);
            }
        }
        details
    }
}

} // verus!
