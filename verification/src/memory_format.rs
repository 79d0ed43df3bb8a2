//! Pixel memory layouts and their static properties.
//!
//! A [`MemoryFormat`] fixes the channel order, the channel type, whether an
//! alpha channel is present and whether the color channels are stored
//! premultiplied by alpha.  Integer channels are stored native-endian
//! (little-endian on every supported target); float channels are IEEE 754.

use vstd::prelude::*;

verus! {

/// Describes the formats the image data can have.
#[derive(Debug, Clone, Copy, PartialEq, Eq, Structural)]
pub enum MemoryFormat {
    B8g8r8a8Premultiplied,
    A8r8g8b8Premultiplied,
    R8g8b8a8Premultiplied,
    B8g8r8a8,
    A8r8g8b8,
    R8g8b8a8,
    A8b8g8r8,
    R8g8b8,
    B8g8r8,
    R16g16b16,
    R16g16b16a16Premultiplied,
    R16g16b16a16,
    R16g16b16Float,
    R16g16b16a16Float,
    R32g32b32Float,
    R32g32b32a32FloatPremultiplied,
    R32g32b32a32Float,
    G8a8Premultiplied,
    G8a8,
    G8,
    G16a16Premultiplied,
    G16a16,
    G16,
}

/// Number of bytes that one pixel occupies.
#[derive(Debug, Clone, Copy, PartialEq, Eq, Structural)]
pub enum MemoryFormatBytes {
    B1,
    B2,
    B3,
    B4,
    B6,
    B8,
    B12,
    B16,
}

/// The scalar type in which one channel of a pixel is stored.
#[derive(Debug, Clone, Copy, PartialEq, Eq, Structural)]
pub enum ChannelType {
    U8,
    U16,
    F16,
    F32,
}

/// Static layout properties shared by plain and extended memory formats.
pub trait MemoryFormatInfo: Sized {
    /// Bytes per pixel, as a mathematical integer.
    spec fn spec_n_bytes(self) -> int;

    /// Number of channels, as a mathematical integer.
    spec fn spec_n_channels(self) -> int;

    fn n_bytes(self) -> (r: MemoryFormatBytes)
        ensures
            r.as_int() == self.spec_n_bytes(),
    ;

    fn n_channels(self) -> (r: u8)
        ensures
            r as int == self.spec_n_channels(),
    ;
}

impl MemoryFormatBytes {
    pub open spec fn as_int(self) -> int {
        match self {
            MemoryFormatBytes::B1 => 1,
            MemoryFormatBytes::B2 => 2,
            MemoryFormatBytes::B3 => 3,
            MemoryFormatBytes::B4 => 4,
            MemoryFormatBytes::B6 => 6,
            MemoryFormatBytes::B8 => 8,
            MemoryFormatBytes::B12 => 12,
            MemoryFormatBytes::B16 => 16,
        }
    }

    pub fn u32(self) -> (r: u32)
        ensures
            r as int == self.as_int(),
    {
        match self {
            MemoryFormatBytes::B1 => 1,
            MemoryFormatBytes::B2 => 2,
            MemoryFormatBytes::B3 => 3,
            MemoryFormatBytes::B4 => 4,
            MemoryFormatBytes::B6 => 6,
            MemoryFormatBytes::B8 => 8,
            MemoryFormatBytes::B12 => 12,
            MemoryFormatBytes::B16 => 16,
        }
    }

    pub fn u64(self) -> (r: u64)
        ensures
            r as int == self.as_int(),
    {
        self.u32() as u64
    }

    pub fn usize(self) -> (r: usize)
        ensures
            r as int == self.as_int(),
    {
        self.u32() as usize
    }
}

impl ChannelType {
    pub open spec fn spec_size(self) -> int {
        match self {
            ChannelType::U8 => 1,
            ChannelType::U16 => 2,
            ChannelType::F16 => 2,
            ChannelType::F32 => 4,
        }
    }

    pub fn size(self) -> (r: usize)
        ensures
            r as int == self.spec_size(),
    {
        match self {
            ChannelType::U8 => 1,
            ChannelType::U16 => 2,
            ChannelType::F16 => 2,
            ChannelType::F32 => 4,
        }
    }
}

impl MemoryFormat {
    pub open spec fn spec_channel_type(self) -> ChannelType {
        match self {
            MemoryFormat::B8g8r8a8Premultiplied
            | MemoryFormat::A8r8g8b8Premultiplied
            | MemoryFormat::R8g8b8a8Premultiplied
            | MemoryFormat::B8g8r8a8
            | MemoryFormat::A8r8g8b8
            | MemoryFormat::R8g8b8a8
            | MemoryFormat::A8b8g8r8
            | MemoryFormat::R8g8b8
            | MemoryFormat::B8g8r8
            | MemoryFormat::G8a8Premultiplied
            | MemoryFormat::G8a8
            | MemoryFormat::G8 => ChannelType::U8,
            MemoryFormat::R16g16b16
            | MemoryFormat::R16g16b16a16Premultiplied
            | MemoryFormat::R16g16b16a16
            | MemoryFormat::G16a16Premultiplied
            | MemoryFormat::G16a16
            | MemoryFormat::G16 => ChannelType::U16,
            MemoryFormat::R16g16b16Float | MemoryFormat::R16g16b16a16Float => ChannelType::F16,
            MemoryFormat::R32g32b32Float
            | MemoryFormat::R32g32b32a32FloatPremultiplied
            | MemoryFormat::R32g32b32a32Float => ChannelType::F32,
        }
    }

    pub open spec fn spec_has_alpha(self) -> bool {
        match self {
            MemoryFormat::B8g8r8a8Premultiplied
            | MemoryFormat::A8r8g8b8Premultiplied
            | MemoryFormat::R8g8b8a8Premultiplied
            | MemoryFormat::B8g8r8a8
            | MemoryFormat::A8r8g8b8
            | MemoryFormat::R8g8b8a8
            | MemoryFormat::A8b8g8r8
            | MemoryFormat::R16g16b16a16Premultiplied
            | MemoryFormat::R32g32b32a32FloatPremultiplied
            | MemoryFormat::R32g32b32a32Float
            | MemoryFormat::G8a8Premultiplied
            | MemoryFormat::G8a8
            | MemoryFormat::R16g16b16a16
            | MemoryFormat::R16g16b16a16Float
            | MemoryFormat::G16a16Premultiplied
            | MemoryFormat::G16a16 => true,
            MemoryFormat::R8g8b8
            | MemoryFormat::B8g8r8
            | MemoryFormat::R16g16b16
            | MemoryFormat::R16g16b16Float
            | MemoryFormat::R32g32b32Float
            | MemoryFormat::G8
            | MemoryFormat::G16 => false,
        }
    }

    pub open spec fn spec_is_premultiplied(self) -> bool {
        match self {
            MemoryFormat::B8g8r8a8Premultiplied
            | MemoryFormat::A8r8g8b8Premultiplied
            | MemoryFormat::R8g8b8a8Premultiplied
            | MemoryFormat::R16g16b16a16Premultiplied
            | MemoryFormat::R32g32b32a32FloatPremultiplied
            | MemoryFormat::G8a8Premultiplied
            | MemoryFormat::G16a16Premultiplied => true,
            _ => false,
        }
    }

    /// Channel type stored as unsigned integers, so the exact conversion
    /// arithmetic of this crate applies.
    pub open spec fn spec_is_integer(self) -> bool {
        self.spec_channel_type() == ChannelType::U8 || self.spec_channel_type() == ChannelType::U16
    }

    /// Largest channel value; meaningful for integer channel types only.
    pub open spec fn spec_channel_max(self) -> int {
        match self.spec_channel_type() {
            ChannelType::U8 => 0xff,
            ChannelType::U16 => 0xffff,
            _ => 0,
        }
    }

    /// Size of one channel in bytes.
    pub open spec fn spec_channel_size(self) -> int {
        self.spec_channel_type().spec_size()
    }

    pub fn channel_type(self) -> (r: ChannelType)
        ensures
            r == self.spec_channel_type(),
    {
        match self {
            MemoryFormat::B8g8r8a8Premultiplied
            | MemoryFormat::A8r8g8b8Premultiplied
            | MemoryFormat::R8g8b8a8Premultiplied
            | MemoryFormat::B8g8r8a8
            | MemoryFormat::A8r8g8b8
            | MemoryFormat::R8g8b8a8
            | MemoryFormat::A8b8g8r8
            | MemoryFormat::R8g8b8
            | MemoryFormat::B8g8r8
            | MemoryFormat::G8a8Premultiplied
            | MemoryFormat::G8a8
            | MemoryFormat::G8 => ChannelType::U8,
            MemoryFormat::R16g16b16
            | MemoryFormat::R16g16b16a16Premultiplied
            | MemoryFormat::R16g16b16a16
            | MemoryFormat::G16a16Premultiplied
            | MemoryFormat::G16a16
            | MemoryFormat::G16 => ChannelType::U16,
            MemoryFormat::R16g16b16Float | MemoryFormat::R16g16b16a16Float => ChannelType::F16,
            MemoryFormat::R32g32b32Float
            | MemoryFormat::R32g32b32a32FloatPremultiplied
            | MemoryFormat::R32g32b32a32Float => ChannelType::F32,
        }
    }

    pub fn has_alpha(self) -> (r: bool)
        ensures
            r == self.spec_has_alpha(),
    {
        match self {
            MemoryFormat::B8g8r8a8Premultiplied
            | MemoryFormat::A8r8g8b8Premultiplied
            | MemoryFormat::R8g8b8a8Premultiplied
            | MemoryFormat::B8g8r8a8
            | MemoryFormat::A8r8g8b8
            | MemoryFormat::R8g8b8a8
            | MemoryFormat::A8b8g8r8
            | MemoryFormat::R16g16b16a16Premultiplied
            | MemoryFormat::R32g32b32a32FloatPremultiplied
            | MemoryFormat::R32g32b32a32Float
            | MemoryFormat::G8a8Premultiplied
            | MemoryFormat::G8a8
            | MemoryFormat::R16g16b16a16
            | MemoryFormat::R16g16b16a16Float
            | MemoryFormat::G16a16Premultiplied
            | MemoryFormat::G16a16 => true,
            MemoryFormat::R8g8b8
            | MemoryFormat::B8g8r8
            | MemoryFormat::R16g16b16
            | MemoryFormat::R16g16b16Float
            | MemoryFormat::R32g32b32Float
            | MemoryFormat::G8
            | MemoryFormat::G16 => false,
        }
    }

    pub fn is_premultiplied(self) -> (r: bool)
        ensures
            r == self.spec_is_premultiplied(),
    {
        match self {
            MemoryFormat::B8g8r8a8Premultiplied
            | MemoryFormat::A8r8g8b8Premultiplied
            | MemoryFormat::R8g8b8a8Premultiplied
            | MemoryFormat::R16g16b16a16Premultiplied
            | MemoryFormat::R32g32b32a32FloatPremultiplied
            | MemoryFormat::G8a8Premultiplied
            | MemoryFormat::G16a16Premultiplied => true,
            MemoryFormat::B8g8r8a8
            | MemoryFormat::A8r8g8b8
            | MemoryFormat::R8g8b8a8
            | MemoryFormat::A8b8g8r8
            | MemoryFormat::R8g8b8
            | MemoryFormat::B8g8r8
            | MemoryFormat::R16g16b16
            | MemoryFormat::R16g16b16a16
            | MemoryFormat::R16g16b16Float
            | MemoryFormat::R16g16b16a16Float
            | MemoryFormat::R32g32b32Float
            | MemoryFormat::R32g32b32a32Float
            | MemoryFormat::G8a8
            | MemoryFormat::G8
            | MemoryFormat::G16a16
            | MemoryFormat::G16 => false,
        }
    }
}

impl MemoryFormatInfo for MemoryFormat {
    open spec fn spec_n_bytes(self) -> int {
        match self {
            MemoryFormat::B8g8r8a8Premultiplied
            | MemoryFormat::A8r8g8b8Premultiplied
            | MemoryFormat::R8g8b8a8Premultiplied
            | MemoryFormat::B8g8r8a8
            | MemoryFormat::A8r8g8b8
            | MemoryFormat::R8g8b8a8
            | MemoryFormat::A8b8g8r8 => 4,
            MemoryFormat::R8g8b8 | MemoryFormat::B8g8r8 => 3,
            MemoryFormat::R16g16b16 => 6,
            MemoryFormat::R16g16b16a16Premultiplied | MemoryFormat::R16g16b16a16 => 8,
            MemoryFormat::R16g16b16Float => 6,
            MemoryFormat::R16g16b16a16Float => 8,
            MemoryFormat::R32g32b32Float => 12,
            MemoryFormat::R32g32b32a32FloatPremultiplied | MemoryFormat::R32g32b32a32Float => 16,
            MemoryFormat::G8a8Premultiplied | MemoryFormat::G8a8 => 2,
            MemoryFormat::G8 => 1,
            MemoryFormat::G16a16Premultiplied | MemoryFormat::G16a16 => 4,
            MemoryFormat::G16 => 2,
        }
    }

    open spec fn spec_n_channels(self) -> int {
        match self {
            MemoryFormat::B8g8r8a8Premultiplied
            | MemoryFormat::A8r8g8b8Premultiplied
            | MemoryFormat::R8g8b8a8Premultiplied
            | MemoryFormat::B8g8r8a8
            | MemoryFormat::A8r8g8b8
            | MemoryFormat::R8g8b8a8
            | MemoryFormat::A8b8g8r8
            | MemoryFormat::R16g16b16a16Premultiplied
            | MemoryFormat::R16g16b16a16
            | MemoryFormat::R16g16b16a16Float
            | MemoryFormat::R32g32b32a32FloatPremultiplied
            | MemoryFormat::R32g32b32a32Float => 4,
            MemoryFormat::R8g8b8
            | MemoryFormat::B8g8r8
            | MemoryFormat::R16g16b16
            | MemoryFormat::R16g16b16Float
            | MemoryFormat::R32g32b32Float => 3,
            MemoryFormat::G8a8Premultiplied
            | MemoryFormat::G8a8
            | MemoryFormat::G16a16Premultiplied
            | MemoryFormat::G16a16 => 2,
            MemoryFormat::G8 | MemoryFormat::G16 => 1,
        }
    }

    fn n_bytes(self) -> (r: MemoryFormatBytes) {
        match self {
            MemoryFormat::B8g8r8a8Premultiplied => MemoryFormatBytes::B4,
            MemoryFormat::A8r8g8b8Premultiplied => MemoryFormatBytes::B4,
            MemoryFormat::R8g8b8a8Premultiplied => MemoryFormatBytes::B4,
            MemoryFormat::B8g8r8a8 => MemoryFormatBytes::B4,
            MemoryFormat::A8r8g8b8 => MemoryFormatBytes::B4,
            MemoryFormat::R8g8b8a8 => MemoryFormatBytes::B4,
            MemoryFormat::A8b8g8r8 => MemoryFormatBytes::B4,
            MemoryFormat::R8g8b8 => MemoryFormatBytes::B3,
            MemoryFormat::B8g8r8 => MemoryFormatBytes::B3,
            MemoryFormat::R16g16b16 => MemoryFormatBytes::B6,
            MemoryFormat::R16g16b16a16Premultiplied => MemoryFormatBytes::B8,
            MemoryFormat::R16g16b16a16 => MemoryFormatBytes::B8,
            MemoryFormat::R16g16b16Float => MemoryFormatBytes::B6,
            MemoryFormat::R16g16b16a16Float => MemoryFormatBytes::B8,
            MemoryFormat::R32g32b32Float => MemoryFormatBytes::B12,
            MemoryFormat::R32g32b32a32FloatPremultiplied => MemoryFormatBytes::B16,
            MemoryFormat::R32g32b32a32Float => MemoryFormatBytes::B16,
            MemoryFormat::G8a8Premultiplied => MemoryFormatBytes::B2,
            MemoryFormat::G8a8 => MemoryFormatBytes::B2,
            MemoryFormat::G8 => MemoryFormatBytes::B1,
            MemoryFormat::G16a16Premultiplied => MemoryFormatBytes::B4,
            MemoryFormat::G16a16 => MemoryFormatBytes::B4,
            MemoryFormat::G16 => MemoryFormatBytes::B2,
        }
    }

    fn n_channels(self) -> (r: u8) {
        match self {
            MemoryFormat::B8g8r8a8Premultiplied
            | MemoryFormat::A8r8g8b8Premultiplied
            | MemoryFormat::R8g8b8a8Premultiplied
            | MemoryFormat::B8g8r8a8
            | MemoryFormat::A8r8g8b8
            | MemoryFormat::R8g8b8a8
            | MemoryFormat::A8b8g8r8
            | MemoryFormat::R16g16b16a16Premultiplied
            | MemoryFormat::R16g16b16a16
            | MemoryFormat::R16g16b16a16Float
            | MemoryFormat::R32g32b32a32FloatPremultiplied
            | MemoryFormat::R32g32b32a32Float => 4,
            MemoryFormat::R8g8b8
            | MemoryFormat::B8g8r8
            | MemoryFormat::R16g16b16
            | MemoryFormat::R16g16b16Float
            | MemoryFormat::R32g32b32Float => 3,
            MemoryFormat::G8a8Premultiplied
            | MemoryFormat::G8a8
            | MemoryFormat::G16a16Premultiplied
            | MemoryFormat::G16a16 => 2,
            MemoryFormat::G8 | MemoryFormat::G16 => 1,
        }
    }
}

/// A memory format that may also be one of the source-only layouts a loader
/// can report but the host does not render.
#[derive(Debug, Clone, Copy, PartialEq, Eq, Structural)]
pub enum ExtendedMemoryFormat {
    Basic(MemoryFormat),
    Y8Cb8Cr8,
}

impl ExtendedMemoryFormat {
    /// The plain-format view of an extended format, if it has one.
    pub fn basic(self) -> (r: Option<MemoryFormat>)
        ensures
            r == (match self {
                ExtendedMemoryFormat::Basic(f) => Some(f),
                ExtendedMemoryFormat::Y8Cb8Cr8 => None::<MemoryFormat>,
            }),
    {
        match self {
            ExtendedMemoryFormat::Basic(f) => Some(f),
            ExtendedMemoryFormat::Y8Cb8Cr8 => None,
        }
    }
}

impl MemoryFormatInfo for ExtendedMemoryFormat {
    open spec fn spec_n_bytes(self) -> int {
        match self {
            ExtendedMemoryFormat::Basic(basic) => basic.spec_n_bytes(),
            ExtendedMemoryFormat::Y8Cb8Cr8 => 3,
        }
    }

    open spec fn spec_n_channels(self) -> int {
        match self {
            ExtendedMemoryFormat::Basic(basic) => basic.spec_n_channels(),
            ExtendedMemoryFormat::Y8Cb8Cr8 => 3,
        }
    }

    fn n_bytes(self) -> (r: MemoryFormatBytes) {
        match self {
            ExtendedMemoryFormat::Basic(basic) => basic.n_bytes(),
            ExtendedMemoryFormat::Y8Cb8Cr8 => MemoryFormatBytes::B3,
        }
    }

    fn n_channels(self) -> (r: u8) {
        match self {
            ExtendedMemoryFormat::Basic(basic) => basic.n_channels(),
            ExtendedMemoryFormat::Y8Cb8Cr8 => 3,
        }
    }
}

impl From<MemoryFormat> for ExtendedMemoryFormat {
    fn from(value: MemoryFormat) -> (r: Self) {
        ExtendedMemoryFormat::Basic(value)
    }
}

impl vstd::std_specs::convert::FromSpecImpl<MemoryFormat> for ExtendedMemoryFormat {
    open spec fn obeys_from_spec() -> bool {
        true
    }

    open spec fn from_spec(value: MemoryFormat) -> Self {
        ExtendedMemoryFormat::Basic(value)
    }
}

} // verus!
