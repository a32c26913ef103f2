use vstd::prelude::*;

verus! {

/// How the bits of a channel are read.
#[derive(Clone, Copy, Debug, PartialEq, Eq, Structural)]
pub enum ChannelType {
    Unorm,
    Snorm,
    Uint,
    Sint,
    Ufloat,
    Sfloat,
    Uscaled,
    Sscaled,
    Srgb,
}

/// A texel format: the number the backend knows it by, and how its
/// channels are read.
#[derive(Clone, Copy, Debug, PartialEq, Eq, Structural)]
pub struct Format {
    pub code: u32,
    pub channel: ChannelType,
}

/// Code of the 8-bit RGBA format with sRGB encoding.
pub const RGBA8_SRGB: u32 = 43;

/// Code of the format of two 32-bit floats.
pub const RG32_SFLOAT: u32 = 103;

/// Code of the format of three 32-bit floats.
pub const RGB32_SFLOAT: u32 = 106;

/// Code of the 32-bit float depth format.
pub const D32_SFLOAT: u32 = 126;

/// Aspect bit of the colour planes of an image.
pub const ASPECT_COLOR: u8 = 0x1;

/// Aspect bit of the depth plane of an image.
pub const ASPECT_DEPTH: u8 = 0x2;

/// Aspect bit of the stencil plane of an image.
pub const ASPECT_STENCIL: u8 = 0x4;

impl Format {
    /// The format that colour images and views use when nothing else is asked for.
    pub open spec fn color_spec() -> Format {
        Format { code: RGBA8_SRGB, channel: ChannelType::Srgb }
    }

    #[verifier::when_used_as_spec(color_spec)]
    pub fn color() -> (r: Format)
        ensures
            r == Format::color_spec(),
    {
        Format { code: RGBA8_SRGB, channel: ChannelType::Srgb }
    }

    /// The format of depth images.
    pub open spec fn depth_spec() -> Format {
        Format { code: D32_SFLOAT, channel: ChannelType::Sfloat }
    }

    #[verifier::when_used_as_spec(depth_spec)]
    pub fn depth() -> (r: Format)
        ensures
            r == Format::depth_spec(),
    {
        Format { code: D32_SFLOAT, channel: ChannelType::Sfloat }
    }

    pub open spec fn is_srgb_spec(self) -> bool {
        self.channel == ChannelType::Srgb
    }

    /// The channels are sRGB encoded.
    #[verifier::when_used_as_spec(is_srgb_spec)]
    pub fn is_srgb(self) -> (r: bool)
        ensures
            r == self.is_srgb_spec(),
    {
        match self.channel {
            ChannelType::Srgb => true,
            _ => false,
        }
    }
}

} // verus!
