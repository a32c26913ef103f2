use crate::device::{Command, DeviceState, Handle, ResourceKind};
use crate::error::GpuError;
use crate::format::Format;
use vstd::math::{max, min};
use vstd::prelude::*;

verus! {

/// Width and height of a surface or of a framebuffer, in pixels.
#[derive(Clone, Copy, Debug, PartialEq, Eq, Structural)]
pub struct Extent2D {
    pub width: u32,
    pub height: u32,
}

/// The size of an image in all three dimensions.
#[derive(Clone, Copy, Debug, PartialEq, Eq, Structural)]
pub struct Extent {
    pub width: u32,
    pub height: u32,
    pub depth: u32,
}

/// What a surface can do for a swapchain on it.
#[derive(Clone, Copy, Debug, PartialEq, Eq, Structural)]
pub struct SurfaceCapabilities {
    /// The least number of images that a swapchain on the surface has.
    pub min_image_count: u32,
    /// One more than the greatest number of images.
    pub end_image_count: u32,
    /// The size of the surface, where the surface decides it.
    pub current_extent: Option<Extent2D>,
    /// The least extent that a swapchain may have.
    pub min_extent: Extent2D,
    /// One more, in each dimension, than the greatest extent that a
    /// swapchain may have.
    pub end_extent: Extent2D,
    /// The greatest number of layers of an image of the swapchain.
    pub max_image_layers: u16,
    /// The usages that the images of a swapchain may be put to, one bit each.
    pub usage: u32,
    /// The ways of composing with the alpha channel that the surface knows,
    /// one bit each.
    pub composite_alpha: u32,
}

/// What a swapchain is created with.
#[derive(Clone, Copy, Debug, PartialEq, Eq, Structural)]
pub struct SwapchainConfig {
    pub format: Format,
    pub extent: Extent2D,
    pub image_count: u32,
    /// The one way of composing with the alpha channel that was chosen.
    pub composite_alpha: u32,
}

/// What the device handed out for a new swapchain to draw into.
#[derive(Clone, Copy, Debug, PartialEq, Eq, Structural)]
pub enum Backbuffer {
    /// A chain of this many colour images.
    Images(u32),
    /// A single framebuffer that the backend owns.
    Framebuffer,
}

/// Composite alpha bit: the alpha channel is ignored.
pub const COMPOSITE_OPAQUE: u32 = 0x1;

/// Composite alpha bit: the window system decides.
pub const COMPOSITE_INHERIT: u32 = 0x8;

/// The width asked for when nothing else is known.
pub const DEFAULT_WIDTH: u32 = 640;

/// The height asked for when nothing else is known.
pub const DEFAULT_HEIGHT: u32 = 480;

/// The swapchain on the surface, with the format and extent it was made for.
pub struct SwapchainState {
    pub(crate) swapchain: Handle,
    pub(crate) backbuffer: Option<Backbuffer>,
    pub(crate) extent: Extent,
    pub(crate) format: Format,
}

/// `index` is where the first sRGB format of the list stands.
pub open spec fn is_first_srgb(formats: Seq<Format>, index: int) -> bool {
    &&& 0 <= index < formats.len()
    &&& formats[index].is_srgb_spec()
    &&& forall|j: int| 0 <= j < index ==> !(#[trigger] formats[j]).is_srgb_spec()
}

/// The format of a swapchain on a surface that reports `formats`: the first
/// sRGB format if there is one, else the first format, and the default
/// colour format where the surface names none.
pub open spec fn select_format_spec(formats: Option<Seq<Format>>) -> Format {
    match formats {
        None => Format::color_spec(),
        Some(list) => if list.len() == 0 {
            Format::color_spec()
        } else if exists|i: int| is_first_srgb(list, i) {
            list[choose|i: int| is_first_srgb(list, i)]
        } else {
            list[0]
        },
    }
}

/// Only one index is that of the first sRGB format.
pub proof fn lemma_first_srgb_unique(formats: Seq<Format>, index: int)
    requires
        is_first_srgb(formats, index),
    ensures
        select_format_spec(Some(formats)) == formats[index],
{
    let chosen = choose|i: int| is_first_srgb(formats, i);
    assert(is_first_srgb(formats, chosen));
    if chosen < index {
        assert(!formats[chosen].is_srgb_spec());
    }
    if index < chosen {
        assert(!formats[index].is_srgb_spec());
    }
}

/// `value` raised to `low`, then lowered to `high`.
pub open spec fn clamp_spec(value: u32, low: u32, high: u32) -> u32 {
    min(high as int, max(value as int, low as int)) as u32
}

/// A swapchain can be configured for a surface with these capabilities:
/// where the surface leaves the extent open it allows at least one, and it
/// knows one of the two ways of composing that a configuration is made with.
pub open spec fn can_configure(caps: SurfaceCapabilities) -> bool {
    &&& caps.current_extent is None ==> caps.end_extent.width >= 1 && caps.end_extent.height >= 1
    &&& caps.composite_alpha & COMPOSITE_INHERIT == COMPOSITE_INHERIT || caps.composite_alpha
        & COMPOSITE_OPAQUE == COMPOSITE_OPAQUE
}

/// Whether a swapchain can be configured for a surface with these
/// capabilities.
pub fn can_configure_exec(caps: &SurfaceCapabilities) -> (r: bool)
    ensures
        r == can_configure(*caps),
{
    let extent_open = match caps.current_extent {
        Some(_) => false,
        None => true,
    };
    let extent_allowed = !extent_open || (caps.end_extent.width >= 1 && caps.end_extent.height
        >= 1);
    let composing_known = caps.composite_alpha & COMPOSITE_INHERIT == COMPOSITE_INHERIT
        || caps.composite_alpha & COMPOSITE_OPAQUE == COMPOSITE_OPAQUE;
    extent_allowed && composing_known
}

/// The extent of a swapchain on a surface with these capabilities when
/// `requested` is asked for.
pub open spec fn clamp_extent_spec(caps: SurfaceCapabilities, requested: Extent2D) -> Extent2D {
    match caps.current_extent {
        Some(current) => current,
        None => Extent2D {
            width: clamp_spec(
                requested.width,
                caps.min_extent.width,
                (caps.end_extent.width - 1) as u32,
            ),
            height: clamp_spec(
                requested.height,
                caps.min_extent.height,
                (caps.end_extent.height - 1) as u32,
            ),
        },
    }
}

/// The way of composing that a configuration is made with: what the window
/// system does where the surface knows that, else ignoring the alpha channel.
pub open spec fn composite_alpha_spec(caps: SurfaceCapabilities) -> u32 {
    if caps.composite_alpha & COMPOSITE_INHERIT == COMPOSITE_INHERIT {
        COMPOSITE_INHERIT
    } else {
        COMPOSITE_OPAQUE
    }
}

/// The configuration of a swapchain on a surface with these capabilities
/// and formats when `requested` is asked for.
pub open spec fn config_spec(
    caps: SurfaceCapabilities,
    formats: Option<Seq<Format>>,
    requested: Extent2D,
) -> SwapchainConfig {
    SwapchainConfig {
        format: select_format_spec(formats),
        extent: clamp_extent_spec(caps, requested),
        image_count: caps.min_image_count,
        composite_alpha: composite_alpha_spec(caps),
    }
}

/// Calls `gfx_hal::SwapchainConfig::from_caps` and returns the extent, the
/// image count and the composite alpha bits of the configuration it makes.
/// The contract says what the source of that function shows: the current
/// extent of the surface if it has one, else the requested extent raised to
/// the least and lowered to the greatest extent allowed; the least image
/// count; and `INHERIT` if the surface knows it, else `OPAQUE`. The format
/// handed over does not enter into any of the three.
#[verifier::external_body]
fn config_from_caps(caps: &SurfaceCapabilities, requested: Extent2D) -> (r: (Extent2D, u32, u32))
    requires
        can_configure(*caps),
    ensures
        r.0 == clamp_extent_spec(*caps, requested),
        r.1 == caps.min_image_count,
        r.2 == composite_alpha_spec(*caps),
{
    let extent = |e: Extent2D| gfx_hal::window::Extent2D { width: e.width, height: e.height };
    let capabilities = gfx_hal::SurfaceCapabilities {
        image_count: caps.min_image_count..caps.end_image_count,
        current_extent: caps.current_extent.map(extent),
        extents: extent(caps.min_extent)..extent(caps.end_extent),
        max_image_layers: caps.max_image_layers,
        usage: gfx_hal::image::Usage::from_bits_truncate(caps.usage),
        composite_alpha: gfx_hal::CompositeAlpha::from_bits_truncate(caps.composite_alpha),
    };
    let format = gfx_hal::format::Format::Rgba8Srgb;
    let config = gfx_hal::SwapchainConfig::from_caps(&capabilities, format, extent(requested));
    let chosen = Extent2D { width: config.extent.width, height: config.extent.height };
    (chosen, config.image_count, config.composite_alpha.bits())
}

/// Picks the format of the swapchain from what the surface reports.
pub fn select_format(formats: &Option<Vec<Format>>) -> (r: Format)
    ensures
        r == select_format_spec(
            match formats {
                Some(list) => Some(list@),
                None => None,
            },
        ),
{
    match formats {
        None => Format::color(),
        Some(list) => {
            if list.len() == 0 {
                return Format::color();
            }
            let mut i: usize = 0;
            while i < list.len()
                invariant
                    i <= list@.len(),
                    *formats == Some(*list),
                    forall|j: int| 0 <= j < i ==> !(#[trigger] list@[j]).is_srgb_spec(),
                decreases list@.len() - i,
            {
                if list[i].is_srgb() {
                    proof {
                        lemma_first_srgb_unique(list@, i as int);
                    }
                    return list[i];
                }
                i += 1;
            }
            list[0]
        },
    }
}

impl SwapchainState {
    pub open(crate) spec fn swapchain(&self) -> Handle {
        self.swapchain
    }

    pub open(crate) spec fn backbuffer(&self) -> Option<Backbuffer> {
        self.backbuffer
    }

    pub open(crate) spec fn extent(&self) -> Extent {
        self.extent
    }

    pub open(crate) spec fn format(&self) -> Format {
        self.format
    }

    /// Configures a swapchain for the surface and names it. `previous` is
    /// the swapchain that the new one takes the surface over from.
    pub fn new(
        device: &mut DeviceState,
        caps: &SurfaceCapabilities,
        formats: &Option<Vec<Format>>,
        frame_extent: Extent2D,
        previous: Option<Handle>,
    ) -> (r: Result<(SwapchainState, Command), GpuError>)
        requires
            old(device).has_room(1),
        ensures
            final(device).queue_family() == old(device).queue_family(),
            match r {
                Ok((state, command)) => {
                    let config = config_spec(
                        *caps,
                        match formats {
                            Some(list) => Some(list@),
                            None => None,
                        },
                        frame_extent,
                    );
                    &&& can_configure(*caps)
                    &&& state.swapchain() == Handle(old(device).next_handle())
                    &&& state.backbuffer() is None
                    &&& state.format() == config.format
                    &&& state.extent() == (Extent {
                        width: config.extent.width,
                        height: config.extent.height,
                        depth: 1,
                    })
                    &&& command == (Command::CreateSwapchain {
                        swapchain: state.swapchain(),
                        config,
                        previous,
                    })
                    &&& final(device).next_handle() == old(device).next_handle() + 1
                },
                Err(e) => {
                    &&& e == GpuError::Configuration
                    &&& !can_configure(*caps)
                    &&& final(device).next_handle() == old(device).next_handle()
                },
            },
    {
        let format = select_format(formats);
        if !can_configure_exec(caps) {
            return Err(GpuError::Configuration);
        }
        let (extent, image_count, composite_alpha) = config_from_caps(caps, frame_extent);
        let config = SwapchainConfig { format, extent, image_count, composite_alpha };
        let swapchain = device.allocate(1);
        let state = SwapchainState {
            swapchain,
            backbuffer: None,
            extent: Extent { width: extent.width, height: extent.height, depth: 1 },
            format,
        };
        Ok((state, Command::CreateSwapchain { swapchain, config, previous }))
    }

    /// Records what the device handed out when it created the swapchain.
    pub fn attach_backbuffer(&mut self, backbuffer: Backbuffer)
        ensures
            final(self).backbuffer() == Some(backbuffer),
            final(self).swapchain() == old(self).swapchain(),
            final(self).extent() == old(self).extent(),
            final(self).format() == old(self).format(),
    {
        self.backbuffer = Some(backbuffer);
    }

    /// Hands the backbuffer on and keeps none.
    pub fn take_backbuffer(&mut self) -> (r: Option<Backbuffer>)
        ensures
            r == old(self).backbuffer(),
            final(self).backbuffer() is None,
            final(self).swapchain() == old(self).swapchain(),
            final(self).extent() == old(self).extent(),
            final(self).format() == old(self).format(),
    {
        let backbuffer = self.backbuffer;
        self.backbuffer = None;
        backbuffer
    }

    pub fn get_swapchain(&self) -> (r: Handle)
        ensures
            r == self.swapchain(),
    {
        self.swapchain
    }

    pub fn get_extent(&self) -> (r: Extent)
        ensures
            r == self.extent(),
    {
        self.extent
    }

    pub fn get_format(&self) -> (r: Format)
        ensures
            r == self.format(),
    {
        self.format
    }

    /// Destroys the swapchain.
    pub fn destroy(self) -> (r: Command)
        ensures
            r == (Command::Destroy { kind: ResourceKind::Swapchain, handle: self.swapchain() }),
    {
        Command::Destroy { kind: ResourceKind::Swapchain, handle: self.swapchain }
    }
}

} // verus!
