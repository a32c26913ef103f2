use crate::adapter::AdapterState;
use crate::buffer::BufferState;
use crate::device::{Command, DeviceState, Handle, ResourceKind};
use crate::error::GpuError;
use crate::format::{Format, ASPECT_DEPTH};
use crate::memory::{first_fit, MemoryTypeId, Properties, Requirements, DEVICE_LOCAL};
use crate::swapchain::Extent;
use std::ops::Range;
use vstd::arithmetic::div_mod::lemma_fundamental_div_mod;
use vstd::arithmetic::power2::{lemma2_to64, lemma_pow2_pos, lemma_pow2_strictly_increases, pow2};
use vstd::bits::{lemma_u32_low_bits_mask_is_mod, low_bits_mask};
use vstd::prelude::*;

verus! {

/// The number of bytes per pixel of an RGBA image.
pub const RGBA_IMAGE_STRIDE: usize = 4;

/// Shape of an image as the device sees it.
#[derive(Clone, Copy, Debug, PartialEq, Eq, Structural)]
pub enum Kind {
    /// Width and number of layers.
    D1(u32, u16),
    /// Width, height, number of layers and samples per pixel.
    D2(u32, u32, u16, u8),
    /// Width, height and depth.
    D3(u32, u32, u32),
}

/// The arrangement of an image in memory, which decides what may be done
/// with it.
#[derive(Clone, Copy, Debug, PartialEq, Eq, Structural)]
pub enum Layout {
    General,
    ColorAttachmentOptimal,
    DepthStencilAttachmentOptimal,
    DepthStencilReadOnlyOptimal,
    ShaderReadOnlyOptimal,
    TransferSrcOptimal,
    TransferDstOptimal,
    Undefined,
    Preinitialized,
    Present,
}

/// Byte length of `width` tightly packed RGBA pixels.
pub open spec fn tight_row_size(width: u32) -> int {
    width as int * RGBA_IMAGE_STRIDE as int
}

/// `mask` is one less than a power of two, as the mask of an alignment is.
pub open spec fn is_alignment_mask(mask: u32) -> bool {
    exists|k: nat| k < 32 && mask as nat == #[trigger] low_bits_mask(k)
}

/// The byte stride between two rows once each row starts on a multiple of
/// `row_alignment_mask + 1`.
pub open spec fn row_pitch_spec(width: u32, row_alignment_mask: u32) -> int {
    let total = tight_row_size(width) + row_alignment_mask;
    let alignment = row_alignment_mask + 1;
    (total / alignment) * alignment
}

/// A decoded RGBA8 image: `height` rows of `width` pixels, four bytes each,
/// rows packed without padding.
pub struct Image {
    pub(crate) width: u32,
    pub(crate) height: u32,
    pub(crate) pixels: Vec<u8>,
    pub(crate) kind: Kind,
}

pub type Texture = Image;

impl Image {
    #[verifier::type_invariant]
    pub open(crate) spec fn wf(&self) -> bool {
        &&& self.pixels@.len() == self.width as int * self.height as int * 4
        &&& self.kind == Kind::D2(self.width, self.height, 1, 1)
    }

    pub open(crate) spec fn width(&self) -> u32 {
        self.width
    }

    pub open(crate) spec fn height(&self) -> u32 {
        self.height
    }

    pub open(crate) spec fn pixels(&self) -> Seq<u8> {
        self.pixels@
    }

    /// Takes `pixels` as the rows of a `width` by `height` RGBA8 image.
    /// The length of `pixels` decides whether that is possible.
    pub fn from_rgba8(width: u32, height: u32, pixels: Vec<u8>) -> (r: Result<Image, GpuError>)
        ensures
            match r {
                Ok(image) => {
                    &&& pixels@.len() == width as int * height as int * 4
                    &&& image.wf()
                    &&& image.width() == width
                    &&& image.height() == height
                    &&& image.pixels() == pixels@
                },
                Err(e) => {
                    &&& e == GpuError::Asset
                    &&& pixels@.len() != width as int * height as int * 4
                },
            },
    {
        assert(width as int * height as int <= 0xFFFF_FFFF * 0xFFFF_FFFF) by (nonlinear_arith)
            requires
                0 <= width <= 0xFFFF_FFFF,
                0 <= height <= 0xFFFF_FFFF,
        ;
        let area: u64 = (width as u64) * (height as u64);
        let len: u64 = pixels.len() as u64;
        if len % 4 == 0 && len / 4 == area {
            Ok(Image { width, height, pixels, kind: Kind::D2(width, height, 1, 1) })
        } else {
            Err(GpuError::Asset)
        }
    }

    /// The pixel bytes, row after row.
    pub fn get_image(&self) -> (r: &Vec<u8>)
        ensures
            r@ == self.pixels(),
            r@.len() == self.width() as int * self.height() as int * 4,
    {
        proof {
            use_type_invariant(self);
        }
        &self.pixels
    }

    pub fn get_kind(&self) -> (r: &Kind)
        ensures
            *r == Kind::D2(self.width(), self.height(), 1, 1),
    {
        proof {
            use_type_invariant(self);
        }
        &self.kind
    }

    /// Width and height in pixels.
    pub fn get_dimensions(&self) -> (r: (u32, u32))
        ensures
            r == (self.width(), self.height()),
    {
        (self.width, self.height)
    }

    /// The stride in bytes between the starts of two rows in a buffer whose
    /// rows must start on multiples of `row_alignment_mask + 1`.
    pub fn row_pitch(&self, row_alignment_mask: u32) -> (r: u32)
        requires
            tight_row_size(self.width()) + row_alignment_mask <= u32::MAX,
        ensures
            r == (((self.width() * 4) as u32 + row_alignment_mask) as u32) & !row_alignment_mask,
            is_alignment_mask(row_alignment_mask) ==> r == row_pitch_spec(
                self.width(),
                row_alignment_mask,
            ),
    {
        let tight: u32 = self.width * (RGBA_IMAGE_STRIDE as u32);
        let r: u32 = (tight + row_alignment_mask) & !row_alignment_mask;
        proof {
            lemma_align_up(tight, row_alignment_mask);
        }
        r
    }

    /// The bytes of `get_image` that hold the row of index `row_index`.
    pub fn row_range(&self, row_index: usize) -> (r: Range<usize>)
        requires
            (row_index + 1) * tight_row_size(self.width()) <= usize::MAX,
        ensures
            r.start == row_index * tight_row_size(self.width()),
            r.end == (row_index + 1) * tight_row_size(self.width()),
    {
        let width: usize = self.width as usize;
        assert(width * 4 <= (row_index + 1) * (width * 4) && row_index * (width * 4) + width * 4
            == (row_index + 1) * (width * 4)) by (nonlinear_arith)
            requires
                0 <= row_index,
                0 <= width,
        ;
        let row: usize = width * RGBA_IMAGE_STRIDE;
        let row_index_start: usize = row_index * row;
        let row_index_end: usize = row_index_start + row;
        row_index_start..row_index_end
    }

    /// The size in bytes of a buffer that holds every row at its pitch, for
    /// every mask: there is none where a padded row does not fit 32 bits.
    /// The image is left as it was, and the same mask gives the same size.
    pub fn checked_upload_size(&self, row_alignment_mask: u32) -> (r: Option<u64>)
        ensures
            r == if tight_row_size(self.width()) + row_alignment_mask <= u32::MAX {
                Some(
                    upload_size_spec(self.width(), self.height(), row_alignment_mask) as u64,
                )
            } else {
                None
            },
            r matches Some(size) ==> size == upload_size_spec(
                self.width(),
                self.height(),
                row_alignment_mask,
            ),
    {
        if (self.width as u64) * 4 + (row_alignment_mask as u64) > u32::MAX as u64 {
            None
        } else {
            Some(self.get_upload_size(row_alignment_mask))
        }
    }

    /// The size in bytes of a buffer that holds every row at its pitch.
    pub fn get_upload_size(&self, row_alignment_mask: u32) -> (r: u64)
        requires
            tight_row_size(self.width()) + row_alignment_mask <= u32::MAX,
        ensures
            r == upload_size_spec(self.width(), self.height(), row_alignment_mask),
    {
        let row_pitch: u32 = self.row_pitch(row_alignment_mask);
        assert(self.height as int * row_pitch as int <= 0xFFFF_FFFF * 0xFFFF_FFFF) by (
            nonlinear_arith)
            requires
                0 <= self.height <= 0xFFFF_FFFF,
                0 <= row_pitch <= 0xFFFF_FFFF,
        ;
        (self.height as u64) * (row_pitch as u64)
    }
}

/// The pitch of a row as the bit operations compute it.
pub open spec fn masked_row_pitch(width: u32, row_alignment_mask: u32) -> u32 {
    (((width * 4) as u32 + row_alignment_mask) as u32) & !row_alignment_mask
}

/// Bytes needed for `height` rows at the pitch of `masked_row_pitch`.
pub open spec fn upload_size_spec(width: u32, height: u32, row_alignment_mask: u32) -> int {
    height as int * masked_row_pitch(width, row_alignment_mask) as int
}

/// For the mask of a power-of-two alignment, adding the mask and clearing
/// its bits rounds up to the next multiple of the alignment.
pub proof fn lemma_align_up(size: u32, mask: u32)
    requires
        size + mask <= u32::MAX,
    ensures
        is_alignment_mask(mask) ==> (((size + mask) as u32) & !mask) as int == ((size + mask) / (
        mask + 1)) * (mask + 1),
{
    if is_alignment_mask(mask) {
        let k = choose|k: nat| k < 32 && mask as nat == #[trigger] low_bits_mask(k);
        let t: u32 = (size + mask) as u32;
        let a: int = mask + 1;
        assert((t & !mask) + (t & mask) == t) by (bit_vector);
        lemma_u32_low_bits_mask_is_mod(t, k);
        lemma_pow2_pos(k);
        lemma_pow2_strictly_increases(k, 32);
        lemma2_to64();
        assert(pow2(k) == a);
        assert(t & mask == t as int % a);
        lemma_fundamental_div_mod(t as int, a);
        assert(a * (t as int / a) == (t as int / a) * a) by (nonlinear_arith);
    }
}

pub struct Loader;

impl Loader {
    /// Makes an image of what a decoder read from a file: `pixels` are the
    /// rows of a `width` by `height` RGBA8 image. There is no image where
    /// `pixels` does not have four bytes for each pixel.
    pub fn from_rgba8(width: u32, height: u32, pixels: Vec<u8>) -> (r: Option<Image>)
        ensures
            match r {
                Some(image) => {
                    &&& pixels@.len() == width as int * height as int * 4
                    &&& image.wf()
                    &&& image.width() == width
                    &&& image.height() == height
                    &&& image.pixels() == pixels@
                },
                None => pixels@.len() != width as int * height as int * 4,
            },
    {
        match Image::from_rgba8(width, height, pixels) {
            Ok(image) => Some(image),
            Err(_) => None,
        }
    }
}

/// Usage bit of an image that a transfer writes to.
pub const USAGE_TRANSFER_DST: u32 = 0x2;

/// Usage bit of an image that shaders sample.
pub const USAGE_SAMPLED: u32 = 0x4;

/// Usage bit of an image that serves as depth or stencil attachment.
pub const USAGE_DEPTH_STENCIL_ATTACHMENT: u32 = 0x20;

/// Access bit of a read by a shader.
pub const ACCESS_SHADER_READ: u32 = 0x20;

/// Access bit of a write by a transfer.
pub const ACCESS_TRANSFER_WRITE: u32 = 0x1000;

/// Pipeline stage bit of the start of the pipeline.
pub const STAGE_TOP_OF_PIPE: u32 = 0x1;

/// Pipeline stage bit of the fragment shader.
pub const STAGE_FRAGMENT_SHADER: u32 = 0x80;

/// Pipeline stage bit of transfers.
pub const STAGE_TRANSFER: u32 = 0x1000;

/// Number of mip levels of every image that is created here.
pub const MIP_LEVELS: u8 = 1;

/// An image that has a name but no memory yet: the device has to say what
/// memory it asks for.
#[derive(Clone, Copy, Debug, PartialEq, Eq, Structural)]
pub struct PendingImage {
    pub image: Handle,
    pub kind: Kind,
    pub format: Format,
    pub usage: u32,
}

/// A device-local image with its memory and a view of it.
#[derive(Clone, Copy, Debug, PartialEq, Eq, Structural)]
pub struct ImageResourceState {
    pub(crate) image: Handle,
    pub(crate) image_view: Handle,
    pub(crate) memory: Handle,
}

/// What the device is told once the memory type of a new image is known.
/// The view is made in the default colour format.
pub open spec fn image_bind_commands(
    pending: PendingImage,
    memory: Handle,
    view: Handle,
    memory_type: MemoryTypeId,
    requirements: Requirements,
    aspects: u8,
) -> Seq<Command> {
    seq![
        Command::AllocateMemory { memory, memory_type, size: requirements.size },
        Command::BindImageMemory { memory, image: pending.image },
        Command::CreateImageView {
            view,
            image: pending.image,
            format: Format::color_spec(),
            aspects,
        },
    ]
}

impl ImageResourceState {
    pub open(crate) spec fn image(&self) -> Handle {
        self.image
    }

    pub open(crate) spec fn image_view(&self) -> Handle {
        self.image_view
    }

    pub open(crate) spec fn memory(&self) -> Handle {
        self.memory
    }

    /// Names an image of this kind, format and usage, with optimal tiling.
    pub fn create(device: &mut DeviceState, kind: &Kind, usage: u32, format: Format) -> (r: (
        PendingImage,
        Command,
    ))
        requires
            old(device).has_room(1),
        ensures
            r.0 == (PendingImage {
                image: Handle(old(device).next_handle()),
                kind: *kind,
                format,
                usage,
            }),
            r.1 == (Command::CreateImage {
                image: r.0.image,
                kind: *kind,
                mip_levels: MIP_LEVELS,
                format,
                usage,
            }),
            final(device).next_handle() == old(device).next_handle() + 1,
            final(device).queue_family() == old(device).queue_family(),
    {
        let image = device.allocate(1);
        (
            PendingImage { image, kind: *kind, format, usage },
            Command::CreateImage { image, kind: *kind, mip_levels: MIP_LEVELS, format, usage },
        )
    }

    /// Gives the pending image device-local memory of the first type that
    /// the device allows for it, and names a view of the aspects asked for.
    pub fn new(
        device: &mut DeviceState,
        pending: PendingImage,
        adapter_state: &AdapterState,
        aspects: u8,
        requirements: &Requirements,
    ) -> (r: Result<(ImageResourceState, Vec<Command>), GpuError>)
        requires
            old(device).has_room(2),
        ensures
            final(device).queue_family() == old(device).queue_family(),
            match r {
                Ok((state, commands)) => {
                    &&& state.image() == pending.image
                    &&& state.memory() == Handle(old(device).next_handle())
                    &&& state.image_view() == Handle((old(device).next_handle() + 1) as u64)
                    &&& first_fit(
                        adapter_state.mem_types@,
                        requirements.type_mask,
                        Properties { bits: DEVICE_LOCAL },
                    ) is Some
                    &&& commands@ == image_bind_commands(
                        pending,
                        state.memory(),
                        state.image_view(),
                        MemoryTypeId(
                            first_fit(
                                adapter_state.mem_types@,
                                requirements.type_mask,
                                Properties { bits: DEVICE_LOCAL },
                            )->0 as usize,
                        ),
                        *requirements,
                        aspects,
                    )
                    &&& final(device).next_handle() == old(device).next_handle() + 2
                },
                Err(e) => {
                    &&& e == GpuError::NoCompatibleMemoryType
                    &&& first_fit(
                        adapter_state.mem_types@,
                        requirements.type_mask,
                        Properties { bits: DEVICE_LOCAL },
                    ) is None
                    &&& final(device).next_handle() == old(device).next_handle()
                },
            },
    {
        let property = Properties::from_bits(DEVICE_LOCAL);
        let memory_type = match BufferState::find_buffer_memory(
            adapter_state.mem_types.as_slice(),
            requirements,
            property,
        ) {
            Ok(id) => id,
            Err(e) => {
                return Err(e);
            },
        };
        let memory = device.allocate(1);
        let view = device.allocate(1);
        let mut commands: Vec<Command> = Vec::new();
        commands.push(Command::AllocateMemory { memory, memory_type, size: requirements.size });
        commands.push(Command::BindImageMemory { memory, image: pending.image });
        commands.push(
            Command::CreateImageView {
                view,
                image: pending.image,
                format: Format::color(),
                aspects,
            },
        );
        Ok((ImageResourceState { image: pending.image, image_view: view, memory }, commands))
    }

    pub fn get_image(&self) -> (r: Handle)
        ensures
            r == self.image(),
    {
        self.image
    }

    pub fn get_image_view(&self) -> (r: &Handle)
        ensures
            *r == self.image_view(),
    {
        &self.image_view
    }

    /// Destroys the view, then the image, then frees the memory.
    pub fn destroy(self) -> (r: Vec<Command>)
        ensures
            r@ == seq![
                Command::Destroy { kind: ResourceKind::ImageView, handle: self.image_view() },
                Command::Destroy { kind: ResourceKind::Image, handle: self.image() },
                Command::Destroy { kind: ResourceKind::Memory, handle: self.memory() },
            ],
    {
        let mut commands: Vec<Command> = Vec::new();
        commands.push(Command::Destroy { kind: ResourceKind::ImageView, handle: self.image_view });
        commands.push(Command::Destroy { kind: ResourceKind::Image, handle: self.image });
        commands.push(Command::Destroy { kind: ResourceKind::Memory, handle: self.memory });
        commands
    }
}

/// The depth image of a framebuffer.
#[derive(Clone, Copy, Debug, PartialEq, Eq, Structural)]
pub struct DepthImageState {
    pub(crate) image_resource_state: ImageResourceState,
}

impl DepthImageState {
    pub open(crate) spec fn image_resource_state(&self) -> ImageResourceState {
        self.image_resource_state
    }

    /// Names a depth image that covers `extent`.
    pub fn create(device: &mut DeviceState, extent: Extent) -> (r: (PendingImage, Command))
        requires
            old(device).has_room(1),
        ensures
            r.0 == (PendingImage {
                image: Handle(old(device).next_handle()),
                kind: Kind::D2(extent.width, extent.height, 1, 1),
                format: Format::depth_spec(),
                usage: USAGE_DEPTH_STENCIL_ATTACHMENT,
            }),
            r.1 == (Command::CreateImage {
                image: r.0.image,
                kind: r.0.kind,
                mip_levels: MIP_LEVELS,
                format: r.0.format,
                usage: r.0.usage,
            }),
            final(device).next_handle() == old(device).next_handle() + 1,
            final(device).queue_family() == old(device).queue_family(),
    {
        let depth_kind = Kind::D2(extent.width, extent.height, 1, 1);
        ImageResourceState::create(
            device,
            &depth_kind,
            USAGE_DEPTH_STENCIL_ATTACHMENT,
            Format::depth(),
        )
    }

    /// Gives the pending depth image its memory and a view of its depth
    /// aspect.
    pub fn new(
        device: &mut DeviceState,
        pending: PendingImage,
        adapter_state: &AdapterState,
        requirements: &Requirements,
    ) -> (r: Result<(DepthImageState, Vec<Command>), GpuError>)
        requires
            old(device).has_room(2),
        ensures
            final(device).queue_family() == old(device).queue_family(),
            match r {
                Ok((state, commands)) => {
                    &&& state.image_resource_state().image() == pending.image
                    &&& state.image_resource_state().memory() == Handle(old(device).next_handle())
                    &&& state.image_resource_state().image_view() == Handle(
                        (old(device).next_handle() + 1) as u64,
                    )
                    &&& first_fit(
                        adapter_state.mem_types@,
                        requirements.type_mask,
                        Properties { bits: DEVICE_LOCAL },
                    ) is Some
                    &&& commands@ == image_bind_commands(
                        pending,
                        state.image_resource_state().memory(),
                        state.image_resource_state().image_view(),
                        MemoryTypeId(
                            first_fit(
                                adapter_state.mem_types@,
                                requirements.type_mask,
                                Properties { bits: DEVICE_LOCAL },
                            )->0 as usize,
                        ),
                        *requirements,
                        ASPECT_DEPTH,
                    )
                    &&& final(device).next_handle() == old(device).next_handle() + 2
                },
                Err(e) => {
                    &&& e == GpuError::NoCompatibleMemoryType
                    &&& first_fit(
                        adapter_state.mem_types@,
                        requirements.type_mask,
                        Properties { bits: DEVICE_LOCAL },
                    ) is None
                    &&& final(device).next_handle() == old(device).next_handle()
                },
            },
    {
        match ImageResourceState::new(device, pending, adapter_state, ASPECT_DEPTH, requirements) {
            Ok((image_resource_state, commands)) => Ok(
                (DepthImageState { image_resource_state }, commands),
            ),
            Err(e) => Err(e),
        }
    }

    pub fn get_image_view(&self) -> (r: Option<&Handle>)
        ensures
            r == Some(&self.image_resource_state().image_view()),
    {
        Some(&self.image_resource_state.image_view)
    }
}

} // verus!
