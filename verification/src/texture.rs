use crate::adapter::AdapterState;
use crate::buffer::{
    bind_commands, row_mask, rows_fit, staged_rows, BufferState, PendingBuffer, USAGE_TRANSFER_SRC,
};
use crate::descriptor::{
    write_command, write_is_declared, DescriptorSet, DescriptorSetLayout, DescriptorSetWrite,
};
use crate::device::{Command, Descriptor, DeviceState, Handle, ResourceKind};
use crate::error::GpuError;
use crate::format::{Format, ASPECT_COLOR};
use crate::image::{
    image_bind_commands, masked_row_pitch, upload_size_spec, Image, ImageResourceState, Layout,
    PendingImage, ACCESS_SHADER_READ, ACCESS_TRANSFER_WRITE, MIP_LEVELS, STAGE_FRAGMENT_SHADER,
    STAGE_TOP_OF_PIPE, STAGE_TRANSFER, USAGE_SAMPLED, USAGE_TRANSFER_DST,
};
use crate::memory::{first_fit, MemoryTypeId, Properties, Requirements, CPU_VISIBLE, DEVICE_LOCAL};
use vstd::prelude::*;

verus! {

/// The staging buffer and the image of a texture, both named and neither
/// with memory yet.
#[derive(Clone, Copy, Debug, PartialEq, Eq, Structural)]
pub struct PendingTexture {
    pub buffer: PendingBuffer,
    pub image: PendingImage,
}

/// A texture on the device: the image with its view and sampler, the set
/// that they are written into, the staging buffer that the pixels came
/// through, and the fence of the transfer.
pub struct ImageState {
    pub(crate) descriptor_set: DescriptorSet,
    pub(crate) sampler: Handle,
    pub(crate) buffer_state: BufferState,
    pub(crate) image_resource_state: ImageResourceState,
    pub(crate) image_fence: Handle,
}

pub type TextureImageState = ImageState;

/// A texture that is loaded on its own, named and without memory: its
/// descriptor pool and set, the pool that its transfer is recorded from,
/// and its staging buffer and image.
pub struct PendingLoad {
    pub(crate) descriptor_pool: Handle,
    pub(crate) descriptor_set: DescriptorSet,
    pub(crate) staging_pool: Handle,
    pub(crate) texture: PendingTexture,
}

impl PendingLoad {
    pub open(crate) spec fn descriptor_pool(&self) -> Handle {
        self.descriptor_pool
    }

    pub open(crate) spec fn descriptor_set(&self) -> DescriptorSet {
        self.descriptor_set
    }

    pub open(crate) spec fn staging_pool(&self) -> Handle {
        self.staging_pool
    }

    pub open(crate) spec fn texture(&self) -> PendingTexture {
        self.texture
    }

    /// The staging buffer and the image, for which the device has to say
    /// what memory they ask for.
    pub fn get_texture(&self) -> (r: PendingTexture)
        ensures
            r == self.texture(),
    {
        self.texture
    }

    /// The descriptor pool of the texture, which the caller destroys when
    /// the texture is gone.
    pub fn get_descriptor_pool(&self) -> (r: Handle)
        ensures
            r == self.descriptor_pool(),
    {
        self.descriptor_pool
    }
}

/// The write that puts the view of a texture into binding 0.
pub open spec fn image_write(view: Handle) -> DescriptorSetWrite {
    DescriptorSetWrite {
        binding: 0,
        array_offset: 0,
        descriptor: Descriptor::Image(view, Layout::Undefined),
    }
}

/// The write that puts the sampler of a texture into binding 1.
pub open spec fn sampler_write(sampler: Handle) -> DescriptorSetWrite {
    DescriptorSetWrite { binding: 1, array_offset: 0, descriptor: Descriptor::Sampler(sampler) }
}

/// The transfer of the staged pixels into the image: the image becomes a
/// transfer destination, the buffer is copied as `height` rows at its pitch, the
/// image becomes readable by shaders, and the fence is signalled when the
/// queue is through.
pub open spec fn transfer_commands(
    pool: Handle,
    buffer: Handle,
    image: Handle,
    fence: Handle,
    width: u32,
    height: u32,
    row_pitch: u32,
) -> Seq<Command> {
    seq![
        Command::BeginCommands { pool },
        Command::ImageBarrier {
            image,
            from_access: 0,
            from_layout: Layout::Undefined,
            to_access: ACCESS_TRANSFER_WRITE,
            to_layout: Layout::TransferDstOptimal,
            from_stage: STAGE_TOP_OF_PIPE,
            to_stage: STAGE_TRANSFER,
        },
        Command::CopyBufferToImage {
            buffer,
            image,
            layout: Layout::TransferDstOptimal,
            buffer_width: row_pitch / 4,
            buffer_height: height,
            width,
            height,
        },
        Command::ImageBarrier {
            image,
            from_access: ACCESS_TRANSFER_WRITE,
            from_layout: Layout::TransferDstOptimal,
            to_access: ACCESS_SHADER_READ,
            to_layout: Layout::ShaderReadOnlyOptimal,
            from_stage: STAGE_TRANSFER,
            to_stage: STAGE_FRAGMENT_SHADER,
        },
        Command::FinishCommands,
        Command::SubmitTransfer { fence },
    ]
}

/// What is told the device to put a texture on it, when the handles that
/// this takes start at `first`: memory for the staging buffer, which is
/// filled with the staged rows; memory for the image and a view of it; the
/// sampler; the two descriptor writes into `set`; the fence, not signalled;
/// and the transfer, recorded from `staging_pool`.
pub open spec fn texture_commands(
    adapter_state: AdapterState,
    pending: PendingTexture,
    first: int,
    set: Handle,
    staging_pool: Handle,
    width: u32,
    height: u32,
    buffer_requirements: Requirements,
    image_requirements: Requirements,
) -> Seq<Command> {
    let pitch = masked_row_pitch(width, row_mask(adapter_state.limits));
    let memory = Handle(first as u64);
    let image_memory = Handle((first + 1) as u64);
    let view = Handle((first + 2) as u64);
    let sampler = Handle((first + 3) as u64);
    let fence = Handle((first + 4) as u64);
    bind_commands(
        PendingBuffer { size: (height * pitch) as u64, ..pending.buffer },
        memory,
        MemoryTypeId(
            first_fit(
                adapter_state.mem_types@,
                buffer_requirements.type_mask,
                Properties { bits: CPU_VISIBLE },
            )->0 as usize,
        ),
        buffer_requirements,
    ) + image_bind_commands(
        pending.image,
        image_memory,
        view,
        MemoryTypeId(
            first_fit(
                adapter_state.mem_types@,
                image_requirements.type_mask,
                Properties { bits: DEVICE_LOCAL },
            )->0 as usize,
        ),
        image_requirements,
        ASPECT_COLOR,
    ) + seq![
        Command::CreateSampler { sampler },
        write_command(set, image_write(view)),
        write_command(set, sampler_write(sampler)),
        Command::CreateFence { fence, signaled: false },
    ] + transfer_commands(
        staging_pool,
        pending.buffer.buffer,
        pending.image.image,
        fence,
        width,
        height,
        pitch,
    )
}

/// Why a texture cannot be put on the device, if it cannot: the first of
/// the checks that fails, in the order in which `ImageState::new` makes them.
pub open spec fn texture_error(
    adapter_state: AdapterState,
    width: u32,
    height: u32,
    bindings: Seq<crate::descriptor::DescriptorSetLayoutBinding>,
    buffer_requirements: Requirements,
    image_requirements: Requirements,
) -> Option<GpuError> {
    if !adapter_state.limits.has_row_alignment() {
        Some(GpuError::Configuration)
    } else if !rows_fit(adapter_state.limits, width) || upload_size_spec(
        width,
        height,
        row_mask(adapter_state.limits),
    ) > usize::MAX {
        Some(GpuError::SizeOverflow)
    } else if first_fit(
        adapter_state.mem_types@,
        buffer_requirements.type_mask,
        Properties { bits: CPU_VISIBLE },
    ) is None || first_fit(
        adapter_state.mem_types@,
        image_requirements.type_mask,
        Properties { bits: DEVICE_LOCAL },
    ) is None {
        Some(GpuError::NoCompatibleMemoryType)
    } else if !write_is_declared(bindings, image_write(Handle(0))) || !write_is_declared(
        bindings,
        sampler_write(Handle(0)),
    ) {
        Some(GpuError::Configuration)
    } else {
        None
    }
}

impl ImageState {
    pub open(crate) spec fn descriptor_set(&self) -> DescriptorSet {
        self.descriptor_set
    }

    pub open(crate) spec fn sampler(&self) -> Handle {
        self.sampler
    }

    pub open(crate) spec fn buffer_state(&self) -> BufferState {
        self.buffer_state
    }

    pub open(crate) spec fn image_resource_state(&self) -> ImageResourceState {
        self.image_resource_state
    }

    pub open(crate) spec fn image_fence(&self) -> Handle {
        self.image_fence
    }

    /// Names the staging buffer and the image of `texture`.
    pub fn create(
        device: &mut DeviceState,
        adapter_state: &AdapterState,
        texture: &Image,
        usage: u32,
    ) -> (r: Result<(PendingTexture, Vec<Command>), GpuError>)
        requires
            old(device).has_room(2),
        ensures
            final(device).queue_family() == old(device).queue_family(),
            match r {
                Ok((pending, commands)) => {
                    &&& rows_fit(adapter_state.limits, texture.width())
                    &&& pending.buffer == (PendingBuffer {
                        buffer: Handle(old(device).next_handle()),
                        size: upload_size_spec(
                            texture.width(),
                            texture.height(),
                            row_mask(adapter_state.limits),
                        ) as u64,
                        usage,
                    })
                    &&& pending.image == (PendingImage {
                        image: Handle((old(device).next_handle() + 1) as u64),
                        kind: crate::image::Kind::D2(texture.width(), texture.height(), 1, 1),
                        format: Format::color_spec(),
                        usage: USAGE_TRANSFER_DST | USAGE_SAMPLED,
                    })
                    &&& commands@ == seq![
                        Command::CreateBuffer {
                            buffer: pending.buffer.buffer,
                            size: pending.buffer.size,
                            usage,
                        },
                        Command::CreateImage {
                            image: pending.image.image,
                            kind: pending.image.kind,
                            mip_levels: MIP_LEVELS,
                            format: pending.image.format,
                            usage: pending.image.usage,
                        },
                    ]
                    &&& final(device).next_handle() == old(device).next_handle() + 2
                },
                Err(e) => {
                    &&& final(device).next_handle() == old(device).next_handle()
                    &&& !rows_fit(adapter_state.limits, texture.width())
                    &&& e == if adapter_state.limits.has_row_alignment() {
                        GpuError::SizeOverflow
                    } else {
                        GpuError::Configuration
                    }
                },
            },
    {
        let (buffer, create_buffer) = match BufferState::create_texture(
            device,
            adapter_state,
            texture,
            usage,
        ) {
            Ok(pair) => pair,
            Err(e) => {
                return Err(e);
            },
        };
        let (image, create_image) = ImageResourceState::create(
            device,
            texture.get_kind(),
            USAGE_TRANSFER_DST | USAGE_SAMPLED,
            Format::color(),
        );
        let mut commands: Vec<Command> = Vec::new();
        commands.push(create_buffer);
        commands.push(create_image);
        Ok((PendingTexture { buffer, image }, commands))
    }

    /// Puts `texture` on the device: memory for the staging buffer and for
    /// the image, a view and a sampler, the two descriptor writes, and the
    /// transfer, recorded from `staging_pool`. The bytes returned are what
    /// the staging buffer is filled with.
    pub fn new(
        descriptor_set: DescriptorSet,
        device: &mut DeviceState,
        adapter_state: &AdapterState,
        pending: PendingTexture,
        texture: &Image,
        buffer_requirements: &Requirements,
        image_requirements: &Requirements,
        staging_pool: Handle,
    ) -> (r: Result<(ImageState, Vec<u8>, Vec<Command>), GpuError>)
        requires
            old(device).has_room(5),
        ensures
            final(device).queue_family() == old(device).queue_family(),
            match r {
                Ok((state, bytes, commands)) => {
                    let first = old(device).next_handle();
                    let pitch = masked_row_pitch(texture.width(), row_mask(adapter_state.limits));
                    &&& texture_error(
                        *adapter_state,
                        texture.width(),
                        texture.height(),
                        descriptor_set.layout().bindings(),
                        *buffer_requirements,
                        *image_requirements,
                    ) is None
                    &&& final(device).next_handle() == first + 5
                    &&& state.descriptor_set() == descriptor_set
                    &&& state.buffer_state().buffer() == pending.buffer.buffer
                    &&& state.buffer_state().memory() == Handle(first)
                    &&& state.buffer_state().size() == pending.buffer.size
                    &&& state.image_resource_state().image() == pending.image.image
                    &&& state.image_resource_state().memory() == Handle((first + 1) as u64)
                    &&& state.image_resource_state().image_view() == Handle((first + 2) as u64)
                    &&& state.sampler() == Handle((first + 3) as u64)
                    &&& state.image_fence() == Handle((first + 4) as u64)
                    &&& bytes@ == staged_rows(
                        texture.pixels(),
                        texture.width(),
                        texture.height(),
                        pitch as int,
                    )
                    &&& commands@ == texture_commands(
                        *adapter_state,
                        pending,
                        first as int,
                        descriptor_set.set(),
                        staging_pool,
                        texture.width(),
                        texture.height(),
                        *buffer_requirements,
                        *image_requirements,
                    )
                },
                Err(e) => {
                    &&& final(device).next_handle() == old(device).next_handle()
                    &&& texture_error(
                        *adapter_state,
                        texture.width(),
                        texture.height(),
                        descriptor_set.layout().bindings(),
                        *buffer_requirements,
                        *image_requirements,
                    ) == Some(e)
                },
            },
    {
        let mark = device.mark();
        let (buffer_state, bytes, mut commands) = match BufferState::new_texture(
            device,
            pending.buffer,
            adapter_state,
            texture,
            buffer_requirements,
        ) {
            Ok(triple) => triple,
            Err(e) => {
                return Err(e);
            },
        };
        let (image_resource_state, mut image_commands) = match ImageResourceState::new(
            device,
            pending.image,
            adapter_state,
            ASPECT_COLOR,
            image_requirements,
        ) {
            Ok(pair) => pair,
            Err(e) => {
                device.rewind(mark);
                return Err(e);
            },
        };
        let sampler = device.allocate(1);
        let view = *image_resource_state.get_image_view();
        let mut writes: Vec<DescriptorSetWrite> = Vec::new();
        writes.push(
            DescriptorSetWrite {
                binding: 0,
                array_offset: 0,
                descriptor: Descriptor::Image(view, Layout::Undefined),
            },
        );
        writes.push(
            DescriptorSetWrite {
                binding: 1,
                array_offset: 0,
                descriptor: Descriptor::Sampler(sampler),
            },
        );
        let ghost writes_view = writes@;
        let mut write_commands = match descriptor_set.write_to_state(writes) {
            Ok(write_commands) => write_commands,
            Err(e) => {
                proof {
                    let i = choose|i: int|
                        0 <= i < writes_view.len() && !write_is_declared(
                            descriptor_set.layout().bindings(),
                            #[trigger] writes_view[i],
                        );
                    if write_is_declared(
                        descriptor_set.layout().bindings(),
                        image_write(Handle(0)),
                    ) {
                        lemma_declared_whatever_handle(
                            descriptor_set.layout().bindings(),
                            image_write(Handle(0)),
                            writes_view[0],
                        );
                    }
                    if write_is_declared(
                        descriptor_set.layout().bindings(),
                        sampler_write(Handle(0)),
                    ) {
                        lemma_declared_whatever_handle(
                            descriptor_set.layout().bindings(),
                            sampler_write(Handle(0)),
                            writes_view[1],
                        );
                    }
                }
                device.rewind(mark);
                return Err(e);
            },
        };
        proof {
            assert(write_is_declared(descriptor_set.layout().bindings(), writes_view[0]));
            assert(write_is_declared(descriptor_set.layout().bindings(), writes_view[1]));
            lemma_declared_whatever_handle(
                descriptor_set.layout().bindings(),
                writes_view[0],
                image_write(Handle(0)),
            );
            lemma_declared_whatever_handle(
                descriptor_set.layout().bindings(),
                writes_view[1],
                sampler_write(Handle(0)),
            );
        }
        let image_fence = device.allocate(1);
        let (width, height) = texture.get_dimensions();
        let row_alignment_mask = match adapter_state.limits.row_alignment_mask() {
            Ok(mask) => mask,
            Err(e) => {
                device.rewind(mark);
                return Err(e);
            },
        };
        let row_pitch = texture.row_pitch(row_alignment_mask);
        let image = image_resource_state.get_image();
        commands.append(&mut image_commands);
        commands.push(Command::CreateSampler { sampler });
        commands.append(&mut write_commands);
        commands.push(Command::CreateFence { fence: image_fence, signaled: false });
        commands.push(Command::BeginCommands { pool: staging_pool });
        commands.push(
            Command::ImageBarrier {
                image,
                from_access: 0,
                from_layout: Layout::Undefined,
                to_access: ACCESS_TRANSFER_WRITE,
                to_layout: Layout::TransferDstOptimal,
                from_stage: STAGE_TOP_OF_PIPE,
                to_stage: STAGE_TRANSFER,
            },
        );
        commands.push(
            Command::CopyBufferToImage {
                buffer: pending.buffer.buffer,
                image,
                layout: Layout::TransferDstOptimal,
                buffer_width: row_pitch / 4,
                buffer_height: height,
                width,
                height,
            },
        );
        commands.push(
            Command::ImageBarrier {
                image,
                from_access: ACCESS_TRANSFER_WRITE,
                from_layout: Layout::TransferDstOptimal,
                to_access: ACCESS_SHADER_READ,
                to_layout: Layout::ShaderReadOnlyOptimal,
                from_stage: STAGE_TRANSFER,
                to_stage: STAGE_FRAGMENT_SHADER,
            },
        );
        commands.push(Command::FinishCommands);
        commands.push(Command::SubmitTransfer { fence: image_fence });
        let state = ImageState {
            descriptor_set,
            sampler,
            buffer_state,
            image_resource_state,
            image_fence,
        };
        Ok((state, bytes, commands))
    }

    /// Names the descriptor pool and the set of a texture that is loaded on
    /// its own, the pool that its transfer is recorded from, and its staging
    /// buffer and image.
    pub fn begin_load(
        device: &mut DeviceState,
        adapter_state: &AdapterState,
        texture: &Image,
        layout: DescriptorSetLayout,
    ) -> (r: Result<(PendingLoad, Vec<Command>), GpuError>)
        requires
            old(device).has_room(5),
        ensures
            final(device).queue_family() == old(device).queue_family(),
            match r {
                Ok((pending, commands)) => {
                    let first = old(device).next_handle();
                    &&& rows_fit(adapter_state.limits, texture.width())
                    &&& final(device).next_handle() == first + 5
                    &&& pending.descriptor_pool() == Handle(first)
                    &&& pending.descriptor_set().layout() == layout
                    &&& pending.descriptor_set().set() == Handle((first + 1) as u64)
                    &&& pending.staging_pool() == Handle((first + 2) as u64)
                    &&& pending.texture().buffer == (PendingBuffer {
                        buffer: Handle((first + 3) as u64),
                        size: upload_size_spec(
                            texture.width(),
                            texture.height(),
                            row_mask(adapter_state.limits),
                        ) as u64,
                        usage: USAGE_TRANSFER_SRC,
                    })
                    &&& pending.texture().image == (PendingImage {
                        image: Handle((first + 4) as u64),
                        kind: crate::image::Kind::D2(texture.width(), texture.height(), 1, 1),
                        format: Format::color_spec(),
                        usage: USAGE_TRANSFER_DST | USAGE_SAMPLED,
                    })
                    &&& commands@ == seq![
                        Command::CreateDescriptorPool {
                            pool: pending.descriptor_pool(),
                            max_sets: 1,
                            sampled_images: 1,
                            samplers: 1,
                            uniform_buffers: 0,
                        },
                        Command::AllocateDescriptorSet {
                            set: pending.descriptor_set().set(),
                            pool: pending.descriptor_pool(),
                            layout: layout.layout(),
                        },
                        Command::CreateCommandPool {
                            pool: pending.staging_pool(),
                            family: old(device).queue_family(),
                        },
                        Command::CreateBuffer {
                            buffer: pending.texture().buffer.buffer,
                            size: pending.texture().buffer.size,
                            usage: USAGE_TRANSFER_SRC,
                        },
                        Command::CreateImage {
                            image: pending.texture().image.image,
                            kind: pending.texture().image.kind,
                            mip_levels: MIP_LEVELS,
                            format: pending.texture().image.format,
                            usage: pending.texture().image.usage,
                        },
                    ]
                },
                Err(e) => {
                    &&& final(device).next_handle() == old(device).next_handle()
                    &&& !rows_fit(adapter_state.limits, texture.width())
                    &&& e == if adapter_state.limits.has_row_alignment() {
                        GpuError::SizeOverflow
                    } else {
                        GpuError::Configuration
                    }
                },
            },
    {
        let mark = device.mark();
        let descriptor_pool = device.allocate(1);
        let mut commands: Vec<Command> = Vec::new();
        commands.push(
            Command::CreateDescriptorPool {
                pool: descriptor_pool,
                max_sets: 1,
                sampled_images: 1,
                samplers: 1,
                uniform_buffers: 0,
            },
        );
        let (descriptor_set, allocate_set) = layout.create_set(device, descriptor_pool);
        commands.push(allocate_set);
        let (staging_pool, create_pool) = device.create_command_pool();
        commands.push(create_pool);
        let (texture, mut create) = match Self::create(
            device,
            adapter_state,
            texture,
            USAGE_TRANSFER_SRC,
        ) {
            Ok(pair) => pair,
            Err(e) => {
                device.rewind(mark);
                return Err(e);
            },
        };
        commands.append(&mut create);
        Ok((PendingLoad { descriptor_pool, descriptor_set, staging_pool, texture }, commands))
    }

    /// Puts the texture that `begin_load` named on the device, waits for its
    /// transfer, and destroys the pool that the transfer was recorded from.
    pub fn load_image_to_state(
        device: &mut DeviceState,
        adapter_state: &AdapterState,
        pending: PendingLoad,
        texture: &Image,
        buffer_requirements: &Requirements,
        image_requirements: &Requirements,
    ) -> (r: Result<(ImageState, Vec<u8>, Vec<Command>), GpuError>)
        requires
            old(device).has_room(5),
        ensures
            final(device).queue_family() == old(device).queue_family(),
            match r {
                Ok((state, bytes, commands)) => {
                    let first = old(device).next_handle();
                    &&& texture_error(
                        *adapter_state,
                        texture.width(),
                        texture.height(),
                        pending.descriptor_set().layout().bindings(),
                        *buffer_requirements,
                        *image_requirements,
                    ) is None
                    &&& final(device).next_handle() == first + 5
                    &&& state.descriptor_set() == pending.descriptor_set()
                    &&& state.buffer_state().buffer() == pending.texture().buffer.buffer
                    &&& state.buffer_state().memory() == Handle(first)
                    &&& state.buffer_state().size() == pending.texture().buffer.size
                    &&& state.image_resource_state().image() == pending.texture().image.image
                    &&& state.image_resource_state().memory() == Handle((first + 1) as u64)
                    &&& state.image_resource_state().image_view() == Handle((first + 2) as u64)
                    &&& state.sampler() == Handle((first + 3) as u64)
                    &&& state.image_fence() == Handle((first + 4) as u64)
                    &&& bytes@ == staged_rows(
                        texture.pixels(),
                        texture.width(),
                        texture.height(),
                        masked_row_pitch(texture.width(), row_mask(adapter_state.limits)) as int,
                    )
                    &&& commands@ == texture_commands(
                        *adapter_state,
                        pending.texture(),
                        first as int,
                        pending.descriptor_set().set(),
                        pending.staging_pool(),
                        texture.width(),
                        texture.height(),
                        *buffer_requirements,
                        *image_requirements,
                    ) + seq![
                        Command::WaitForFence { fence: state.image_fence() },
                        Command::Destroy {
                            kind: ResourceKind::CommandPool,
                            handle: pending.staging_pool(),
                        },
                    ]
                },
                Err(e) => {
                    &&& final(device).next_handle() == old(device).next_handle()
                    &&& texture_error(
                        *adapter_state,
                        texture.width(),
                        texture.height(),
                        pending.descriptor_set().layout().bindings(),
                        *buffer_requirements,
                        *image_requirements,
                    ) == Some(e)
                },
            },
    {
        let PendingLoad { descriptor_pool: _, descriptor_set, staging_pool, texture: named } =
            pending;
        let (state, bytes, mut commands) = match Self::new(
            descriptor_set,
            device,
            adapter_state,
            named,
            texture,
            buffer_requirements,
            image_requirements,
            staging_pool,
        ) {
            Ok(triple) => triple,
            Err(e) => {
                return Err(e);
            },
        };
        commands.push(state.wait_for_transfer());
        commands.push(Command::Destroy { kind: ResourceKind::CommandPool, handle: staging_pool });
        Ok((state, bytes, commands))
    }

    /// Blocks until the transfer into the image is through. Before that the
    /// texture must not be sampled and the staging buffer must stay.
    pub fn wait_for_transfer(&self) -> (r: Command)
        ensures
            r == (Command::WaitForFence { fence: self.image_fence() }),
    {
        Command::WaitForFence { fence: self.image_fence }
    }

    pub fn get_layout(&self) -> (r: &Handle)
        ensures
            *r == self.descriptor_set().layout().layout(),
    {
        self.descriptor_set.get_layout()
    }

    pub fn get_descriptor_set(&self) -> (r: &DescriptorSet)
        ensures
            *r == self.descriptor_set(),
    {
        &self.descriptor_set
    }

    /// What `destroy` tells the device.
    pub open spec fn teardown_commands(&self) -> Seq<Command> {
        seq![
            Command::WaitForFence { fence: self.image_fence() },
            Command::Destroy { kind: ResourceKind::Fence, handle: self.image_fence() },
            Command::Destroy { kind: ResourceKind::Sampler, handle: self.sampler() },
            Command::Destroy {
                kind: ResourceKind::ImageView,
                handle: self.image_resource_state().image_view(),
            },
            Command::Destroy {
                kind: ResourceKind::Image,
                handle: self.image_resource_state().image(),
            },
            Command::Destroy { kind: ResourceKind::Buffer, handle: self.buffer_state().buffer() },
            Command::Destroy {
                kind: ResourceKind::Memory,
                handle: self.image_resource_state().memory(),
            },
            Command::Destroy { kind: ResourceKind::Memory, handle: self.buffer_state().memory() },
        ]
    }

    /// Waits for the transfer, then destroys the fence, the sampler, the
    /// view, the image and the staging buffer, and frees the memory of both:
    /// the reverse of the order in which they were made.
    pub fn destroy(self) -> (r: Vec<Command>)
        ensures
            r@ == self.teardown_commands(),
    {
        self.teardown()
    }

    /// The commands of `destroy`, for a texture that is held by reference.
    pub fn teardown(&self) -> (r: Vec<Command>)
        ensures
            r@ == self.teardown_commands(),
    {
        let mut commands: Vec<Command> = Vec::new();
        commands.push(Command::WaitForFence { fence: self.image_fence });
        commands.push(Command::Destroy { kind: ResourceKind::Fence, handle: self.image_fence });
        commands.push(Command::Destroy { kind: ResourceKind::Sampler, handle: self.sampler });
        commands.push(
            Command::Destroy {
                kind: ResourceKind::ImageView,
                handle: *self.image_resource_state.get_image_view(),
            },
        );
        commands.push(
            Command::Destroy {
                kind: ResourceKind::Image,
                handle: self.image_resource_state.get_image(),
            },
        );
        commands.push(
            Command::Destroy { kind: ResourceKind::Buffer, handle: *self.buffer_state.get_buffer() },
        );
        commands.push(
            Command::Destroy {
                kind: ResourceKind::Memory,
                handle: self.image_resource_state.memory,
            },
        );
        commands.push(
            Command::Destroy { kind: ResourceKind::Memory, handle: self.buffer_state.memory },
        );
        commands
    }
}

/// Whether a layout declares the slot of a write does not depend on which
/// object the write names, only on its binding, its offset and its kind.
pub proof fn lemma_declared_whatever_handle(
    bindings: Seq<crate::descriptor::DescriptorSetLayoutBinding>,
    a: DescriptorSetWrite,
    b: DescriptorSetWrite,
)
    requires
        a.binding == b.binding,
        a.array_offset == b.array_offset,
        (a.descriptor is Image) == (b.descriptor is Image),
        (a.descriptor is Sampler) == (b.descriptor is Sampler),
        (a.descriptor is Buffer) == (b.descriptor is Buffer),
        write_is_declared(bindings, a),
    ensures
        write_is_declared(bindings, b),
{
    let i = choose|i: int|
        0 <= i < bindings.len() && crate::descriptor::binding_takes(#[trigger] bindings[i], a);
    assert(crate::descriptor::binding_takes(bindings[i], b));
}

} // verus!
