use crate::adapter::{Adapter, AdapterState, Limits};
use crate::buffer::{
    row_mask, rows_fit, BufferState, PendingBuffer, USAGE_INDEX, USAGE_TRANSFER_SRC,
    USAGE_UNIFORM, USAGE_VERTEX,
};
use crate::descriptor::{
    DescriptorSet, DescriptorSetLayout, DescriptorSetLayoutBinding, DescriptorType,
    STAGE_FRAGMENT, STAGE_VERTEX,
};
use crate::device::{family_fits, Command, DeviceState, Handle};
use crate::error::GpuError;
use crate::format::Format;
use crate::image::{
    upload_size_spec, Image, Kind, PendingImage, MIP_LEVELS, USAGE_SAMPLED, USAGE_TRANSFER_DST,
};
use crate::pipeline::VERTEX_STRIDE;
use crate::renderer::{QUAD_INDEX_COUNT, QUAD_VERTEX_COUNT};
use crate::buffer::{bind_commands, staged_rows};
use crate::descriptor::write_is_declared;
use crate::image::masked_row_pitch;
use crate::memory::{first_fit, MemoryTypeId, Properties, Requirements, CPU_VISIBLE};
use crate::renderer::RendererState;
use crate::swapchain::{
    can_configure, config_spec, Backbuffer, Extent, Extent2D, SurfaceCapabilities,
    SwapchainState,
};
use crate::texture::{texture_error, ImageState, PendingTexture};
use crate::uniform::buffer_write;
use crate::uniform::{Uniform, UniformInitializer};
use vstd::prelude::*;

verus! {

/// What the renderer starts with: the camera matrix, the textures, each
/// with the number it is known by, and the uniforms, each with the binding
/// that it goes into.
pub struct RenderStateInitializer<T: Copy> {
    pub camera: UniformInitializer<T>,
    pub textures: Vec<(u32, Image)>,
    pub uniforms: Vec<(u32, UniformInitializer<T>)>,
}

/// The renderer with every buffer and image named and none with memory
/// yet: the device has to say what memory each asks for.
pub struct PendingRenderer {
    pub(crate) device_state: DeviceState,
    pub(crate) adapter_state: AdapterState,
    pub(crate) vertex: PendingBuffer,
    pub(crate) index: PendingBuffer,
    pub(crate) descriptor_pool: Handle,
    pub(crate) staging_pool: Handle,
    /// The textures that have no memory yet, in the order in which they
    /// get it.
    pub(crate) textures: Vec<(DescriptorSet, PendingTexture)>,
    /// The uniforms that have no memory yet, in the order in which they
    /// get it.
    pub(crate) uniforms: Vec<(DescriptorSet, PendingBuffer)>,
    /// The vertex and the index buffer of the quad, once they have memory.
    pub(crate) quad: Option<(BufferState, BufferState)>,
    pub(crate) image_states: Vec<ImageState>,
    pub(crate) bound_uniforms: Vec<Uniform>,
    pub(crate) swapchain_state: Option<SwapchainState>,
}

/// The bindings of the set of a texture: the image in binding 0 and the
/// sampler in binding 1, both for the fragment stage.
pub open spec fn texture_bindings() -> Seq<DescriptorSetLayoutBinding> {
    seq![
        DescriptorSetLayoutBinding {
            binding: 0,
            ty: DescriptorType::SampledImage,
            count: 1,
            stage_flags: STAGE_FRAGMENT,
            immutable_samplers: false,
        },
        DescriptorSetLayoutBinding {
            binding: 1,
            ty: DescriptorType::Sampler,
            count: 1,
            stage_flags: STAGE_FRAGMENT,
            immutable_samplers: false,
        },
    ]
}

/// The bindings of the set of a uniform: one uniform buffer.
pub open spec fn uniform_bindings(binding: u32, stage_flags: u32) -> Seq<DescriptorSetLayoutBinding> {
    seq![
        DescriptorSetLayoutBinding {
            binding,
            ty: DescriptorType::UniformBuffer,
            count: 1,
            stage_flags,
            immutable_samplers: false,
        },
    ]
}

/// What is told the device to name the layout, the set, the staging buffer
/// and the image of a texture whose handles start at `first`.
pub open spec fn begin_texture_commands(
    first: int,
    pool: Handle,
    limits: Limits,
    width: u32,
    height: u32,
) -> Seq<Command> {
    seq![
        Command::CreateDescriptorSetLayout { layout: Handle(first as u64) },
        Command::AllocateDescriptorSet {
            set: Handle((first + 1) as u64),
            pool,
            layout: Handle(first as u64),
        },
        Command::CreateBuffer {
            buffer: Handle((first + 2) as u64),
            size: upload_size_spec(width, height, row_mask(limits)) as u64,
            usage: USAGE_TRANSFER_SRC,
        },
        Command::CreateImage {
            image: Handle((first + 3) as u64),
            kind: Kind::D2(width, height, 1, 1),
            mip_levels: MIP_LEVELS,
            format: Format::color_spec(),
            usage: USAGE_TRANSFER_DST | USAGE_SAMPLED,
        },
    ]
}

/// The set and the pending buffer and image of a texture are those that
/// `begin_texture_commands` names.
pub open spec fn is_begun_texture(
    item: (DescriptorSet, PendingTexture),
    first: int,
    limits: Limits,
    width: u32,
    height: u32,
) -> bool {
    &&& item.0.layout().layout() == Handle(first as u64)
    &&& item.0.layout().bindings() == texture_bindings()
    &&& item.0.set() == Handle((first + 1) as u64)
    &&& item.1.buffer == (PendingBuffer {
        buffer: Handle((first + 2) as u64),
        size: upload_size_spec(width, height, row_mask(limits)) as u64,
        usage: USAGE_TRANSFER_SRC,
    })
    &&& item.1.image == (PendingImage {
        image: Handle((first + 3) as u64),
        kind: Kind::D2(width, height, 1, 1),
        format: Format::color_spec(),
        usage: USAGE_TRANSFER_DST | USAGE_SAMPLED,
    })
}

/// What is told the device to name the layout, the set and the buffer of a
/// uniform whose handles start at `first`.
pub open spec fn begin_uniform_commands(first: int, pool: Handle, size: u64) -> Seq<Command> {
    seq![
        Command::CreateDescriptorSetLayout { layout: Handle(first as u64) },
        Command::AllocateDescriptorSet {
            set: Handle((first + 1) as u64),
            pool,
            layout: Handle(first as u64),
        },
        Command::CreateBuffer { buffer: Handle((first + 2) as u64), size, usage: USAGE_UNIFORM },
    ]
}

/// The set and the pending buffer of a uniform are those that
/// `begin_uniform_commands` names.
pub open spec fn is_begun_uniform(
    item: (DescriptorSet, PendingBuffer),
    first: int,
    binding: u32,
    stage_flags: u32,
    size: u64,
) -> bool {
    &&& item.0.layout().layout() == Handle(first as u64)
    &&& item.0.layout().bindings() == uniform_bindings(binding, stage_flags)
    &&& item.0.set() == Handle((first + 1) as u64)
    &&& item.1 == (PendingBuffer {
        buffer: Handle((first + 2) as u64),
        size,
        usage: USAGE_UNIFORM,
    })
}

/// Names the layout, the set, the staging buffer and the image of a
/// texture.
pub fn begin_texture(
    device: &mut DeviceState,
    adapter_state: &AdapterState,
    pool: Handle,
    image: &Image,
) -> (r: Result<((DescriptorSet, PendingTexture), Vec<Command>), GpuError>)
    requires
        old(device).has_room(4),
    ensures
        final(device).queue_family() == old(device).queue_family(),
        match r {
            Ok((item, commands)) => {
                &&& rows_fit(adapter_state.limits, image.width())
                &&& is_begun_texture(
                    item,
                    old(device).next_handle() as int,
                    adapter_state.limits,
                    image.width(),
                    image.height(),
                )
                &&& commands@ == begin_texture_commands(
                    old(device).next_handle() as int,
                    pool,
                    adapter_state.limits,
                    image.width(),
                    image.height(),
                )
                &&& final(device).next_handle() == old(device).next_handle() + 4
            },
            Err(e) => {
                &&& final(device).next_handle() == old(device).next_handle()
                &&& !rows_fit(adapter_state.limits, image.width())
                &&& e == if adapter_state.limits.has_row_alignment() {
                    GpuError::SizeOverflow
                } else {
                    GpuError::Configuration
                }
            },
        },
{
    let mark = device.mark();
    let mut bindings: Vec<DescriptorSetLayoutBinding> = Vec::new();
    bindings.push(
        DescriptorSetLayoutBinding {
            binding: 0,
            ty: DescriptorType::SampledImage,
            count: 1,
            stage_flags: STAGE_FRAGMENT,
            immutable_samplers: false,
        },
    );
    bindings.push(
        DescriptorSetLayoutBinding {
            binding: 1,
            ty: DescriptorType::Sampler,
            count: 1,
            stage_flags: STAGE_FRAGMENT,
            immutable_samplers: false,
        },
    );
    assert(bindings@ =~= texture_bindings());
    let (layout, create_layout) = DescriptorSetLayout::new(device, bindings);
    let (set, allocate_set) = layout.create_set(device, pool);
    let (pending, mut create) = match ImageState::create(
        device,
        adapter_state,
        image,
        USAGE_TRANSFER_SRC,
    ) {
        Ok(pair) => pair,
        Err(e) => {
            device.rewind(mark);
            return Err(e);
        },
    };
    let mut commands: Vec<Command> = Vec::new();
    commands.push(create_layout);
    commands.push(allocate_set);
    commands.append(&mut create);
    Ok(((set, pending), commands))
}

/// Names the layout, the set and the buffer of a uniform of
/// `element_count` elements of `stride` bytes each, which goes into
/// `binding` and is seen by the stages of `stage_flags`.
pub fn begin_uniform(
    device: &mut DeviceState,
    pool: Handle,
    binding: u32,
    stage_flags: u32,
    element_count: usize,
    stride: usize,
) -> (r: Result<((DescriptorSet, PendingBuffer), Vec<Command>), GpuError>)
    requires
        old(device).has_room(3),
    ensures
        final(device).queue_family() == old(device).queue_family(),
        match r {
            Ok((item, commands)) => {
                &&& element_count * stride <= u64::MAX
                &&& is_begun_uniform(
                    item,
                    old(device).next_handle() as int,
                    binding,
                    stage_flags,
                    (element_count * stride) as u64,
                )
                &&& commands@ == begin_uniform_commands(
                    old(device).next_handle() as int,
                    pool,
                    (element_count * stride) as u64,
                )
                &&& final(device).next_handle() == old(device).next_handle() + 3
            },
            Err(e) => {
                &&& final(device).next_handle() == old(device).next_handle()
                &&& e == GpuError::SizeOverflow
                &&& element_count * stride > u64::MAX
            },
        },
{
    let mark = device.mark();
    let mut bindings: Vec<DescriptorSetLayoutBinding> = Vec::new();
    bindings.push(
        DescriptorSetLayoutBinding {
            binding,
            ty: DescriptorType::UniformBuffer,
            count: 1,
            stage_flags,
            immutable_samplers: false,
        },
    );
    assert(bindings@ =~= uniform_bindings(binding, stage_flags));
    let (layout, create_layout) = DescriptorSetLayout::new(device, bindings);
    let (set, allocate_set) = layout.create_set(device, pool);
    let (pending, create) = match Uniform::create(device, element_count, stride) {
        Ok(pair) => pair,
        Err(e) => {
            device.rewind(mark);
            return Err(e);
        },
    };
    let mut commands: Vec<Command> = Vec::new();
    commands.push(create_layout);
    commands.push(allocate_set);
    commands.push(create);
    Ok(((set, pending), commands))
}

/// What is told the device to name what the first `count` textures need,
/// when the handles of the first texture start at `first`.
pub open spec fn begin_textures_commands(
    first: int,
    pool: Handle,
    limits: Limits,
    textures: Seq<(u32, Image)>,
    count: nat,
) -> Seq<Command>
    decreases count,
{
    if count == 0 {
        Seq::empty()
    } else {
        begin_textures_commands(first, pool, limits, textures, (count - 1) as nat)
            + begin_texture_commands(
            first + 4 * (count - 1),
            pool,
            limits,
            textures[count - 1].1.width(),
            textures[count - 1].1.height(),
        )
    }
}

/// What is told the device to name what the first `count` uniforms need,
/// when the handles of the first uniform start at `first`.
pub open spec fn begin_uniforms_commands<T: Copy>(
    first: int,
    pool: Handle,
    uniforms: Seq<(u32, UniformInitializer<T>)>,
    stride: usize,
    count: nat,
) -> Seq<Command>
    decreases count,
{
    if count == 0 {
        Seq::empty()
    } else {
        begin_uniforms_commands(first, pool, uniforms, stride, (count - 1) as nat)
            + begin_uniform_commands(
            first + 3 * (count - 1),
            pool,
            (uniforms[count - 1].1.data@.len() * stride) as u64,
        )
    }
}

/// The first queue family of the adapter that can do graphics work and
/// present to the surface has this id.
pub open spec fn is_opened_on(adapter: Adapter, family: usize) -> bool {
    exists|i: int|
        {
            &&& 0 <= i < adapter.queue_families@.len()
            &&& family_fits(#[trigger] adapter.queue_families@[i])
            &&& family == adapter.queue_families@[i].id
            &&& forall|j: int| 0 <= j < i ==> !family_fits(adapter.queue_families@[j])
        }
}

/// There is an adapter, and it has a queue family that can do graphics work
/// and present to the surface.
pub open spec fn opens(adapter_state: AdapterState) -> bool {
    &&& adapter_state.adapter is Some
    &&& exists|j: int|
        0 <= j < adapter_state.adapter->0.queue_families@.len() && family_fits(
            #[trigger] adapter_state.adapter->0.queue_families@[j],
        )
}

/// Why the renderer cannot be begun, if it cannot.
pub open spec fn begin_error<T: Copy>(
    adapter_state: AdapterState,
    initializer: RenderStateInitializer<T>,
    stride: usize,
) -> Option<GpuError> {
    let textures = initializer.textures@;
    let uniforms = initializer.uniforms@;
    if adapter_state.adapter is None {
        Some(GpuError::NoAdapter)
    } else if !opens(adapter_state) {
        Some(GpuError::NoCompatibleQueueFamily)
    } else if 7 + 4 * textures.len() + 3 * uniforms.len() > u64::MAX || textures.len()
        + uniforms.len() + 1 > usize::MAX {
        Some(GpuError::SizeOverflow)
    } else if textures.len() > 0 && !adapter_state.limits.has_row_alignment() {
        Some(GpuError::Configuration)
    } else if (exists|i: int|
        0 <= i < textures.len() && !rows_fit(
            adapter_state.limits,
            (#[trigger] textures[i]).1.width(),
        )) || initializer.camera.data@.len() * stride > u64::MAX || (exists|j: int|
        0 <= j < uniforms.len() && (#[trigger] uniforms[j]).1.data@.len() * stride > u64::MAX) {
        Some(GpuError::SizeOverflow)
    } else {
        None
    }
}

impl PendingRenderer {
    pub open(crate) spec fn device_state(&self) -> DeviceState {
        self.device_state
    }

    pub open(crate) spec fn adapter_state(&self) -> AdapterState {
        self.adapter_state
    }

    pub open(crate) spec fn vertex(&self) -> PendingBuffer {
        self.vertex
    }

    pub open(crate) spec fn index(&self) -> PendingBuffer {
        self.index
    }

    pub open(crate) spec fn descriptor_pool(&self) -> Handle {
        self.descriptor_pool
    }

    pub open(crate) spec fn staging_pool(&self) -> Handle {
        self.staging_pool
    }

    pub open(crate) spec fn textures(&self) -> Seq<(DescriptorSet, PendingTexture)> {
        self.textures@
    }

    pub open(crate) spec fn uniforms(&self) -> Seq<(DescriptorSet, PendingBuffer)> {
        self.uniforms@
    }

    pub open(crate) spec fn quad(&self) -> Option<(BufferState, BufferState)> {
        self.quad
    }

    pub open(crate) spec fn image_states(&self) -> Seq<ImageState> {
        self.image_states@
    }

    pub open(crate) spec fn bound_uniforms(&self) -> Seq<Uniform> {
        self.bound_uniforms@
    }

    pub open(crate) spec fn swapchain_state(&self) -> Option<SwapchainState> {
        self.swapchain_state
    }

    /// What never changes while memory is handed out: the adapter, the
    /// queue family, the quad as it was named, and the two pools.
    pub open spec fn same_fixed_parts(&self, other: &PendingRenderer) -> bool {
        &&& self.adapter_state() == other.adapter_state()
        &&& self.device_state().queue_family() == other.device_state().queue_family()
        &&& self.vertex() == other.vertex()
        &&& self.index() == other.index()
        &&& self.descriptor_pool() == other.descriptor_pool()
        &&& self.staging_pool() == other.staging_pool()
    }

    /// Opens the adapter and names everything that lives as long as the
    /// device: the vertex and the index buffer of the quad, a descriptor
    /// pool that has room for every set, the pool that the transfers are
    /// recorded from, and for each texture and each uniform a layout, a set
    /// and what holds its data. The
    /// camera matrix is the first uniform: it goes into binding 0 and is for
    /// the vertex stage; the others are for the fragment stage. Uniform data
    /// has elements of `stride` bytes.
    pub fn begin<T: Copy>(
        adapter_state: AdapterState,
        initializer: &RenderStateInitializer<T>,
        stride: usize,
    ) -> (r: Result<(PendingRenderer, Vec<Command>), GpuError>)
        ensures
            match r {
                Ok((pending, commands)) => {
                    let textures = initializer.textures@;
                    let uniforms = initializer.uniforms@;
                    let pool = Handle(2);
                    let family = pending.device_state().queue_family();
                    let camera = 4 + 4 * (textures.len() as int);
                    &&& begin_error(adapter_state, *initializer, stride) is None
                    &&& is_opened_on(adapter_state.adapter->0, family)
                    &&& pending.device_state().next_handle() == 7 + 4 * textures.len() + 3
                        * uniforms.len()
                    &&& pending.adapter_state().adapter is None
                    &&& pending.adapter_state().mem_types == adapter_state.mem_types
                    &&& pending.adapter_state().limits == adapter_state.limits
                    &&& pending.vertex() == (PendingBuffer {
                        buffer: Handle(0),
                        size: 80,
                        usage: USAGE_VERTEX,
                    })
                    &&& pending.index() == (PendingBuffer {
                        buffer: Handle(1),
                        size: 12,
                        usage: USAGE_INDEX,
                    })
                    &&& pending.descriptor_pool() == pool
                    &&& pending.staging_pool() == Handle(3)
                    &&& pending.quad() is None
                    &&& pending.image_states().len() == 0
                    &&& pending.bound_uniforms().len() == 0
                    &&& pending.swapchain_state() is None
                    &&& pending.textures().len() == textures.len()
                    &&& forall|i: int|
                        0 <= i < textures.len() ==> is_begun_texture(
                            #[trigger] pending.textures()[i],
                            4 + 4 * i,
                            adapter_state.limits,
                            textures[i].1.width(),
                            textures[i].1.height(),
                        )
                    &&& pending.uniforms().len() == uniforms.len() + 1
                    &&& is_begun_uniform(
                        pending.uniforms()[0],
                        camera,
                        0,
                        STAGE_VERTEX,
                        (initializer.camera.data@.len() * stride) as u64,
                    )
                    &&& forall|j: int|
                        0 <= j < uniforms.len() ==> is_begun_uniform(
                            #[trigger] pending.uniforms()[j + 1],
                            camera + 3 + 3 * j,
                            uniforms[j].0,
                            STAGE_FRAGMENT,
                            (uniforms[j].1.data@.len() * stride) as u64,
                        )
                    &&& commands@ == seq![
                        Command::CreateBuffer { buffer: Handle(0), size: 80, usage: USAGE_VERTEX },
                        Command::CreateBuffer { buffer: Handle(1), size: 12, usage: USAGE_INDEX },
                        Command::CreateDescriptorPool {
                            pool,
                            max_sets: (textures.len() + uniforms.len() + 1) as usize,
                            sampled_images: textures.len() as usize,
                            samplers: textures.len() as usize,
                            uniform_buffers: (uniforms.len() + 1) as usize,
                        },
                        Command::CreateCommandPool { pool: Handle(3), family },
                    ] + begin_textures_commands(
                        4,
                        pool,
                        adapter_state.limits,
                        textures,
                        textures.len(),
                    ) + begin_uniform_commands(
                        camera,
                        pool,
                        (initializer.camera.data@.len() * stride) as u64,
                    ) + begin_uniforms_commands(camera + 3, pool, uniforms, stride, uniforms.len())
                },
                Err(e) => begin_error(adapter_state, *initializer, stride) == Some(e),
            },
    {
        let ghost given = adapter_state;
        let AdapterState { adapter, mem_types, limits } = adapter_state;
        let adapter = match adapter {
            Some(adapter) => adapter,
            None => {
                return Err(GpuError::NoAdapter);
            },
        };
        let taken = AdapterState { adapter: None, mem_types, limits };
        let mut device_state = match DeviceState::new(&adapter) {
            Ok(device_state) => device_state,
            Err(e) => {
                return Err(e);
            },
        };
        let texture_count = initializer.textures.len();
        let uniform_count = initializer.uniforms.len();
        let total: u128 = 7 + 4 * (texture_count as u128) + 3 * (uniform_count as u128);
        if total > u64::MAX as u128 {
            return Err(GpuError::SizeOverflow);
        }
        let set_count: usize = match texture_count.checked_add(uniform_count) {
            Some(count) => match count.checked_add(1) {
                Some(count) => count,
                None => {
                    return Err(GpuError::SizeOverflow);
                },
            },
            None => {
                return Err(GpuError::SizeOverflow);
            },
        };
        let mut commands: Vec<Command> = Vec::new();
        let (vertex, create_vertex) = match BufferState::create(
            &mut device_state,
            QUAD_VERTEX_COUNT,
            VERTEX_STRIDE as usize,
            USAGE_VERTEX,
        ) {
            Ok(pair) => pair,
            Err(e) => {
                return Err(e);
            },
        };
        commands.push(create_vertex);
        let (index, create_index) = match BufferState::create(
            &mut device_state,
            QUAD_INDEX_COUNT as usize,
            2,
            USAGE_INDEX,
        ) {
            Ok(pair) => pair,
            Err(e) => {
                return Err(e);
            },
        };
        commands.push(create_index);
        let descriptor_pool = device_state.allocate(1);
        commands.push(
            Command::CreateDescriptorPool {
                pool: descriptor_pool,
                max_sets: set_count,
                sampled_images: texture_count,
                samplers: texture_count,
                uniform_buffers: uniform_count + 1,
            },
        );
        let (staging_pool, create_staging_pool) = device_state.create_command_pool();
        commands.push(create_staging_pool);
        let ghost head = commands@;
        let ghost family = device_state.queue_family();
        let mut textures: Vec<(DescriptorSet, PendingTexture)> = Vec::new();
        let mut i: usize = 0;
        while i < texture_count
            invariant
                i <= texture_count,
                texture_count == initializer.textures@.len(),
                uniform_count == initializer.uniforms@.len(),
                7 + 4 * texture_count + 3 * uniform_count <= u64::MAX,
                texture_count + uniform_count + 1 <= usize::MAX,
                device_state.next_handle() == 4 + 4 * i,
                device_state.queue_family() == family,
                descriptor_pool == Handle(2),
                taken.limits == given.limits,
                given == adapter_state,
                opens(given),
                textures@.len() == i,
                i > 0 ==> taken.limits.has_row_alignment(),
                forall|k: int|
                    0 <= k < i ==> rows_fit(
                        taken.limits,
                        (#[trigger] initializer.textures@[k]).1.width(),
                    ),
                forall|k: int|
                    0 <= k < i ==> is_begun_texture(
                        #[trigger] textures@[k],
                        4 + 4 * k,
                        taken.limits,
                        initializer.textures@[k].1.width(),
                        initializer.textures@[k].1.height(),
                    ),
                commands@ == head + begin_textures_commands(
                    4,
                    descriptor_pool,
                    taken.limits,
                    initializer.textures@,
                    i as nat,
                ),
            decreases texture_count - i,
        {
            let (item, mut begun) = match begin_texture(
                &mut device_state,
                &taken,
                descriptor_pool,
                &initializer.textures[i].1,
            ) {
                Ok(pair) => pair,
                Err(e) => {
                    proof {
                        let refused = initializer.textures@[i as int];
                        assert(!rows_fit(given.limits, refused.1.width()));
                    }
                    return Err(e);
                },
            };
            textures.push(item);
            commands.append(&mut begun);
            i += 1;
        }
        let ghost camera_first = device_state.next_handle() as int;
        let mut uniforms: Vec<(DescriptorSet, PendingBuffer)> = Vec::new();
        let (camera, mut begun_camera) = match begin_uniform(
            &mut device_state,
            descriptor_pool,
            0,
            STAGE_VERTEX,
            initializer.camera.data.len(),
            stride,
        ) {
            Ok(pair) => pair,
            Err(e) => {
                return Err(e);
            },
        };
        uniforms.push(camera);
        commands.append(&mut begun_camera);
        let ghost middle = commands@;
        let mut j: usize = 0;
        while j < uniform_count
            invariant
                j <= uniform_count,
                texture_count == initializer.textures@.len(),
                uniform_count == initializer.uniforms@.len(),
                7 + 4 * texture_count + 3 * uniform_count <= u64::MAX,
                texture_count + uniform_count + 1 <= usize::MAX,
                camera_first == 4 + 4 * texture_count,
                device_state.next_handle() == camera_first + 3 + 3 * j,
                device_state.queue_family() == family,
                opens(given),
                given == adapter_state,
                taken.limits == given.limits,
                texture_count > 0 ==> given.limits.has_row_alignment(),
                uniforms@.len() == j + 1,
                is_begun_uniform(
                    uniforms@[0],
                    camera_first,
                    0,
                    STAGE_VERTEX,
                    (initializer.camera.data@.len() * stride) as u64,
                ),
                forall|k: int|
                    0 <= k < j ==> (#[trigger] initializer.uniforms@[k]).1.data@.len() * stride
                        <= u64::MAX,
                forall|k: int|
                    0 <= k < j ==> is_begun_uniform(
                        #[trigger] uniforms@[k + 1],
                        camera_first + 3 + 3 * k,
                        initializer.uniforms@[k].0,
                        STAGE_FRAGMENT,
                        (initializer.uniforms@[k].1.data@.len() * stride) as u64,
                    ),
                commands@ == middle + begin_uniforms_commands(
                    camera_first + 3,
                    descriptor_pool,
                    initializer.uniforms@,
                    stride,
                    j as nat,
                ),
            decreases uniform_count - j,
        {
            let (item, mut begun) = match begin_uniform(
                &mut device_state,
                descriptor_pool,
                initializer.uniforms[j].0,
                STAGE_FRAGMENT,
                initializer.uniforms[j].1.data.len(),
                stride,
            ) {
                Ok(pair) => pair,
                Err(e) => {
                    proof {
                        let refused = initializer.uniforms@[j as int];
                        assert(refused.1.data@.len() * stride > u64::MAX);
                    }
                    return Err(e);
                },
            };
            uniforms.push(item);
            commands.append(&mut begun);
            j += 1;
        }
        let pending = PendingRenderer {
            device_state,
            adapter_state: taken,
            vertex,
            index,
            descriptor_pool,
            staging_pool,
            textures,
            uniforms,
            quad: None,
            image_states: Vec::new(),
            bound_uniforms: Vec::new(),
            swapchain_state: None,
        };
        Ok((pending, commands))
    }
}

/// The memory type that a buffer with these requirements gets: the first
/// host-visible one that the requirements allow.
pub open spec fn host_memory_type(adapter_state: AdapterState, requirements: Requirements) -> MemoryTypeId {
    MemoryTypeId(
        first_fit(
            adapter_state.mem_types@,
            requirements.type_mask,
            Properties { bits: CPU_VISIBLE },
        )->0 as usize,
    )
}

/// Some host-visible memory type is allowed by the requirements.
pub open spec fn has_host_memory(adapter_state: AdapterState, requirements: Requirements) -> bool {
    first_fit(adapter_state.mem_types@, requirements.type_mask, Properties { bits: CPU_VISIBLE })
        is Some
}

impl PendingRenderer {
    /// The queue family that the device is to be opened on.
    pub fn get_queue_family(&self) -> (r: usize)
        ensures
            r == self.device_state().queue_family(),
    {
        self.device_state.get_queue_family()
    }

    /// The textures that have no memory yet, each with its set.
    pub fn get_textures(&self) -> (r: &Vec<(DescriptorSet, PendingTexture)>)
        ensures
            r@ == self.textures(),
    {
        &self.textures
    }

    /// The uniforms that have no memory yet, each with its set.
    pub fn get_uniforms(&self) -> (r: &Vec<(DescriptorSet, PendingBuffer)>)
        ensures
            r@ == self.uniforms(),
    {
        &self.uniforms
    }

    /// Gives the vertex and the index buffer of the quad their memory and
    /// fills them with `vertex_source` and `index_source`, each of which has
    /// to be as long as its buffer. The two byte vectors returned are what
    /// the first and the second write among the commands copy: the sources,
    /// as they came. This is the first step after `begin`.
    pub fn bind_quad(
        self,
        vertex_source: Vec<u8>,
        vertex: &Requirements,
        index_source: Vec<u8>,
        index: &Requirements,
    ) -> (r: Result<(PendingRenderer, Vec<u8>, Vec<u8>, Vec<Command>), GpuError>)
        ensures
            match r {
                Ok((after, vertex_bytes, index_bytes, commands)) => {
                    let first = self.device_state().next_handle();
                    &&& quad_error(self, vertex_source@, *vertex, index_source@, *index) is None
                    &&& vertex_bytes@ == vertex_source@
                    &&& index_bytes@ == index_source@
                    &&& after.same_fixed_parts(&self)
                    &&& after.device_state().next_handle() == first + 2
                    &&& after.textures() == self.textures()
                    &&& after.uniforms() == self.uniforms()
                    &&& after.image_states() == self.image_states()
                    &&& after.bound_uniforms() == self.bound_uniforms()
                    &&& after.swapchain_state() == self.swapchain_state()
                    &&& after.quad() matches Some((vertex_buffer, index_buffer))
                    &&& vertex_buffer.buffer() == self.vertex().buffer
                    &&& vertex_buffer.memory() == Handle(first)
                    &&& vertex_buffer.size() == vertex.size
                    &&& index_buffer.buffer() == self.index().buffer
                    &&& index_buffer.memory() == Handle((first + 1) as u64)
                    &&& index_buffer.size() == index.size
                    &&& commands@ == bind_commands(
                        self.vertex(),
                        Handle(first),
                        host_memory_type(self.adapter_state(), *vertex),
                        *vertex,
                    ) + bind_commands(
                        self.index(),
                        Handle((first + 1) as u64),
                        host_memory_type(self.adapter_state(), *index),
                        *index,
                    )
                },
                Err(e) => quad_error(self, vertex_source@, *vertex, index_source@, *index)
                    == Some(e),
            },
    {
        let mut pending = self;
        if pending.quad.is_some() {
            return Err(GpuError::Configuration);
        }
        if !pending.device_state.can_allocate(2) {
            return Err(GpuError::SizeOverflow);
        }
        let (vertex_buffer, vertex_bytes, mut commands) = match BufferState::new(
            &mut pending.device_state,
            pending.vertex,
            vertex_source,
            vertex,
            pending.adapter_state.mem_types.as_slice(),
        ) {
            Ok(triple) => triple,
            Err(e) => {
                return Err(e);
            },
        };
        let (index_buffer, index_bytes, mut index_commands) = match BufferState::new(
            &mut pending.device_state,
            pending.index,
            index_source,
            index,
            pending.adapter_state.mem_types.as_slice(),
        ) {
            Ok(triple) => triple,
            Err(e) => {
                return Err(e);
            },
        };
        commands.append(&mut index_commands);
        pending.quad = Some((vertex_buffer, index_buffer));
        Ok((pending, vertex_bytes, index_bytes, commands))
    }

    /// Puts the next texture on the device; `texture` holds its pixels. The
    /// bytes returned are what its staging buffer is filled with. The last
    /// command waits for the transfer to be through. The textures come
    /// after the quad.
    pub fn bind_texture(
        self,
        texture: &Image,
        buffer_requirements: &Requirements,
        image_requirements: &Requirements,
    ) -> (r: Result<(PendingRenderer, Vec<u8>, Vec<Command>), GpuError>)
        ensures
            match r {
                Ok((after, bytes, commands)) => {
                    let first = self.device_state().next_handle();
                    let item = self.textures()[0];
                    &&& self.quad() is Some
                    &&& self.textures().len() > 0
                    &&& self.device_state().has_room(5)
                    &&& texture_error(
                        self.adapter_state(),
                        texture.width(),
                        texture.height(),
                        item.0.layout().bindings(),
                        *buffer_requirements,
                        *image_requirements,
                    ) is None
                    &&& bytes@.len() == item.1.buffer.size
                    &&& after.same_fixed_parts(&self)
                    &&& after.device_state().next_handle() == first + 5
                    &&& after.quad() == self.quad()
                    &&& after.textures() == self.textures().drop_first()
                    &&& after.uniforms() == self.uniforms()
                    &&& after.bound_uniforms() == self.bound_uniforms()
                    &&& after.swapchain_state() == self.swapchain_state()
                    &&& after.image_states().len() == self.image_states().len() + 1
                    &&& after.image_states().drop_last() == self.image_states()
                    &&& ({
                        let state = after.image_states().last();
                        &&& state.descriptor_set() == item.0
                        &&& state.buffer_state().buffer() == item.1.buffer.buffer
                        &&& state.buffer_state().memory() == Handle(first)
                        &&& state.image_resource_state().image() == item.1.image.image
                        &&& state.image_resource_state().memory() == Handle((first + 1) as u64)
                        &&& state.image_resource_state().image_view() == Handle(
                            (first + 2) as u64,
                        )
                        &&& state.sampler() == Handle((first + 3) as u64)
                        &&& state.image_fence() == Handle((first + 4) as u64)
                        &&& commands@ == crate::texture::texture_commands(
                            self.adapter_state(),
                            item.1,
                            first as int,
                            item.0.set(),
                            self.staging_pool(),
                            texture.width(),
                            texture.height(),
                            *buffer_requirements,
                            *image_requirements,
                        ).push(Command::WaitForFence { fence: state.image_fence() })
                    })
                    &&& bytes@ == staged_rows(
                        texture.pixels(),
                        texture.width(),
                        texture.height(),
                        masked_row_pitch(texture.width(), row_mask(self.adapter_state().limits))
                            as int,
                    )
                },
                Err(e) => {
                    ||| e == GpuError::Configuration && (self.quad() is None
                        || self.textures().len() == 0)
                    ||| {
                        let refused = texture_error(
                            self.adapter_state(),
                            texture.width(),
                            texture.height(),
                            self.textures()[0].0.layout().bindings(),
                            *buffer_requirements,
                            *image_requirements,
                        );
                        &&& self.quad() is Some
                        &&& self.textures().len() > 0
                        &&& e == (if !self.device_state().has_room(5) {
                            GpuError::SizeOverflow
                        } else if refused is Some {
                            refused->0
                        } else {
                            GpuError::Configuration
                        })
                        &&& (self.device_state().has_room(5) && refused is None)
                            ==> upload_size_spec(
                            texture.width(),
                            texture.height(),
                            row_mask(self.adapter_state().limits),
                        ) != self.textures()[0].1.buffer.size
                    }
                },
            },
    {
        let mut pending = self;
        if pending.quad.is_none() || pending.textures.len() == 0 {
            return Err(GpuError::Configuration);
        }
        if !pending.device_state.can_allocate(5) {
            return Err(GpuError::SizeOverflow);
        }
        let (descriptor_set, pending_texture) = pending.textures.remove(0);
        let (state, bytes, mut commands) = match ImageState::new(
            descriptor_set,
            &mut pending.device_state,
            &pending.adapter_state,
            pending_texture,
            texture,
            buffer_requirements,
            image_requirements,
            pending.staging_pool,
        ) {
            Ok(triple) => triple,
            Err(e) => {
                return Err(e);
            },
        };
        if bytes.len() as u64 != pending_texture.buffer.size {
            return Err(GpuError::Configuration);
        }
        commands.push(state.wait_for_transfer());
        pending.image_states.push(state);
        assert(pending.image_states@.drop_last() == self.image_states());
        Ok((pending, bytes, commands))
    }

    /// Gives the next uniform its memory, fills it with `source`, which has
    /// to be as long as its buffer, and writes its buffer into the binding
    /// that its layout declares. The bytes returned are those that the write
    /// into the memory copies: `source`, as it came. The uniforms come after the
    /// textures; with the first of them the pool that the transfers were
    /// recorded from is destroyed.
    pub fn bind_uniform(self, source: Vec<u8>, requirements: &Requirements) -> (r: Result<
        (PendingRenderer, Vec<u8>, Vec<Command>),
        GpuError,
    >)
        ensures
            match r {
                Ok((after, bytes, commands)) => {
                    let first = self.device_state().next_handle();
                    let item = self.uniforms()[0];
                    let binding = item.0.layout().bindings()[0].binding;
                    let head = if self.bound_uniforms().len() == 0 {
                        seq![
                            Command::Destroy {
                                kind: crate::device::ResourceKind::CommandPool,
                                handle: self.staging_pool(),
                            },
                        ]
                    } else {
                        Seq::<Command>::empty()
                    };
                    &&& uniform_error(self, source@, *requirements) is None
                    &&& bytes@ == source@
                    &&& after.same_fixed_parts(&self)
                    &&& after.device_state().next_handle() == first + 1
                    &&& after.quad() == self.quad()
                    &&& after.textures() == self.textures()
                    &&& after.image_states() == self.image_states()
                    &&& after.swapchain_state() == self.swapchain_state()
                    &&& after.uniforms() == self.uniforms().drop_first()
                    &&& after.bound_uniforms().len() == self.bound_uniforms().len() + 1
                    &&& after.bound_uniforms().drop_last() == self.bound_uniforms()
                    &&& after.bound_uniforms().last().descriptor_set() == item.0
                    &&& after.bound_uniforms().last().buffer_state().buffer() == item.1.buffer
                    &&& after.bound_uniforms().last().buffer_state().memory() == Handle(first)
                    &&& after.bound_uniforms().last().buffer_state().size() == requirements.size
                    &&& commands@ == head + bind_commands(
                        item.1,
                        Handle(first),
                        host_memory_type(self.adapter_state(), *requirements),
                        *requirements,
                    ).push(
                        crate::descriptor::write_command(
                            item.0.set(),
                            buffer_write(binding, item.1.buffer),
                        ),
                    )
                },
                Err(e) => uniform_error(self, source@, *requirements) == Some(e),
            },
    {
        let mut pending = self;
        if pending.quad.is_none() || pending.textures.len() != 0 || pending.uniforms.len() == 0 {
            return Err(GpuError::Configuration);
        }
        if pending.uniforms[0].0.layout.bindings.len() == 0 {
            return Err(GpuError::Configuration);
        }
        if !pending.device_state.can_allocate(1) {
            return Err(GpuError::SizeOverflow);
        }
        let (descriptor_set, pending_buffer) = pending.uniforms.remove(0);
        let binding = descriptor_set.layout.bindings[0].binding;
        let mut commands: Vec<Command> = Vec::new();
        if pending.bound_uniforms.len() == 0 {
            commands.push(
                Command::Destroy {
                    kind: crate::device::ResourceKind::CommandPool,
                    handle: pending.staging_pool,
                },
            );
        }
        let (uniform, bytes, mut bound) = match Uniform::new(
            &mut pending.device_state,
            pending.adapter_state.mem_types.as_slice(),
            pending_buffer,
            source,
            requirements,
            descriptor_set,
            binding,
        ) {
            Ok(pair) => pair,
            Err(e) => {
                return Err(e);
            },
        };
        commands.append(&mut bound);
        pending.bound_uniforms.push(uniform);
        assert(pending.bound_uniforms@.drop_last() == self.bound_uniforms());
        Ok((pending, bytes, commands))
    }

    /// Configures the swapchain for the surface. This comes after the last
    /// uniform.
    pub fn create_swapchain(
        self,
        caps: &SurfaceCapabilities,
        formats: &Option<Vec<Format>>,
        frame_extent: Extent2D,
    ) -> (r: Result<(PendingRenderer, Command), GpuError>)
        ensures
            match r {
                Ok((after, command)) => {
                    let config = config_spec(
                        *caps,
                        crate::frame::formats_view(*formats),
                        frame_extent,
                    );
                    &&& is_bound(&self)
                    &&& self.swapchain_state() is None
                    &&& self.device_state().has_room(1)
                    &&& can_configure(*caps)
                    &&& after.same_fixed_parts(&self)
                    &&& after.device_state().next_handle() == self.device_state().next_handle() + 1
                    &&& after.quad() == self.quad()
                    &&& after.textures() == self.textures()
                    &&& after.uniforms() == self.uniforms()
                    &&& after.image_states() == self.image_states()
                    &&& after.bound_uniforms() == self.bound_uniforms()
                    &&& after.swapchain_state() matches Some(state)
                    &&& state.swapchain() == Handle(self.device_state().next_handle())
                    &&& state.backbuffer() is None
                    &&& state.format() == config.format
                    &&& state.extent() == (Extent {
                        width: config.extent.width,
                        height: config.extent.height,
                        depth: 1,
                    })
                    &&& command == (Command::CreateSwapchain {
                        swapchain: state.swapchain(),
                        config,
                        previous: None,
                    })
                },
                Err(e) => {
                    &&& e == (if !is_bound(&self) || self.swapchain_state() is Some {
                        GpuError::Configuration
                    } else if !self.device_state().has_room(1) {
                        GpuError::SizeOverflow
                    } else {
                        GpuError::Configuration
                    })
                    &&& (is_bound(&self) && self.swapchain_state() is None
                        && self.device_state().has_room(1)) ==> !can_configure(*caps)
                },
            },
    {
        let mut pending = self;
        if pending.quad.is_none() || pending.textures.len() != 0 || pending.uniforms.len() != 0
            || pending.bound_uniforms.len() == 0 || pending.swapchain_state.is_some() {
            return Err(GpuError::Configuration);
        }
        if !pending.device_state.can_allocate(1) {
            return Err(GpuError::SizeOverflow);
        }
        let (state, command) = match SwapchainState::new(
            &mut pending.device_state,
            caps,
            formats,
            frame_extent,
            None,
        ) {
            Ok(pair) => pair,
            Err(e) => {
                return Err(e);
            },
        };
        pending.swapchain_state = Some(state);
        Ok((pending, command))
    }

    /// Builds the chain for the backbuffer that the device handed out with
    /// the swapchain, and with it the renderer.
    pub fn finish(self, backbuffer: Backbuffer) -> (r: Result<
        (RendererState, Vec<Command>),
        GpuError,
    >)
        ensures
            match r {
                Ok((renderer, commands)) => {
                    let before = crate::renderer::initial_view(
                        self.device_state(),
                        self.swapchain_state()->0,
                        crate::renderer::layouts_of(self.image_states(), self.bound_uniforms()),
                        crate::renderer::sets_of(self.image_states(), self.bound_uniforms()),
                        quad_of(&self).0,
                        quad_of(&self).1,
                        QUAD_INDEX_COUNT,
                    );
                    &&& is_bound(&self)
                    &&& self.swapchain_state() is Some
                    &&& self.swapchain_state()->0.swapchain().0 < self.device_state().next_handle()
                    &&& self.device_state().has_room(crate::frame::chain_handles(backbuffer))
                    &&& renderer.frame_view() == crate::frame::step_view(
                        before,
                        crate::frame::FrameEvent::SwapchainCreated { backbuffer },
                    )
                    &&& commands@ == crate::frame::build_commands(before, backbuffer)
                    &&& renderer.adapter_state() == self.adapter_state()
                    &&& renderer.uniforms() == self.bound_uniforms()
                    &&& renderer.image_states() == self.image_states()
                    &&& renderer.descriptor_pool() == self.descriptor_pool()
                },
                Err(e) => {
                    &&& e == (if !is_bound(&self) || self.swapchain_state() is None
                        || self.swapchain_state()->0.swapchain().0
                        >= self.device_state().next_handle() {
                        GpuError::Configuration
                    } else {
                        GpuError::SizeOverflow
                    })
                    &&& e == GpuError::SizeOverflow ==> !self.device_state().has_room(
                        crate::frame::chain_handles(backbuffer),
                    )
                },
            },
    {
        let PendingRenderer {
            device_state,
            adapter_state,
            vertex: _,
            index: _,
            descriptor_pool,
            staging_pool: _,
            textures,
            uniforms,
            quad,
            image_states,
            bound_uniforms,
            swapchain_state,
        } = self;
        if textures.len() != 0 || uniforms.len() != 0 || bound_uniforms.len() == 0 {
            return Err(GpuError::Configuration);
        }
        let (vertex_buffer, index_buffer) = match quad {
            Some(pair) => pair,
            None => {
                return Err(GpuError::Configuration);
            },
        };
        let swapchain_state = match swapchain_state {
            Some(state) => state,
            None => {
                return Err(GpuError::Configuration);
            },
        };
        RendererState::new(
            device_state,
            adapter_state,
            vertex_buffer,
            index_buffer,
            QUAD_INDEX_COUNT,
            descriptor_pool,
            image_states,
            bound_uniforms,
            swapchain_state,
            backbuffer,
        )
    }
}

/// The vertex and the index buffer of the quad.
pub open spec fn quad_of(pending: &PendingRenderer) -> (BufferState, BufferState) {
    pending.quad()->0
}

/// The quad, every texture and every uniform have their memory.
pub open spec fn is_bound(pending: &PendingRenderer) -> bool {
    &&& pending.quad() is Some
    &&& pending.textures().len() == 0
    &&& pending.uniforms().len() == 0
    &&& pending.bound_uniforms().len() > 0
}

/// Why the quad cannot get its memory, if it cannot.
pub open spec fn quad_error(
    pending: PendingRenderer,
    vertex_source: Seq<u8>,
    vertex: Requirements,
    index_source: Seq<u8>,
    index: Requirements,
) -> Option<GpuError> {
    if pending.quad() is Some {
        Some(GpuError::Configuration)
    } else if !pending.device_state().has_room(2) {
        Some(GpuError::SizeOverflow)
    } else if vertex_source.len() != pending.vertex().size {
        Some(GpuError::Configuration)
    } else if !has_host_memory(pending.adapter_state(), vertex) {
        Some(GpuError::NoCompatibleMemoryType)
    } else if index_source.len() != pending.index().size {
        Some(GpuError::Configuration)
    } else if !has_host_memory(pending.adapter_state(), index) {
        Some(GpuError::NoCompatibleMemoryType)
    } else {
        None
    }
}

/// Why the next uniform cannot get its memory, if it cannot.
pub open spec fn uniform_error(
    pending: PendingRenderer,
    source: Seq<u8>,
    requirements: Requirements,
) -> Option<GpuError> {
    if pending.quad() is None || pending.textures().len() != 0 || pending.uniforms().len() == 0 {
        Some(GpuError::Configuration)
    } else if pending.uniforms()[0].0.layout().bindings().len() == 0 {
        Some(GpuError::Configuration)
    } else if !pending.device_state().has_room(1) {
        Some(GpuError::SizeOverflow)
    } else if source.len() != pending.uniforms()[0].1.size {
        Some(GpuError::Configuration)
    } else if !has_host_memory(pending.adapter_state(), requirements) {
        Some(GpuError::NoCompatibleMemoryType)
    } else if !write_is_declared(
        pending.uniforms()[0].0.layout().bindings(),
        buffer_write(
            pending.uniforms()[0].0.layout().bindings()[0].binding,
            pending.uniforms()[0].1.buffer,
        ),
    ) {
        Some(GpuError::Configuration)
    } else {
        None
    }
}

} // verus!
