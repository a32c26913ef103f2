use crate::adapter::{Adapter, QueueFamily, QueueType};
use crate::error::GpuError;
use crate::format::Format;
use crate::image::{Kind, Layout};
use crate::memory::MemoryTypeId;
use crate::shader;
use crate::swapchain::{Extent, Extent2D, SwapchainConfig};
use vstd::prelude::*;

verus! {

/// Name of one device object. The caller keeps the object behind it.
#[derive(Clone, Copy, Debug, PartialEq, Eq, Structural)]
pub struct Handle(pub u64);

/// What kind of device object a handle names.
#[derive(Clone, Copy, Debug, PartialEq, Eq, Structural)]
pub enum ResourceKind {
    Buffer,
    Memory,
    Image,
    ImageView,
    Sampler,
    Fence,
    Semaphore,
    CommandPool,
    Framebuffer,
    RenderPass,
    PipelineLayout,
    GraphicsPipeline,
    ShaderModule,
    DescriptorSetLayout,
    DescriptorPool,
    Swapchain,
}

/// What a descriptor write puts into a binding.
#[derive(Clone, Copy, Debug, PartialEq, Eq, Structural)]
pub enum Descriptor {
    /// An image view and the layout the image is in when it is read.
    Image(Handle, Layout),
    Sampler(Handle),
    /// A whole buffer.
    Buffer(Handle),
}

/// One operation for the caller to perform on the device, in the order given.
#[allow(inconsistent_fields)]
#[derive(Clone, Copy, Debug, PartialEq, Eq, Structural)]
pub enum Command {
    CreateBuffer { buffer: Handle, size: u64, usage: u32 },
    CreateImage { image: Handle, kind: Kind, mip_levels: u8, format: Format, usage: u32 },
    AllocateMemory { memory: Handle, memory_type: MemoryTypeId, size: u64 },
    BindBufferMemory { memory: Handle, buffer: Handle },
    BindImageMemory { memory: Handle, image: Handle },
    /// Map `size` bytes of the memory from `offset` on, copy the source bytes
    /// in, unmap.
    WriteMemory { memory: Handle, offset: u64, size: u64 },
    CreateImageView { view: Handle, image: Handle, format: Format, aspects: u8 },
    /// A sampler with linear filtering that clamps at the edges.
    CreateSampler { sampler: Handle },
    CreateFence { fence: Handle, signaled: bool },
    CreateSemaphore { semaphore: Handle },
    CreateCommandPool { pool: Handle, family: usize },
    /// A pool for `max_sets` sets that hold no more descriptors of each
    /// type than the counts say.
    CreateDescriptorPool {
        pool: Handle,
        max_sets: usize,
        sampled_images: usize,
        samplers: usize,
        uniform_buffers: usize,
    },
    CreateDescriptorSetLayout { layout: Handle },
    AllocateDescriptorSet { set: Handle, pool: Handle, layout: Handle },
    WriteDescriptorSet { set: Handle, binding: u32, array_offset: usize, descriptor: Descriptor },
    /// `previous` is the swapchain that hands the surface over.
    CreateSwapchain { swapchain: Handle, config: SwapchainConfig, previous: Option<Handle> },
    CreateRenderPass { render_pass: Handle, format: Format },
    /// Take the image of this index of the swapchain under the name `image`.
    AdoptSwapchainImage { image: Handle, swapchain: Handle, index: u32 },
    /// Take the framebuffer that the swapchain came with under this name.
    AdoptSwapchainFramebuffer { framebuffer: Handle, swapchain: Handle },
    CreateFramebuffer { framebuffer: Handle, render_pass: Handle, view: Handle, extent: Extent },
    CreateShaderModule { module: Handle, stage: shader::Kind },
    CreatePipelineLayout { layout: Handle },
    CreateGraphicsPipeline {
        pipeline: Handle,
        layout: Handle,
        render_pass: Handle,
        vertex: Handle,
        fragment: Handle,
    },
    Destroy { kind: ResourceKind, handle: Handle },
    /// Block until the fence is signalled.
    WaitForFence { fence: Handle },
    ResetFence { fence: Handle },
    ResetCommandPool { pool: Handle },
    /// Block until every queue of the device has drained.
    WaitIdle,
    /// Take a one-shot command buffer from the pool and begin recording.
    BeginCommands { pool: Handle },
    ImageBarrier {
        image: Handle,
        from_access: u32,
        from_layout: Layout,
        to_access: u32,
        to_layout: Layout,
        from_stage: u32,
        to_stage: u32,
    },
    CopyBufferToImage {
        buffer: Handle,
        image: Handle,
        layout: Layout,
        buffer_width: u32,
        buffer_height: u32,
        width: u32,
        height: u32,
    },
    SetViewport { extent: Extent2D },
    SetScissor { extent: Extent2D },
    BindGraphicsPipeline { pipeline: Handle },
    BindVertexBuffer { buffer: Handle },
    /// Bind a buffer of 16-bit indices.
    BindIndexBuffer { buffer: Handle },
    BindDescriptorSet { layout: Handle, index: usize, set: Handle },
    /// Begin the pass, clearing the colour attachment.
    BeginRenderPass { render_pass: Handle, framebuffer: Handle, extent: Extent2D },
    DrawIndexed { first_index: u32, end_index: u32 },
    EndRenderPass,
    /// End recording.
    FinishCommands,
    /// Submit the recorded buffer without semaphores.
    SubmitTransfer { fence: Handle },
    AcquireImage { swapchain: Handle, semaphore: Handle },
    /// Submit the recorded buffer: it waits on `wait` at `wait_stage`.
    Submit { wait: Handle, wait_stage: u32, signal: Handle, fence: Handle },
    Present { swapchain: Handle, image_index: u32, wait: Handle },
}

/// What it means for the renderer that the device failed at `command`
/// while the renderer was set up: a set that cannot be allocated means that
/// the pool is exhausted, a shader module that cannot be created means that
/// its source did not compile, and everything else is a resource that the
/// device could not make.
pub open spec fn failure_spec(command: Command) -> GpuError {
    match command {
        Command::AllocateDescriptorSet { .. } => GpuError::DescriptorPoolExhausted,
        Command::CreateShaderModule { .. } => GpuError::ShaderCompilation,
        _ => GpuError::ResourceCreation,
    }
}

/// The error that ends the setup when the device fails at `command`.
pub fn failure(command: &Command) -> (r: GpuError)
    ensures
        r == failure_spec(*command),
{
    match command {
        Command::AllocateDescriptorSet { .. } => GpuError::DescriptorPoolExhausted,
        Command::CreateShaderModule { .. } => GpuError::ShaderCompilation,
        _ => GpuError::ResourceCreation,
    }
}

/// `len` handles in a row, the first of them `start`.
pub open spec fn handle_range(start: int, len: int) -> Seq<Handle> {
    Seq::new(len as nat, |i: int| Handle((start + i) as u64))
}

/// One command for each handle, in order: destroy it as a `kind`.
pub open spec fn destroy_all(kind: ResourceKind, handles: Seq<Handle>) -> Seq<Command> {
    Seq::new(handles.len(), |i: int| Command::Destroy { kind, handle: handles[i] })
}

/// The handles from `start` on, `len` of them.
pub fn make_handle_range(start: u64, len: usize) -> (r: Vec<Handle>)
    requires
        start + len <= u64::MAX,
    ensures
        r@ == handle_range(start as int, len as int),
{
    let mut handles: Vec<Handle> = Vec::new();
    let mut i: usize = 0;
    while i < len
        invariant
            i <= len,
            start + len <= u64::MAX,
            handles@ == handle_range(start as int, i as int),
        decreases len - i,
    {
        handles.push(Handle(start + i as u64));
        i += 1;
    }
    handles
}

/// Appends to `commands` the destruction of each of `handles`, in order.
pub fn push_destroy_all(commands: &mut Vec<Command>, kind: ResourceKind, handles: &Vec<Handle>)
    ensures
        final(commands)@ == old(commands)@ + destroy_all(kind, handles@),
{
    let mut i: usize = 0;
    while i < handles.len()
        invariant
            i <= handles@.len(),
            commands@ == old(commands)@ + destroy_all(kind, handles@.take(i as int)),
        decreases handles@.len() - i,
    {
        commands.push(Command::Destroy { kind, handle: handles[i] });
        i += 1;
    }
    assert(handles@.take(handles@.len() as int) == handles@);
}

/// The logical device as this crate sees it: the queue family its queues
/// come from, and the next handle that is free.
pub struct DeviceState {
    pub(crate) queue_family: usize,
    pub(crate) next_handle: u64,
}

/// The family can do graphics work and present to the surface with one queue.
pub open spec fn family_fits(family: QueueFamily) -> bool {
    &&& family.queue_type == QueueType::General || family.queue_type == QueueType::Graphics
    &&& family.supports_present
    &&& 1 <= family.max_queues
}

impl DeviceState {
    pub open(crate) spec fn queue_family(&self) -> usize {
        self.queue_family
    }

    /// Number of handles handed out so far.
    pub open(crate) spec fn next_handle(&self) -> u64 {
        self.next_handle
    }

    /// `count` more handles can be handed out.
    pub open spec fn has_room(&self, count: int) -> bool {
        self.next_handle() + count <= u64::MAX
    }

    /// Opens the adapter on its first queue family that can do graphics
    /// work and present to the surface.
    pub fn new(adapter: &Adapter) -> (r: Result<DeviceState, GpuError>)
        ensures
            match r {
                Ok(device) => {
                    &&& device.next_handle() == 0
                    &&& exists|i: int|
                        {
                            &&& 0 <= i < adapter.queue_families@.len()
                            &&& family_fits(#[trigger] adapter.queue_families@[i])
                            &&& device.queue_family() == adapter.queue_families@[i].id
                            &&& forall|j: int| 0 <= j < i ==> !family_fits(adapter.queue_families@[j])
                        }
                },
                Err(e) => {
                    &&& e == GpuError::NoCompatibleQueueFamily
                    &&& forall|j: int|
                        0 <= j < adapter.queue_families@.len() ==> !family_fits(
                            adapter.queue_families@[j],
                        )
                },
            },
    {
        let mut i: usize = 0;
        while i < adapter.queue_families.len()
            invariant
                i <= adapter.queue_families@.len(),
                forall|j: int| 0 <= j < i ==> !family_fits(adapter.queue_families@[j]),
            decreases adapter.queue_families@.len() - i,
        {
            let family = &adapter.queue_families[i];
            let graphics = match family.queue_type {
                QueueType::General => true,
                QueueType::Graphics => true,
                _ => false,
            };
            if graphics && family.supports_present && 1 <= family.max_queues {
                return Ok(DeviceState { queue_family: family.id, next_handle: 0 });
            }
            i += 1;
        }
        Err(GpuError::NoCompatibleQueueFamily)
    }

    /// The queue family that the device was opened on.
    pub fn get_queue_family(&self) -> (r: usize)
        ensures
            r == self.queue_family(),
    {
        self.queue_family
    }

    /// Whether `count` more handles can be handed out.
    pub fn can_allocate(&self, count: u64) -> (r: bool)
        ensures
            r == self.has_room(count as int),
    {
        count <= u64::MAX - self.next_handle
    }

    /// Hands out `count` handles in a row and returns the first.
    pub fn allocate(&mut self, count: u64) -> (r: Handle)
        requires
            old(self).has_room(count as int),
        ensures
            r.0 == old(self).next_handle(),
            final(self).next_handle() == old(self).next_handle() + count,
            final(self).queue_family() == old(self).queue_family(),
    {
        let first = self.next_handle;
        self.next_handle = self.next_handle + count;
        Handle(first)
    }

    /// Number of handles that the device has handed out.
    pub fn mark(&self) -> (r: u64)
        ensures
            r == self.next_handle(),
    {
        self.next_handle
    }

    /// Takes back every handle that was handed out since `mark`. Only for
    /// handles that no command has named yet.
    pub(crate) fn rewind(&mut self, mark: u64)
        requires
            mark <= old(self).next_handle(),
        ensures
            final(self).next_handle() == mark,
            final(self).queue_family() == old(self).queue_family(),
    {
        self.next_handle = mark;
    }

    /// Names a new command pool for the queue family of the device.
    pub fn create_command_pool(&mut self) -> (r: (Handle, Command))
        requires
            old(self).has_room(1),
        ensures
            r.0.0 == old(self).next_handle(),
            r.1 == (Command::CreateCommandPool { pool: r.0, family: old(self).queue_family() }),
            final(self).next_handle() == old(self).next_handle() + 1,
            final(self).queue_family() == old(self).queue_family(),
    {
        let pool = self.allocate(1);
        (pool, Command::CreateCommandPool { pool, family: self.queue_family })
    }
}

} // verus!
