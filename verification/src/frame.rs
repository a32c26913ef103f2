use crate::buffer::BufferState;
use crate::device::{destroy_all, handle_range, Command, Handle, ResourceKind};
use crate::format::Format;
use crate::framebuffer::{
    creation_commands, fence_teardown, frame_image_pairs, framebuffer_count, handles_needed,
    image_count, next_slot,
};
use crate::pipeline::pipeline_commands;
use crate::renderer::STAGE_COLOR_ATTACHMENT_OUTPUT;
use crate::swapchain::{
    can_configure, config_spec, Backbuffer, Extent, Extent2D, SurfaceCapabilities,
};
use vstd::prelude::*;

verus! {

/// Where the renderer stands in its frame.
#[derive(Clone, Copy, Debug, PartialEq, Eq, Structural)]
pub enum FrameState {
    /// Between two frames: the window is to be polled.
    Idle,
    /// An image of the swapchain is being acquired.
    AcquireImage,
    /// The commands of the frame are being recorded.
    RecordCommands,
    /// The recorded commands are being submitted.
    Submit,
    /// The image is being presented.
    Present,
    /// The objects that hang on the swapchain are gone; the surface is
    /// being asked what it can do now.
    RecreateSwapchain,
    /// The new swapchain is being created; its backbuffer is awaited.
    RebuildChain,
    /// The window was closed.
    Stopped,
}

/// What may happen to the renderer from outside.
#[derive(Clone, Debug, PartialEq, Eq)]
pub enum FrameEvent {
    /// The window was polled: whether it was asked to close, and the size
    /// it was resized to if it was.
    Polled { close: bool, resize: Option<Extent2D> },
    /// The surface told what it can do and which formats it takes.
    SurfaceQueried { caps: SurfaceCapabilities, formats: Option<Vec<Format>> },
    /// The device created the swapchain and handed out its backbuffer.
    SwapchainCreated { backbuffer: Backbuffer },
    /// The swapchain handed out the image of this index.
    Acquired { image: u32 },
    /// The swapchain is out of date and handed out no image.
    AcquireFailed,
    /// The device has taken the commands of the last step.
    Done,
    /// The image is with the presentation engine.
    Presented,
    /// The swapchain is out of date and the image was not presented.
    PresentFailed,
}

/// The objects that are made for one swapchain and go with it: the render
/// pass, the framebuffers with the frame slots, and the pipeline. The
/// handles of the framebuffer state start at `first_handle`.
pub struct ChainView {
    pub render_pass: Handle,
    /// The format that the render pass was made for.
    pub format: Format,
    pub first_handle: u64,
    pub images: int,
    pub buffers: int,
    pub pipeline_layout: Handle,
    pub pipeline: Handle,
    /// The set layouts that the pipeline layout was made of, in binding
    /// order.
    pub descriptor_layouts: Seq<Handle>,
}

/// The renderer as the frame loop sees it.
pub struct FrameView {
    pub state: FrameState,
    pub will_recreate_swapchain: bool,
    pub resize_dimensions: Extent2D,
    /// The frame slot of the frame that is under way.
    pub semaphore_index: usize,
    /// The image of the frame that is under way.
    pub frame: u32,
    pub last_semaphore_index: usize,
    pub next_handle: u64,
    pub family: usize,
    pub swapchain: Handle,
    pub format: Format,
    pub extent: Extent,
    /// The backbuffer of the swapchain, while no chain has taken it.
    pub backbuffer: Option<Backbuffer>,
    pub chain: Option<ChainView>,
    /// The layouts of the sets of the textures, then those of the uniforms.
    pub descriptor_layouts: Seq<Handle>,
    /// The sets of the textures, then those of the uniforms.
    pub descriptor_sets: Seq<Handle>,
    /// The vertex buffer of the quad, with its memory.
    pub vertex_buffer: BufferState,
    /// The index buffer of the quad, with its memory.
    pub index_buffer: BufferState,
    pub index_count: u32,
    pub viewport: Extent2D,
}

impl ChainView {
    pub open spec fn slots(self) -> int {
        if self.images != 0 {
            self.images
        } else {
            1
        }
    }

    pub open spec fn slot_first(self) -> int {
        self.first_handle + 2 * self.images + self.buffers
    }

    /// Number of handles of the framebuffer state.
    pub open spec fn handles(self) -> int {
        2 * self.images + self.buffers + 4 * self.slots()
    }

    pub open spec fn image_view(self, index: int) -> Handle {
        Handle((self.first_handle + self.images + index) as u64)
    }

    pub open spec fn framebuffer(self, index: int) -> Handle {
        Handle((self.first_handle + 2 * self.images + index) as u64)
    }

    pub open spec fn fence(self, index: int) -> Handle {
        Handle((self.slot_first() + index) as u64)
    }

    pub open spec fn command_pool(self, index: int) -> Handle {
        Handle((self.slot_first() + self.slots() + index) as u64)
    }

    pub open spec fn acquire_semaphore(self, index: int) -> Handle {
        Handle((self.slot_first() + 2 * self.slots() + index) as u64)
    }

    pub open spec fn present_semaphore(self, index: int) -> Handle {
        Handle((self.slot_first() + 3 * self.slots() + index) as u64)
    }

    /// The chain is that of some backbuffer, and its handles fit.
    pub open spec fn wf(self) -> bool {
        &&& 0 <= self.images <= u32::MAX
        &&& self.buffers == self.images || (self.images == 0 && self.buffers == 1)
        &&& self.first_handle + self.handles() <= u64::MAX
    }

    /// Every handle of the chain was handed out before `next_handle`.
    pub open spec fn is_below(self, next_handle: u64) -> bool {
        &&& self.first_handle + self.handles() <= next_handle
        &&& self.render_pass.0 < next_handle
        &&& self.pipeline_layout.0 < next_handle
        &&& self.pipeline.0 < next_handle
    }

    /// What is told the device to take the chain down: the frame slots and
    /// framebuffers go first, with the image views last among them; then
    /// the pipeline; then the render pass.
    pub open spec fn teardown(self) -> Seq<Command> {
        fence_teardown(handle_range(self.slot_first(), self.slots())) + destroy_all(
            ResourceKind::CommandPool,
            handle_range(self.slot_first() + self.slots(), self.slots()),
        ) + destroy_all(
            ResourceKind::Semaphore,
            handle_range(self.slot_first() + 2 * self.slots(), self.slots()),
        ) + destroy_all(
            ResourceKind::Semaphore,
            handle_range(self.slot_first() + 3 * self.slots(), self.slots()),
        ) + destroy_all(
            ResourceKind::Framebuffer,
            handle_range(self.first_handle + 2 * self.images, self.buffers),
        ) + destroy_all(
            ResourceKind::ImageView,
            frame_image_pairs(self.first_handle as int, self.images).map_values(
                |pair: (Handle, Handle)| pair.1,
            ),
        ) + seq![
            Command::Destroy { kind: ResourceKind::GraphicsPipeline, handle: self.pipeline },
            Command::Destroy { kind: ResourceKind::PipelineLayout, handle: self.pipeline_layout },
            Command::Destroy { kind: ResourceKind::RenderPass, handle: self.render_pass },
        ]
    }
}

/// The chain that is built for `backbuffer` when the next free handle is
/// `next_handle`: the render pass takes the first handle, the framebuffer
/// state the next ones, the pipeline the last four.
pub open spec fn built_chain(
    next_handle: u64,
    backbuffer: Backbuffer,
    format: Format,
    descriptor_layouts: Seq<Handle>,
) -> ChainView {
    let first = next_handle + 1;
    let after = first + handles_needed(Some(backbuffer));
    ChainView {
        render_pass: Handle(next_handle),
        format,
        first_handle: first as u64,
        images: image_count(backbuffer),
        buffers: framebuffer_count(backbuffer),
        pipeline_layout: Handle(after as u64),
        pipeline: Handle((after + 3) as u64),
        descriptor_layouts,
    }
}

/// Number of handles that building a chain for `backbuffer` takes.
pub open spec fn chain_handles(backbuffer: Backbuffer) -> int {
    1 + handles_needed(Some(backbuffer)) + 4
}

/// What is told the device to build the chain for `backbuffer`.
pub open spec fn build_commands(view: FrameView, backbuffer: Backbuffer) -> Seq<Command> {
    let chain = built_chain(view.next_handle, backbuffer, view.format, view.descriptor_layouts);
    seq![Command::CreateRenderPass { render_pass: chain.render_pass, format: view.format }]
        + creation_commands(
        chain.first_handle as int,
        backbuffer,
        view.swapchain,
        chain.render_pass,
        view.format,
        view.extent,
        view.family,
    ) + pipeline_commands(chain.pipeline_layout.0 as int, chain.render_pass)
}

/// Binding the set of index `i` for every set there is.
pub open spec fn bind_set_commands(layout: Handle, sets: Seq<Handle>) -> Seq<Command> {
    Seq::new(sets.len(), |i: int| Command::BindDescriptorSet { layout, index: i as usize, set: sets[i] })
}

/// What is recorded for one frame into the framebuffer of `view.frame`,
/// once the fence of that image says that its last frame is through.
pub open spec fn record_commands(view: FrameView) -> Seq<Command> {
    let chain = view.chain->0;
    let image = view.frame as int;
    seq![
        Command::WaitForFence { fence: chain.fence(image) },
        Command::ResetFence { fence: chain.fence(image) },
        Command::ResetCommandPool { pool: chain.command_pool(image) },
        Command::BeginCommands { pool: chain.command_pool(image) },
        Command::SetViewport { extent: view.viewport },
        Command::SetScissor { extent: view.viewport },
        Command::BindGraphicsPipeline { pipeline: chain.pipeline },
        Command::BindVertexBuffer { buffer: view.vertex_buffer.buffer() },
        Command::BindIndexBuffer { buffer: view.index_buffer.buffer() },
    ] + bind_set_commands(chain.pipeline_layout, view.descriptor_sets) + seq![
        Command::BeginRenderPass {
            render_pass: chain.render_pass,
            framebuffer: chain.framebuffer(image),
            extent: view.viewport,
        },
        Command::DrawIndexed { first_index: 0, end_index: view.index_count },
        Command::EndRenderPass,
        Command::FinishCommands,
    ]
}

/// The submission of a frame: it waits for the acquire semaphore of the slot
/// where it writes to the colour attachment, signals the present semaphore
/// of the slot, and signals the fence of the image.
pub open spec fn submit_command(view: FrameView) -> Command {
    let chain = view.chain->0;
    Command::Submit {
        wait: chain.acquire_semaphore(view.semaphore_index as int),
        wait_stage: STAGE_COLOR_ATTACHMENT_OUTPUT,
        signal: chain.present_semaphore(view.semaphore_index as int),
        fence: chain.fence(view.frame as int),
    }
}

/// The presentation of a frame, which waits for the present semaphore of
/// the slot.
pub open spec fn present_command(view: FrameView) -> Command {
    let chain = view.chain->0;
    Command::Present {
        swapchain: view.swapchain,
        image_index: view.frame,
        wait: chain.present_semaphore(view.semaphore_index as int),
    }
}

/// The formats that a surface reported, as a sequence.
pub open spec fn formats_view(formats: Option<Vec<Format>>) -> Option<Seq<Format>> {
    match formats {
        Some(list) => Some(list@),
        None => None,
    }
}

/// The event is one that the state waits for.
pub open spec fn event_fits(view: FrameView, event: FrameEvent) -> bool {
    match view.state {
        FrameState::Idle => event is Polled,
        FrameState::AcquireImage => event is AcquireFailed || (event matches FrameEvent::Acquired {
            image,
        } && image < view.chain->0.buffers && image < view.chain->0.slots()),
        FrameState::RecordCommands => event is Done,
        FrameState::Submit => event is Done,
        FrameState::Present => event is Presented || event is PresentFailed,
        FrameState::RecreateSwapchain => event matches FrameEvent::SurfaceQueried { caps, .. }
            && can_configure(caps) && view.next_handle < u64::MAX,
        FrameState::RebuildChain => event matches FrameEvent::SwapchainCreated { backbuffer }
            && view.next_handle + chain_handles(backbuffer) <= u64::MAX,
        FrameState::Stopped => false,
    }
}

/// The renderer after an event that fits its state.
pub open spec fn step_view(view: FrameView, event: FrameEvent) -> FrameView {
    match event {
        FrameEvent::Polled { close, resize } => {
            let recreate = view.will_recreate_swapchain || resize is Some;
            let dimensions = match resize {
                Some(extent) => extent,
                None => view.resize_dimensions,
            };
            if close {
                FrameView { state: FrameState::Stopped, ..view }
            } else if recreate {
                FrameView {
                    state: FrameState::RecreateSwapchain,
                    will_recreate_swapchain: true,
                    resize_dimensions: dimensions,
                    last_semaphore_index: 0,
                    chain: None,
                    ..view
                }
            } else {
                let slot = next_slot(view.last_semaphore_index as int, view.chain->0.slots());
                FrameView {
                    state: FrameState::AcquireImage,
                    semaphore_index: slot as usize,
                    last_semaphore_index: (slot + 1) as usize,
                    ..view
                }
            }
        },
        FrameEvent::SurfaceQueried { caps, formats } => {
            let config = config_spec(caps, formats_view(formats), view.resize_dimensions);
            FrameView {
                state: FrameState::RebuildChain,
                swapchain: Handle(view.next_handle),
                backbuffer: None,
                format: config.format,
                extent: Extent {
                    width: config.extent.width,
                    height: config.extent.height,
                    depth: 1,
                },
                next_handle: (view.next_handle + 1) as u64,
                ..view
            }
        },
        FrameEvent::SwapchainCreated { backbuffer } => FrameView {
            state: FrameState::Idle,
            will_recreate_swapchain: false,
            chain: Some(
                built_chain(view.next_handle, backbuffer, view.format, view.descriptor_layouts),
            ),
            next_handle: (view.next_handle + chain_handles(backbuffer)) as u64,
            last_semaphore_index: 0,
            viewport: Extent2D { width: view.extent.width, height: view.extent.height },
            ..view
        },
        FrameEvent::Acquired { image } => FrameView {
            state: FrameState::RecordCommands,
            frame: image,
            ..view
        },
        FrameEvent::AcquireFailed => FrameView {
            state: FrameState::Idle,
            will_recreate_swapchain: true,
            ..view
        },
        FrameEvent::Done => FrameView {
            state: if view.state == FrameState::RecordCommands {
                FrameState::Submit
            } else {
                FrameState::Present
            },
            ..view
        },
        FrameEvent::Presented => FrameView { state: FrameState::Idle, ..view },
        FrameEvent::PresentFailed => FrameView {
            state: FrameState::Idle,
            will_recreate_swapchain: true,
            ..view
        },
    }
}

/// What the device is told on an event that fits the state of the renderer.
pub open spec fn step_commands(view: FrameView, event: FrameEvent) -> Seq<Command> {
    let after = step_view(view, event);
    match event {
        FrameEvent::Polled { .. } => if after.state == FrameState::Stopped {
            Seq::empty()
        } else if after.state == FrameState::RecreateSwapchain {
            seq![Command::WaitIdle] + view.chain->0.teardown()
        } else {
            seq![
                Command::AcquireImage {
                    swapchain: view.swapchain,
                    semaphore: view.chain->0.acquire_semaphore(after.semaphore_index as int),
                },
            ]
        },
        FrameEvent::SurfaceQueried { caps, formats } => seq![
            Command::CreateSwapchain {
                swapchain: after.swapchain,
                config: config_spec(caps, formats_view(formats), view.resize_dimensions),
                previous: Some(view.swapchain),
            },
        ],
        FrameEvent::SwapchainCreated { backbuffer } => build_commands(view, backbuffer),
        FrameEvent::Acquired { .. } => record_commands(after),
        FrameEvent::AcquireFailed => Seq::empty(),
        FrameEvent::Done => if view.state == FrameState::RecordCommands {
            seq![submit_command(view)]
        } else {
            seq![present_command(view)]
        },
        FrameEvent::Presented => Seq::empty(),
        FrameEvent::PresentFailed => Seq::empty(),
    }
}

impl FrameView {
    /// The chain is there exactly when the swapchain is not being
    /// recreated, the frame under way names a slot and an image that exist,
    /// and every handle in use was handed out before the next free one.
    pub open spec fn wf(self) -> bool {
        &&& (self.state == FrameState::RecreateSwapchain || self.state == FrameState::RebuildChain)
            <==> self.chain is None
        &&& self.swapchain.0 < self.next_handle
        &&& self.chain matches Some(chain) ==> {
            &&& chain.wf()
            &&& chain.is_below(self.next_handle)
            &&& self.last_semaphore_index <= chain.slots()
            &&& (self.state == FrameState::AcquireImage || self.state == FrameState::RecordCommands
                || self.state == FrameState::Submit || self.state == FrameState::Present)
                ==> self.semaphore_index < chain.slots()
            &&& (self.state == FrameState::RecordCommands || self.state == FrameState::Submit
                || self.state == FrameState::Present) ==> self.frame < chain.buffers && self.frame
                < chain.slots()
        }
    }
}

} // verus!
