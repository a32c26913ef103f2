use crate::adapter::AdapterState;
use crate::buffer::BufferState;
use crate::device::{Command, DeviceState, Handle, ResourceKind};
use crate::error::GpuError;
use crate::format::Format;
use crate::frame::{
    bind_set_commands, build_commands, built_chain, chain_handles, event_fits, step_commands,
    step_view, ChainView, FrameEvent, FrameState, FrameView,
};
use crate::framebuffer::{handles_needed, FramebufferState};
use crate::image::Layout;
use crate::input::{ElementState, InputState};
use crate::pipeline::PipelineState;
use crate::swapchain::{Backbuffer, Extent2D, SwapchainState};
use crate::texture::ImageState;
use crate::uniform::Uniform;
use vstd::prelude::*;

verus! {

/// Pipeline stage bit of the writes to colour attachments.
pub const STAGE_COLOR_ATTACHMENT_OUTPUT: u32 = 0x400;

/// Access bit of a read of a colour attachment.
pub const ACCESS_COLOR_ATTACHMENT_READ: u32 = 0x80;

/// Access bit of a write to a colour attachment.
pub const ACCESS_COLOR_ATTACHMENT_WRITE: u32 = 0x100;

/// What happens to an attachment when a pass begins.
#[derive(Clone, Copy, Debug, PartialEq, Eq, Structural)]
pub enum AttachmentLoadOp {
    Load,
    Clear,
    DontCare,
}

/// What happens to an attachment when a pass ends.
#[derive(Clone, Copy, Debug, PartialEq, Eq, Structural)]
pub enum AttachmentStoreOp {
    Store,
    DontCare,
}

/// The render pass of the renderer: one colour attachment that is cleared
/// on load, stored at the end and handed on ready for presentation; one
/// subpass that draws into it; and one dependency that orders the output to
/// the attachment after whatever came before the pass.
#[derive(Clone, Copy, Debug, PartialEq, Eq, Structural)]
pub struct RenderPassDesc {
    pub format: Format,
    pub samples: u8,
    pub load: AttachmentLoadOp,
    pub store: AttachmentStoreOp,
    pub stencil_load: AttachmentLoadOp,
    pub stencil_store: AttachmentStoreOp,
    pub initial_layout: Layout,
    pub final_layout: Layout,
    /// The attachment that the subpass writes its colour to.
    pub subpass_color: usize,
    /// The layout that this attachment is in during the subpass.
    pub subpass_layout: Layout,
    /// The dependency runs from outside the pass to this subpass.
    pub dependency_target: usize,
    pub dependency_from_stage: u32,
    pub dependency_to_stage: u32,
    pub dependency_from_access: u32,
    pub dependency_to_access: u32,
}

/// The render pass that the framebuffers and the pipeline are made for.
pub struct RenderPassState {
    pub(crate) render_pass: Handle,
    pub(crate) format: Format,
}

/// The description of the pass for a swapchain of this format.
pub open spec fn render_pass_desc(format: Format) -> RenderPassDesc {
    RenderPassDesc {
        format,
        samples: 1,
        load: AttachmentLoadOp::Clear,
        store: AttachmentStoreOp::Store,
        stencil_load: AttachmentLoadOp::DontCare,
        stencil_store: AttachmentStoreOp::DontCare,
        initial_layout: Layout::Undefined,
        final_layout: Layout::Present,
        subpass_color: 0,
        subpass_layout: Layout::ColorAttachmentOptimal,
        dependency_target: 0,
        dependency_from_stage: STAGE_COLOR_ATTACHMENT_OUTPUT,
        dependency_to_stage: STAGE_COLOR_ATTACHMENT_OUTPUT,
        dependency_from_access: 0,
        dependency_to_access: ACCESS_COLOR_ATTACHMENT_READ | ACCESS_COLOR_ATTACHMENT_WRITE,
    }
}

/// What the render pass for a swapchain of this format is created from.
pub fn describe_render_pass(format: Format) -> (r: RenderPassDesc)
    ensures
        r == render_pass_desc(format),
{
    RenderPassDesc {
        format,
        samples: 1,
        load: AttachmentLoadOp::Clear,
        store: AttachmentStoreOp::Store,
        stencil_load: AttachmentLoadOp::DontCare,
        stencil_store: AttachmentStoreOp::DontCare,
        initial_layout: Layout::Undefined,
        final_layout: Layout::Present,
        subpass_color: 0,
        subpass_layout: Layout::ColorAttachmentOptimal,
        dependency_target: 0,
        dependency_from_stage: STAGE_COLOR_ATTACHMENT_OUTPUT,
        dependency_to_stage: STAGE_COLOR_ATTACHMENT_OUTPUT,
        dependency_from_access: 0,
        dependency_to_access: ACCESS_COLOR_ATTACHMENT_READ | ACCESS_COLOR_ATTACHMENT_WRITE,
    }
}

impl RenderPassState {
    pub open(crate) spec fn render_pass(&self) -> Handle {
        self.render_pass
    }

    pub open(crate) spec fn format(&self) -> Format {
        self.format
    }

    /// Names the render pass for the format of the swapchain.
    pub fn new(device: &mut DeviceState, swapchain_state: &SwapchainState) -> (r: (
        RenderPassState,
        Command,
    ))
        requires
            old(device).has_room(1),
        ensures
            r.0.render_pass() == Handle(old(device).next_handle()),
            r.0.format() == swapchain_state.format(),
            r.1 == (Command::CreateRenderPass {
                render_pass: r.0.render_pass(),
                format: swapchain_state.format(),
            }),
            final(device).next_handle() == old(device).next_handle() + 1,
            final(device).queue_family() == old(device).queue_family(),
    {
        let render_pass = device.allocate(1);
        let format = swapchain_state.get_format();
        (RenderPassState { render_pass, format }, Command::CreateRenderPass { render_pass, format })
    }

    pub fn get_render_pass(&self) -> (r: Handle)
        ensures
            r == self.render_pass(),
    {
        self.render_pass
    }

    /// What the pass is created from.
    pub fn description(&self) -> (r: RenderPassDesc)
        ensures
            r == render_pass_desc(self.format()),
    {
        describe_render_pass(self.format)
    }

    /// Destroys the render pass.
    pub fn destroy(self) -> (r: Command)
        ensures
            r == (Command::Destroy { kind: ResourceKind::RenderPass, handle: self.render_pass() }),
    {
        Command::Destroy { kind: ResourceKind::RenderPass, handle: self.render_pass }
    }
}

/// The objects that are made for one swapchain and go with it.
pub struct Chain {
    pub(crate) render_pass_state: RenderPassState,
    pub(crate) framebuffer_state: FramebufferState,
    pub(crate) pipeline_state: PipelineState,
}

impl Chain {
    pub open(crate) spec fn view(&self) -> ChainView {
        ChainView {
            render_pass: self.render_pass_state.render_pass,
            format: self.render_pass_state.format,
            first_handle: self.framebuffer_state.first_handle,
            images: self.framebuffer_state.frame_images@.len() as int,
            buffers: self.framebuffer_state.framebuffers@.len() as int,
            pipeline_layout: self.pipeline_state.pipeline_layout,
            pipeline: self.pipeline_state.pipeline,
            descriptor_layouts: self.pipeline_state.descriptor_layouts@,
        }
    }

    /// Names the render pass, the framebuffers with their frame slots, and
    /// the pipeline for `backbuffer`, which the device handed out for the
    /// swapchain.
    pub(crate) fn build(
        device: &mut DeviceState,
        swapchain_state: &SwapchainState,
        backbuffer: Backbuffer,
        descriptor_layouts: Vec<Handle>,
    ) -> (r: (Chain, Vec<Command>))
        requires
            old(device).has_room(chain_handles(backbuffer)),
        ensures
            r.0.framebuffer_state.wf(),
            r.0.framebuffer_state.last_semaphore_index == 0,
            r.0.view() == built_chain(
                old(device).next_handle(),
                backbuffer,
                swapchain_state.format(),
                descriptor_layouts@,
            ),
            r.0.view().wf(),
            r.0.view().is_below(final(device).next_handle()),
            r.0.pipeline_state.descriptor_layouts@ == descriptor_layouts@,
            r.1@ == seq![
                Command::CreateRenderPass {
                    render_pass: Handle(old(device).next_handle()),
                    format: swapchain_state.format(),
                },
            ] + crate::framebuffer::creation_commands(
                old(device).next_handle() + 1,
                backbuffer,
                swapchain_state.swapchain(),
                Handle(old(device).next_handle()),
                swapchain_state.format(),
                swapchain_state.extent(),
                old(device).queue_family(),
            ) + crate::pipeline::pipeline_commands(
                old(device).next_handle() + 1 + handles_needed(Some(backbuffer)),
                Handle(old(device).next_handle()),
            ),
            final(device).next_handle() == old(device).next_handle() + chain_handles(backbuffer),
            final(device).queue_family() == old(device).queue_family(),
    {
        let (render_pass_state, create_render_pass) = RenderPassState::new(device, swapchain_state);
        let mut commands: Vec<Command> = Vec::new();
        commands.push(create_render_pass);
        let (framebuffer_state, mut framebuffer_commands) = FramebufferState::from_backbuffer(
            device,
            &render_pass_state,
            swapchain_state,
            backbuffer,
        );
        commands.append(&mut framebuffer_commands);
        let (pipeline_state, mut pipeline_commands) = PipelineState::new(
            device,
            descriptor_layouts,
            render_pass_state.get_render_pass(),
        );
        commands.append(&mut pipeline_commands);
        (Chain { render_pass_state, framebuffer_state, pipeline_state }, commands)
    }

    /// Takes the chain down: the framebuffer state first, then the
    /// pipeline, then the render pass.
    pub(crate) fn destroy(self) -> (r: Vec<Command>)
        requires
            self.framebuffer_state.wf(),
        ensures
            r@ == self.view().teardown(),
    {
        let Chain { render_pass_state, framebuffer_state, pipeline_state } = self;
        let mut commands = framebuffer_state.destroy();
        let mut pipeline_commands = pipeline_state.destroy();
        commands.append(&mut pipeline_commands);
        commands.push(render_pass_state.destroy());
        commands
    }
}

/// Number of indices of the quad that the renderer draws.
pub const QUAD_INDEX_COUNT: u32 = 6;

/// Number of vertices of the quad that the renderer draws.
pub const QUAD_VERTEX_COUNT: usize = 4;

/// The renderer: everything that lives as long as the device, the chain
/// that lives as long as the swapchain, and where the frame loop stands.
pub struct RendererState {
    pub(crate) device_state: DeviceState,
    pub(crate) adapter_state: AdapterState,
    pub(crate) chain: Option<Chain>,
    pub(crate) descriptor_pool: Handle,
    pub(crate) index_buffer: BufferState,
    pub(crate) index_count: u32,
    pub(crate) swapchain_state: SwapchainState,
    pub(crate) viewport: Extent2D,
    pub(crate) vertex_buffer: BufferState,
    pub(crate) uniforms: Vec<Uniform>,
    pub(crate) image_states: Vec<ImageState>,
    pub(crate) input_state: InputState,
    pub(crate) frame_state: FrameState,
    pub(crate) semaphore_index: usize,
    pub(crate) frame: u32,
    pub(crate) will_recreate_swapchain: bool,
    pub(crate) resize_dimensions: Extent2D,
}

/// The layouts of the sets of the textures, then those of the uniforms.
pub open spec fn layouts_of(image_states: Seq<ImageState>, uniforms: Seq<Uniform>) -> Seq<Handle> {
    image_states.map_values(|state: ImageState| state.descriptor_set().layout().layout())
        + uniforms.map_values(|uniform: Uniform| uniform.descriptor_set().layout().layout())
}

/// The sets of the textures, then those of the uniforms.
pub open spec fn sets_of(image_states: Seq<ImageState>, uniforms: Seq<Uniform>) -> Seq<Handle> {
    image_states.map_values(|state: ImageState| state.descriptor_set().set())
        + uniforms.map_values(|uniform: Uniform| uniform.descriptor_set().set())
}

/// The renderer before its first chain is built: as if the swapchain had
/// just been created on the way out of a resize to the default extent.
pub open spec fn initial_view(
    device_state: DeviceState,
    swapchain_state: SwapchainState,
    descriptor_layouts: Seq<Handle>,
    descriptor_sets: Seq<Handle>,
    vertex_buffer: BufferState,
    index_buffer: BufferState,
    index_count: u32,
) -> FrameView {
    FrameView {
        state: FrameState::RebuildChain,
        will_recreate_swapchain: false,
        resize_dimensions: Extent2D {
            width: crate::swapchain::DEFAULT_WIDTH,
            height: crate::swapchain::DEFAULT_HEIGHT,
        },
        semaphore_index: 0,
        frame: 0,
        last_semaphore_index: 0,
        next_handle: device_state.next_handle(),
        family: device_state.queue_family(),
        swapchain: swapchain_state.swapchain(),
        format: swapchain_state.format(),
        extent: swapchain_state.extent(),
        backbuffer: swapchain_state.backbuffer(),
        chain: None,
        descriptor_layouts,
        descriptor_sets,
        vertex_buffer,
        index_buffer,
        index_count,
        viewport: Extent2D { width: 0, height: 0 },
    }
}

/// Taking down the first `count` textures, one after the other.
pub open spec fn textures_teardown(image_states: Seq<ImageState>, count: nat) -> Seq<Command>
    decreases count,
{
    if count == 0 {
        Seq::empty()
    } else {
        textures_teardown(image_states, (count - 1) as nat) + image_states[count
            - 1].teardown_commands()
    }
}

/// Destroying the buffer and freeing the memory of a buffer state.
pub open spec fn buffer_teardown(buffer_state: BufferState) -> Seq<Command> {
    seq![
        Command::Destroy { kind: ResourceKind::Buffer, handle: buffer_state.buffer() },
        Command::Destroy { kind: ResourceKind::Memory, handle: buffer_state.memory() },
    ]
}

/// Taking down the buffers of the first `count` uniforms, one after the
/// other.
pub open spec fn uniforms_teardown(uniforms: Seq<Uniform>, count: nat) -> Seq<Command>
    decreases count,
{
    if count == 0 {
        Seq::empty()
    } else {
        uniforms_teardown(uniforms, (count - 1) as nat) + buffer_teardown(
            uniforms[count - 1].buffer_state(),
        )
    }
}

/// What is told the device to take a renderer down: wait until the device
/// has drained; take the chain down if it stands; take each texture down;
/// destroy the buffer of each uniform and free its memory; the same for the
/// vertex and the index buffer of the quad; destroy the descriptor pool; and
/// last the swapchain. Every memory block that is freed is the one that
/// the state holds for the buffer or image destroyed just before it.
pub open spec fn renderer_teardown(
    view: FrameView,
    image_states: Seq<ImageState>,
    uniforms: Seq<Uniform>,
    descriptor_pool: Handle,
) -> Seq<Command> {
    seq![Command::WaitIdle] + match view.chain {
        Some(chain) => chain.teardown(),
        None => Seq::empty(),
    } + textures_teardown(image_states, image_states.len()) + uniforms_teardown(
        uniforms,
        uniforms.len(),
    ) + buffer_teardown(view.vertex_buffer) + buffer_teardown(view.index_buffer) + seq![
        Command::Destroy { kind: ResourceKind::DescriptorPool, handle: descriptor_pool },
        Command::Destroy { kind: ResourceKind::Swapchain, handle: view.swapchain },
    ]
}

/// Why an event that does not fit is refused: for want of handles where
/// that alone stands in the way, else because it does not belong here.
pub open spec fn step_error(view: FrameView, event: FrameEvent) -> GpuError {
    match (view.state, event) {
        (FrameState::RecreateSwapchain, FrameEvent::SurfaceQueried { caps, .. }) => if 
            crate::swapchain::can_configure(caps) {
            GpuError::SizeOverflow
        } else {
            GpuError::Configuration
        },
        (FrameState::RebuildChain, FrameEvent::SwapchainCreated { .. }) => GpuError::SizeOverflow,
        _ => GpuError::Configuration,
    }
}

impl RendererState {
    /// The renderer as the frame loop sees it.
    pub open(crate) spec fn frame_view(&self) -> FrameView {
        FrameView {
            state: self.frame_state,
            will_recreate_swapchain: self.will_recreate_swapchain,
            resize_dimensions: self.resize_dimensions,
            semaphore_index: self.semaphore_index,
            frame: self.frame,
            last_semaphore_index: match self.chain {
                Some(chain) => chain.framebuffer_state.last_semaphore_index,
                None => 0,
            },
            next_handle: self.device_state.next_handle,
            family: self.device_state.queue_family,
            swapchain: self.swapchain_state.swapchain,
            format: self.swapchain_state.format,
            extent: self.swapchain_state.extent,
            backbuffer: self.swapchain_state.backbuffer,
            chain: match self.chain {
                Some(chain) => Some(chain.view()),
                None => None,
            },
            descriptor_layouts: layouts_of(self.image_states@, self.uniforms@),
            descriptor_sets: sets_of(self.image_states@, self.uniforms@),
            vertex_buffer: self.vertex_buffer,
            index_buffer: self.index_buffer,
            index_count: self.index_count,
            viewport: self.viewport,
        }
    }

    pub open(crate) spec fn input_state(&self) -> InputState {
        self.input_state
    }

    /// The adapter that the device was opened on, as it was chosen.
    pub open(crate) spec fn adapter_state(&self) -> AdapterState {
        self.adapter_state
    }

    pub open(crate) spec fn uniforms(&self) -> Seq<Uniform> {
        self.uniforms@
    }

    pub open(crate) spec fn image_states(&self) -> Seq<ImageState> {
        self.image_states@
    }

    pub open(crate) spec fn descriptor_pool(&self) -> Handle {
        self.descriptor_pool
    }

    /// The view of the frame loop is well formed, and the framebuffer state
    /// is what the view says of it.
    #[verifier::type_invariant]
    pub open(crate) spec fn wf(&self) -> bool {
        &&& self.frame_view().wf()
        &&& self.chain matches Some(chain) ==> chain.framebuffer_state.wf()
    }

    /// Builds the chain for the backbuffer of a new swapchain around what
    /// lives as long as the device, and starts the frame loop between two
    /// frames. The index buffer holds `index_count` indices.
    pub fn new(
        device_state: DeviceState,
        adapter_state: AdapterState,
        vertex_buffer: BufferState,
        index_buffer: BufferState,
        index_count: u32,
        descriptor_pool: Handle,
        image_states: Vec<ImageState>,
        uniforms: Vec<Uniform>,
        swapchain_state: SwapchainState,
        backbuffer: Backbuffer,
    ) -> (r: Result<(RendererState, Vec<Command>), GpuError>)
        ensures
            match r {
                Ok((renderer, commands)) => {
                    let before = initial_view(
                        device_state,
                        swapchain_state,
                        layouts_of(image_states@, uniforms@),
                        sets_of(image_states@, uniforms@),
                        vertex_buffer,
                        index_buffer,
                        index_count,
                    );
                    &&& swapchain_state.swapchain().0 < device_state.next_handle()
                    &&& device_state.has_room(chain_handles(backbuffer))
                    &&& renderer.frame_view() == step_view(
                        before,
                        FrameEvent::SwapchainCreated { backbuffer },
                    )
                    &&& commands@ == build_commands(before, backbuffer)
                    &&& renderer.adapter_state() == adapter_state
                    &&& renderer.uniforms() == uniforms@
                    &&& renderer.image_states() == image_states@
                    &&& renderer.descriptor_pool() == descriptor_pool
                    &&& renderer.input_state().key_state() == Map::<u32, ElementState>::empty()
                },
                Err(e) => {
                    &&& e == if swapchain_state.swapchain().0 >= device_state.next_handle() {
                        GpuError::Configuration
                    } else {
                        GpuError::SizeOverflow
                    }
                    &&& swapchain_state.swapchain().0 >= device_state.next_handle()
                        || !device_state.has_room(chain_handles(backbuffer))
                },
            },
    {
        let mut device_state = device_state;
        if swapchain_state.get_swapchain().0 >= device_state.mark() {
            return Err(GpuError::Configuration);
        }
        if !device_state.can_allocate(Self::chain_handle_count(backbuffer)) {
            return Err(GpuError::SizeOverflow);
        }
        let layouts = Self::descriptor_layouts(&image_states, &uniforms);
        let (chain, commands) = Chain::build(
            &mut device_state,
            &swapchain_state,
            backbuffer,
            layouts,
        );
        let viewport = Self::create_viewport(&swapchain_state);
        let renderer = RendererState {
            device_state,
            adapter_state,
            chain: Some(chain),
            descriptor_pool,
            index_buffer,
            index_count,
            swapchain_state,
            viewport,
            vertex_buffer,
            uniforms,
            image_states,
            input_state: InputState::new(),
            frame_state: FrameState::Idle,
            semaphore_index: 0,
            frame: 0,
            will_recreate_swapchain: false,
            resize_dimensions: Extent2D {
                width: crate::swapchain::DEFAULT_WIDTH,
                height: crate::swapchain::DEFAULT_HEIGHT,
            },
        };
        Ok((renderer, commands))
    }

    /// Takes the frame loop one step on: the renderer after `event`, and what
    /// the device is to be told now. An event that the state of the renderer
    /// does not wait for is refused and changes nothing.
    pub fn step(self, event: FrameEvent) -> (r: (RendererState, Result<Vec<Command>, GpuError>))
        ensures
            r.0.adapter_state() == self.adapter_state(),
            r.0.uniforms() == self.uniforms(),
            r.0.image_states() == self.image_states(),
            r.0.descriptor_pool() == self.descriptor_pool(),
            r.0.input_state() == self.input_state(),
            match r.1 {
                Ok(commands) => {
                    &&& event_fits(self.frame_view(), event)
                    &&& r.0.frame_view() == step_view(self.frame_view(), event)
                    &&& commands@ == step_commands(self.frame_view(), event)
                },
                Err(e) => {
                    &&& !event_fits(self.frame_view(), event)
                    &&& e == step_error(self.frame_view(), event)
                    &&& r.0.frame_view() == self.frame_view()
                },
            },
    {
        proof {
            use_type_invariant(&self);
        }
        let ghost before = self.frame_view();
        let RendererState {
            mut device_state,
            adapter_state,
            chain,
            descriptor_pool,
            index_buffer,
            index_count,
            mut swapchain_state,
            mut viewport,
            vertex_buffer,
            uniforms,
            image_states,
            input_state,
            mut frame_state,
            mut semaphore_index,
            mut frame,
            mut will_recreate_swapchain,
            mut resize_dimensions,
        } = self;
        let mut chain = chain;
        let mut result: Result<Vec<Command>, GpuError> = Err(GpuError::Configuration);
        match (frame_state, event) {
            (FrameState::Idle, FrameEvent::Polled { close, resize }) => {
                if close {
                    frame_state = FrameState::Stopped;
                    result = Ok(Vec::new());
                } else {
                    match resize {
                        Some(extent) => {
                            will_recreate_swapchain = true;
                            resize_dimensions = extent;
                        },
                        None => {},
                    }
                    match chain {
                        Some(mut current) => {
                            if will_recreate_swapchain {
                                let mut commands: Vec<Command> = Vec::new();
                                commands.push(Command::WaitIdle);
                                let mut teardown = current.destroy();
                                commands.append(&mut teardown);
                                frame_state = FrameState::RecreateSwapchain;
                                chain = None;
                                result = Ok(commands);
                            } else {
                                let slot = current.framebuffer_state.get_next_semaphore_index();
                                let semaphore = current.framebuffer_state.acquire_semaphores[slot];
                                let mut commands: Vec<Command> = Vec::new();
                                commands.push(
                                    Command::AcquireImage {
                                        swapchain: swapchain_state.get_swapchain(),
                                        semaphore,
                                    },
                                );
                                frame_state = FrameState::AcquireImage;
                                semaphore_index = slot;
                                chain = Some(current);
                                result = Ok(commands);
                            }
                        },
                        None => {
                            chain = None;
                        },
                    }
                }
            },
            (FrameState::RecreateSwapchain, FrameEvent::SurfaceQueried { caps, formats }) => {
                if !device_state.can_allocate(1) {
                    result = Err(
                        if crate::swapchain::can_configure_exec(&caps) {
                            GpuError::SizeOverflow
                        } else {
                            GpuError::Configuration
                        },
                    );
                } else {
                    let previous = swapchain_state.get_swapchain();
                    match SwapchainState::new(
                        &mut device_state,
                        &caps,
                        &formats,
                        resize_dimensions,
                        Some(previous),
                    ) {
                        Ok((state, command)) => {
                            swapchain_state = state;
                            frame_state = FrameState::RebuildChain;
                            let mut commands: Vec<Command> = Vec::new();
                            commands.push(command);
                            result = Ok(commands);
                        },
                        Err(e) => {
                            result = Err(e);
                        },
                    }
                }
            },
            (FrameState::RebuildChain, FrameEvent::SwapchainCreated { backbuffer }) => {
                if !device_state.can_allocate(Self::chain_handle_count(backbuffer)) {
                    result = Err(GpuError::SizeOverflow);
                } else {
                    let layouts = Self::descriptor_layouts(&image_states, &uniforms);
                    let (built, commands) = Chain::build(
                        &mut device_state,
                        &swapchain_state,
                        backbuffer,
                        layouts,
                    );
                    viewport = Self::create_viewport(&swapchain_state);
                    chain = Some(built);
                    will_recreate_swapchain = false;
                    frame_state = FrameState::Idle;
                    result = Ok(commands);
                }
            },
            (FrameState::AcquireImage, FrameEvent::Acquired { image }) => {
                match &chain {
                    Some(current) => {
                        match current.framebuffer_state.get_frame_data(Some(image as usize), None) {
                            Ok((Some((fence, framebuffer, pool)), _)) => {
                                let sets = Self::descriptor_sets(&image_states, &uniforms);
                                let commands = Self::record(
                                    fence,
                                    framebuffer,
                                    pool,
                                    current.pipeline_state.get_pipeline(),
                                    current.pipeline_state.get_pipeline_layout(),
                                    current.render_pass_state.get_render_pass(),
                                    *vertex_buffer.get_buffer(),
                                    *index_buffer.get_buffer(),
                                    index_count,
                                    viewport,
                                    &sets,
                                );
                                frame = image;
                                frame_state = FrameState::RecordCommands;
                                result = Ok(commands);
                            },
                            _ => {},
                        }
                    },
                    None => {},
                }
            },
            (FrameState::AcquireImage, FrameEvent::AcquireFailed) => {
                will_recreate_swapchain = true;
                frame_state = FrameState::Idle;
                result = Ok(Vec::new());
            },
            (FrameState::RecordCommands, FrameEvent::Done) => {
                match &chain {
                    Some(current) => {
                        match current.framebuffer_state.get_frame_data(
                            Some(frame as usize),
                            Some(semaphore_index),
                        ) {
                            Ok((Some((fence, _, _)), Some((acquire, present)))) => {
                                let mut commands: Vec<Command> = Vec::new();
                                commands.push(
                                    Command::Submit {
                                        wait: acquire,
                                        wait_stage: STAGE_COLOR_ATTACHMENT_OUTPUT,
                                        signal: present,
                                        fence,
                                    },
                                );
                                frame_state = FrameState::Submit;
                                result = Ok(commands);
                            },
                            _ => {},
                        }
                    },
                    None => {},
                }
            },
            (FrameState::Submit, FrameEvent::Done) => {
                match &chain {
                    Some(current) => {
                        match current.framebuffer_state.get_frame_data(None, Some(semaphore_index)) {
                            Ok((_, Some((_, present)))) => {
                                let mut commands: Vec<Command> = Vec::new();
                                commands.push(
                                    Command::Present {
                                        swapchain: swapchain_state.get_swapchain(),
                                        image_index: frame,
                                        wait: present,
                                    },
                                );
                                frame_state = FrameState::Present;
                                result = Ok(commands);
                            },
                            _ => {},
                        }
                    },
                    None => {},
                }
            },
            (FrameState::Present, FrameEvent::Presented) => {
                frame_state = FrameState::Idle;
                result = Ok(Vec::new());
            },
            (FrameState::Present, FrameEvent::PresentFailed) => {
                will_recreate_swapchain = true;
                frame_state = FrameState::Idle;
                result = Ok(Vec::new());
            },
            _ => {},
        }
        let after = RendererState {
            device_state,
            adapter_state,
            chain,
            descriptor_pool,
            index_buffer,
            index_count,
            swapchain_state,
            viewport,
            vertex_buffer,
            uniforms,
            image_states,
            input_state,
            frame_state,
            semaphore_index,
            frame,
            will_recreate_swapchain,
            resize_dimensions,
        };
        (after, result)
    }

    /// The commands of one frame.
    fn record(
        fence: Handle,
        framebuffer: Handle,
        pool: Handle,
        pipeline: Handle,
        pipeline_layout: Handle,
        render_pass: Handle,
        vertex_buffer: Handle,
        index_buffer: Handle,
        index_count: u32,
        viewport: Extent2D,
        sets: &Vec<Handle>,
    ) -> (r: Vec<Command>)
        ensures
            r@ == seq![
                Command::WaitForFence { fence },
                Command::ResetFence { fence },
                Command::ResetCommandPool { pool },
                Command::BeginCommands { pool },
                Command::SetViewport { extent: viewport },
                Command::SetScissor { extent: viewport },
                Command::BindGraphicsPipeline { pipeline },
                Command::BindVertexBuffer { buffer: vertex_buffer },
                Command::BindIndexBuffer { buffer: index_buffer },
            ] + bind_set_commands(pipeline_layout, sets@) + seq![
                Command::BeginRenderPass { render_pass, framebuffer, extent: viewport },
                Command::DrawIndexed { first_index: 0, end_index: index_count },
                Command::EndRenderPass,
                Command::FinishCommands,
            ],
    {
        let mut commands: Vec<Command> = Vec::new();
        commands.push(Command::WaitForFence { fence });
        commands.push(Command::ResetFence { fence });
        commands.push(Command::ResetCommandPool { pool });
        commands.push(Command::BeginCommands { pool });
        commands.push(Command::SetViewport { extent: viewport });
        commands.push(Command::SetScissor { extent: viewport });
        commands.push(Command::BindGraphicsPipeline { pipeline });
        commands.push(Command::BindVertexBuffer { buffer: vertex_buffer });
        commands.push(Command::BindIndexBuffer { buffer: index_buffer });
        let ghost head = commands@;
        let mut i: usize = 0;
        while i < sets.len()
            invariant
                i <= sets@.len(),
                commands@ == head + bind_set_commands(pipeline_layout, sets@.take(i as int)),
            decreases sets@.len() - i,
        {
            commands.push(
                Command::BindDescriptorSet { layout: pipeline_layout, index: i, set: sets[i] },
            );
            i += 1;
        }
        assert(sets@.take(sets@.len() as int) == sets@);
        commands.push(Command::BeginRenderPass { render_pass, framebuffer, extent: viewport });
        commands.push(Command::DrawIndexed { first_index: 0, end_index: index_count });
        commands.push(Command::EndRenderPass);
        commands.push(Command::FinishCommands);
        commands
    }

    /// Where the frame loop stands.
    pub fn get_frame_state(&self) -> (r: FrameState)
        ensures
            r == self.frame_view().state,
    {
        self.frame_state
    }

    /// Whether the frame loop goes on: it does until the window is closed.
    pub fn is_running(&self) -> (r: bool)
        ensures
            r == (self.frame_view().state != FrameState::Stopped),
    {
        match self.frame_state {
            FrameState::Stopped => false,
            _ => true,
        }
    }

    /// The extent that the viewport and the scissor cover.
    pub fn get_viewport(&self) -> (r: Extent2D)
        ensures
            r == self.frame_view().viewport,
    {
        self.viewport
    }

    /// The textures, in the order in which their sets are bound.
    pub fn get_image_states(&self) -> (r: &Vec<ImageState>)
        ensures
            r@ == self.image_states(),
    {
        &self.image_states
    }

    /// The uniforms, the camera matrix first, in the order in which their
    /// sets are bound after those of the textures.
    pub fn get_uniforms(&self) -> (r: &Vec<Uniform>)
        ensures
            r@ == self.uniforms(),
    {
        &self.uniforms
    }

    /// The layouts of the sets of the pipeline, in binding order, while the
    /// pipeline stands.
    pub fn get_descriptor_layouts(&self) -> (r: Vec<Handle>)
        ensures
            r@ == self.frame_view().descriptor_layouts,
    {
        Self::descriptor_layouts(&self.image_states, &self.uniforms)
    }

    /// Records the state of a key.
    pub fn on_key_input(self, key_code: u32, state: ElementState) -> (r: RendererState)
        ensures
            r.frame_view() == self.frame_view(),
            r.adapter_state() == self.adapter_state(),
            r.uniforms() == self.uniforms(),
            r.image_states() == self.image_states(),
            r.descriptor_pool() == self.descriptor_pool(),
            r.input_state().key_state() == self.input_state().key_state().insert(key_code, state),
    {
        proof {
            use_type_invariant(&self);
        }
        let RendererState {
            device_state,
            adapter_state,
            chain,
            descriptor_pool,
            index_buffer,
            index_count,
            swapchain_state,
            viewport,
            vertex_buffer,
            uniforms,
            image_states,
            mut input_state,
            frame_state,
            semaphore_index,
            frame,
            will_recreate_swapchain,
            resize_dimensions,
        } = self;
        input_state.on_key_input(key_code, state);
        RendererState {
            device_state,
            adapter_state,
            chain,
            descriptor_pool,
            index_buffer,
            index_count,
            swapchain_state,
            viewport,
            vertex_buffer,
            uniforms,
            image_states,
            input_state,
            frame_state,
            semaphore_index,
            frame,
            will_recreate_swapchain,
            resize_dimensions,
        }
    }

    /// The direction in which the keys that are down move the camera.
    pub fn camera_direction(&self) -> (r: (i8, i8))
        ensures
            r.0 == -crate::input::axis_direction(
                self.input_state().is_down(crate::input::KEY_LEFT),
                self.input_state().is_down(crate::input::KEY_RIGHT),
            ),
            r.1 == crate::input::axis_direction(
                self.input_state().is_down(crate::input::KEY_UP),
                self.input_state().is_down(crate::input::KEY_DOWN),
            ),
    {
        self.input_state.camera_direction()
    }

    /// Overwrites the bytes from `offset` on of the buffer of the uniform of
    /// this index with `source`, as after a move of the camera. The bytes
    /// returned are those that the write copies: `source`, as it came.
    pub fn update_uniform(&self, index: usize, offset: u64, source: Vec<u8>) -> (r: Result<
        (Command, Vec<u8>),
        GpuError,
    >)
        ensures
            match r {
                Ok((command, bytes)) => {
                    &&& index < self.uniforms().len()
                    &&& offset + source@.len() <= self.uniforms()[index as int].buffer_state().size()
                    &&& bytes@ == source@
                    &&& command == (Command::WriteMemory {
                        memory: self.uniforms()[index as int].buffer_state().memory(),
                        offset,
                        size: source@.len() as u64,
                    })
                },
                Err(e) => {
                    &&& e == GpuError::Configuration
                    &&& index >= self.uniforms().len() || offset + source@.len()
                        > self.uniforms()[index as int].buffer_state().size()
                },
            },
    {
        if index >= self.uniforms.len() {
            return Err(GpuError::Configuration);
        }
        self.uniforms[index].get_buffer_state().update_buffer(offset, source)
    }

    /// Takes the renderer down, once the device has drained: the chain if it
    /// stands, then the textures, the buffers of the uniforms, the two
    /// buffers of the quad, the descriptor pool, and last the swapchain.
    pub fn destroy(self) -> (r: Vec<Command>)
        ensures
            r@ == renderer_teardown(
                self.frame_view(),
                self.image_states(),
                self.uniforms(),
                self.descriptor_pool(),
            ),
    {
        proof {
            use_type_invariant(&self);
        }
        let RendererState {
            device_state: _,
            adapter_state: _,
            chain,
            descriptor_pool,
            index_buffer,
            index_count: _,
            swapchain_state,
            viewport: _,
            vertex_buffer,
            uniforms,
            image_states,
            input_state: _,
            frame_state: _,
            semaphore_index: _,
            frame: _,
            will_recreate_swapchain: _,
            resize_dimensions: _,
        } = self;
        let mut commands: Vec<Command> = Vec::new();
        commands.push(Command::WaitIdle);
        match chain {
            Some(current) => {
                let mut teardown = current.destroy();
                commands.append(&mut teardown);
            },
            None => {},
        }
        let ghost head = commands@;
        let mut i: usize = 0;
        while i < image_states.len()
            invariant
                i <= image_states@.len(),
                commands@ == head + textures_teardown(image_states@, i as nat),
            decreases image_states@.len() - i,
        {
            let mut teardown = image_states[i].teardown();
            commands.append(&mut teardown);
            i += 1;
        }
        let ghost middle = commands@;
        let mut j: usize = 0;
        while j < uniforms.len()
            invariant
                j <= uniforms@.len(),
                commands@ == middle + uniforms_teardown(uniforms@, j as nat),
            decreases uniforms@.len() - j,
        {
            let mut teardown = uniforms[j].get_buffer_state().destroy();
            commands.append(&mut teardown);
            j += 1;
        }
        let mut vertex_teardown = vertex_buffer.destroy();
        commands.append(&mut vertex_teardown);
        let mut index_teardown = index_buffer.destroy();
        commands.append(&mut index_teardown);
        commands.push(
            Command::Destroy { kind: ResourceKind::DescriptorPool, handle: descriptor_pool },
        );
        commands.push(swapchain_state.destroy());
        commands
    }

    /// Number of handles that building a chain for `backbuffer` takes.
    fn chain_handle_count(backbuffer: Backbuffer) -> (r: u64)
        ensures
            r == chain_handles(backbuffer),
    {
        let images: u64 = match backbuffer {
            Backbuffer::Images(count) => count as u64,
            Backbuffer::Framebuffer => 0,
        };
        let buffers: u64 = match backbuffer {
            Backbuffer::Images(count) => count as u64,
            Backbuffer::Framebuffer => 1,
        };
        let slots: u64 = if images != 0 {
            images
        } else {
            1
        };
        1 + (2 * images + buffers + 4 * slots) + 4
    }

    /// The layouts of the sets, in the order in which the sets are bound.
    fn descriptor_layouts(image_states: &Vec<ImageState>, uniforms: &Vec<Uniform>) -> (r: Vec<
        Handle,
    >)
        ensures
            r@ == layouts_of(image_states@, uniforms@),
    {
        let mut layouts: Vec<Handle> = Vec::new();
        let mut i: usize = 0;
        while i < image_states.len()
            invariant
                i <= image_states@.len(),
                layouts@ == image_states@.take(i as int).map_values(
                    |state: ImageState| state.descriptor_set().layout().layout(),
                ),
            decreases image_states@.len() - i,
        {
            layouts.push(*image_states[i].get_layout());
            i += 1;
        }
        assert(image_states@.take(image_states@.len() as int) == image_states@);
        let ghost head = layouts@;
        let mut j: usize = 0;
        while j < uniforms.len()
            invariant
                j <= uniforms@.len(),
                layouts@ == head + uniforms@.take(j as int).map_values(
                    |uniform: Uniform| uniform.descriptor_set().layout().layout(),
                ),
            decreases uniforms@.len() - j,
        {
            layouts.push(*uniforms[j].get_layout());
            j += 1;
        }
        assert(uniforms@.take(uniforms@.len() as int) == uniforms@);
        layouts
    }

    /// The sets, in the order in which they are bound.
    fn descriptor_sets(image_states: &Vec<ImageState>, uniforms: &Vec<Uniform>) -> (r: Vec<Handle>)
        ensures
            r@ == sets_of(image_states@, uniforms@),
    {
        let mut sets: Vec<Handle> = Vec::new();
        let mut i: usize = 0;
        while i < image_states.len()
            invariant
                i <= image_states@.len(),
                sets@ == image_states@.take(i as int).map_values(
                    |state: ImageState| state.descriptor_set().set(),
                ),
            decreases image_states@.len() - i,
        {
            sets.push(image_states[i].get_descriptor_set().get_set());
            i += 1;
        }
        assert(image_states@.take(image_states@.len() as int) == image_states@);
        let ghost head = sets@;
        let mut j: usize = 0;
        while j < uniforms.len()
            invariant
                j <= uniforms@.len(),
                sets@ == head + uniforms@.take(j as int).map_values(
                    |uniform: Uniform| uniform.descriptor_set().set(),
                ),
            decreases uniforms@.len() - j,
        {
            sets.push(uniforms[j].get_descriptor_set().get_set());
            j += 1;
        }
        assert(uniforms@.take(uniforms@.len() as int) == uniforms@);
        sets
    }

    /// The viewport that covers the swapchain.
    fn create_viewport(swapchain_state: &SwapchainState) -> (r: Extent2D)
        ensures
            r == (Extent2D {
                width: swapchain_state.extent().width,
                height: swapchain_state.extent().height,
            }),
    {
        let extent = swapchain_state.get_extent();
        Extent2D { width: extent.width, height: extent.height }
    }
}

} // verus!
