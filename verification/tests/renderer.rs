use corporation::adapter::{Adapter, AdapterState, Limits, QueueFamily, QueueType};
use corporation::device::{Command, Handle, ResourceKind};
use corporation::error::GpuError;
use corporation::format::{ChannelType, Format};
use corporation::frame::{FrameEvent, FrameState};
use corporation::image::Image;
use corporation::input::{ElementState, KEY_DOWN, KEY_LEFT, KEY_RIGHT, KEY_UP};
use corporation::memory::{MemoryType, Properties, Requirements, CPU_VISIBLE, DEVICE_LOCAL};
use corporation::renderer::{RendererState, STAGE_COLOR_ATTACHMENT_OUTPUT};
use corporation::setup::{PendingRenderer, RenderStateInitializer};
use corporation::swapchain::{
    Backbuffer, Extent, Extent2D, SurfaceCapabilities, COMPOSITE_OPAQUE,
};
use corporation::uniform::UniformInitializer;

fn adapter_state() -> AdapterState {
    let memory_types = vec![
        MemoryType { properties: Properties { bits: DEVICE_LOCAL }, heap_index: 0 },
        MemoryType { properties: Properties { bits: CPU_VISIBLE }, heap_index: 1 },
    ];
    let limits = Limits { min_buffer_copy_pitch_alignment: 256 };
    AdapterState {
        adapter: Some(Adapter {
            name: String::from("test"),
            vendor: 0,
            device: 0,
            queue_families: vec![QueueFamily {
                id: 1,
                queue_type: QueueType::Graphics,
                max_queues: 1,
                supports_present: true,
            }],
            memory_types: memory_types.clone(),
            limits,
        }),
        mem_types: memory_types,
        limits,
    }
}

fn initializer(textures: usize, uniforms: &[u32]) -> RenderStateInitializer<u32> {
    RenderStateInitializer {
        camera: UniformInitializer { data: vec![0; 16] },
        textures: (0..textures)
            .map(|i| (i as u32, Image::from_rgba8(3, 2, vec![i as u8; 24]).unwrap()))
            .collect(),
        uniforms: uniforms.iter().map(|b| (*b, UniformInitializer { data: vec![1, 2, 3, 4] })).collect(),
    }
}

fn caps() -> SurfaceCapabilities {
    SurfaceCapabilities {
        min_image_count: 2,
        end_image_count: 4,
        current_extent: None,
        min_extent: Extent2D { width: 1, height: 1 },
        end_extent: Extent2D { width: 2049, height: 2049 },
        max_image_layers: 1,
        usage: 0x10,
        composite_alpha: COMPOSITE_OPAQUE,
    }
}

fn requirements(size: u64) -> Requirements {
    Requirements { size, alignment: 16, type_mask: 0b11 }
}

fn renderer_with(textures: usize, uniforms: &[u32], backbuffer: Backbuffer) -> (RendererState, Vec<Command>) {
    let initializer = initializer(textures, uniforms);
    let (pending, _) = PendingRenderer::begin(adapter_state(), &initializer, 4).unwrap();
    let mut pending =
        pending.bind_quad(vec![1; 80], &requirements(80), vec![2; 12], &requirements(12)).unwrap().0;
    for (_, texture) in &initializer.textures {
        pending = pending.bind_texture(texture, &requirements(512), &requirements(64)).unwrap().0;
    }
    pending = pending.bind_uniform(vec![0; 64], &requirements(64)).unwrap().0;
    for _ in 0..uniforms.len() {
        pending = pending.bind_uniform(vec![0; 16], &requirements(64)).unwrap().0;
    }
    let extent = Extent2D { width: 640, height: 480 };
    let (pending, _) = pending.create_swapchain(&caps(), &None, extent).unwrap();
    pending.finish(backbuffer).unwrap()
}

fn renderer() -> RendererState {
    renderer_with(1, &[0], Backbuffer::Images(3)).0
}

fn polled() -> FrameEvent {
    FrameEvent::Polled { close: false, resize: None }
}

fn step(renderer: RendererState, event: FrameEvent) -> (RendererState, Vec<Command>) {
    let (renderer, commands) = renderer.step(event);
    (renderer, commands.unwrap())
}

/// One whole frame into `image`; returns the commands of the four steps.
fn frame(renderer: RendererState, image: u32) -> (RendererState, Vec<Vec<Command>>) {
    let (renderer, acquire) = step(renderer, polled());
    let (renderer, record) = step(renderer, FrameEvent::Acquired { image });
    let (renderer, submit) = step(renderer, FrameEvent::Done);
    let (renderer, present) = step(renderer, FrameEvent::Done);
    let (renderer, rest) = step(renderer, FrameEvent::Presented);
    (renderer, vec![acquire, record, submit, present, rest])
}

#[test]
fn begin_names_everything_that_lives_with_the_device() {
    let initializer = initializer(1, &[3]);
    let (_, commands) = PendingRenderer::begin(adapter_state(), &initializer, 4).unwrap();
    let srgb = Format { code: 43, channel: ChannelType::Srgb };
    assert_eq!(
        commands,
        vec![
            Command::CreateBuffer { buffer: Handle(0), size: 80, usage: 0x80 },
            Command::CreateBuffer { buffer: Handle(1), size: 12, usage: 0x40 },
            Command::CreateDescriptorPool {
                pool: Handle(2),
                max_sets: 3,
                sampled_images: 1,
                samplers: 1,
                uniform_buffers: 2
            },
            Command::CreateCommandPool { pool: Handle(3), family: 1 },
            Command::CreateDescriptorSetLayout { layout: Handle(4) },
            Command::AllocateDescriptorSet { set: Handle(5), pool: Handle(2), layout: Handle(4) },
            Command::CreateBuffer { buffer: Handle(6), size: 512, usage: 0x1 },
            Command::CreateImage {
                image: Handle(7),
                kind: corporation::image::Kind::D2(3, 2, 1, 1),
                mip_levels: 1,
                format: srgb,
                usage: 0x6
            },
            Command::CreateDescriptorSetLayout { layout: Handle(8) },
            Command::AllocateDescriptorSet { set: Handle(9), pool: Handle(2), layout: Handle(8) },
            Command::CreateBuffer { buffer: Handle(10), size: 64, usage: 0x10 },
            Command::CreateDescriptorSetLayout { layout: Handle(11) },
            Command::AllocateDescriptorSet { set: Handle(12), pool: Handle(2), layout: Handle(11) },
            Command::CreateBuffer { buffer: Handle(13), size: 16, usage: 0x10 },
        ]
    );
}

#[test]
fn begin_fails_without_adapter_or_queue_family() {
    let initializer = initializer(0, &[]);
    let mut none = adapter_state();
    none.adapter = None;
    assert_eq!(PendingRenderer::begin(none, &initializer, 4).err(), Some(GpuError::NoAdapter));
    let mut unfit = adapter_state();
    unfit.adapter.as_mut().unwrap().queue_families[0].supports_present = false;
    assert_eq!(
        PendingRenderer::begin(unfit, &initializer, 4).err(),
        Some(GpuError::NoCompatibleQueueFamily)
    );
}

#[test]
fn begin_fails_on_limits_only_where_a_texture_needs_them() {
    let mut odd = adapter_state();
    odd.limits = Limits { min_buffer_copy_pitch_alignment: 100 };
    assert!(PendingRenderer::begin(odd, &initializer(0, &[]), 4).is_ok());
    let mut odd = adapter_state();
    odd.limits = Limits { min_buffer_copy_pitch_alignment: 100 };
    assert_eq!(
        PendingRenderer::begin(odd, &initializer(1, &[]), 4).err(),
        Some(GpuError::Configuration)
    );
    assert_eq!(
        PendingRenderer::begin(adapter_state(), &initializer(0, &[0]), usize::MAX).err(),
        Some(GpuError::SizeOverflow)
    );
}

#[test]
fn setup_steps_come_in_their_order() {
    let initializer = initializer(1, &[]);
    let texture = &initializer.textures[0].1;
    let begin = || PendingRenderer::begin(adapter_state(), &initializer, 4).unwrap().0;
    let extent = Extent2D { width: 640, height: 480 };
    assert_eq!(
        begin().bind_texture(texture, &requirements(512), &requirements(64)).err(),
        Some(GpuError::Configuration)
    );
    assert_eq!(begin().bind_uniform(vec![0; 64], &requirements(64)).err(), Some(GpuError::Configuration));
    assert_eq!(begin().create_swapchain(&caps(), &None, extent).err(), Some(GpuError::Configuration));
    assert_eq!(begin().finish(Backbuffer::Framebuffer).err(), Some(GpuError::Configuration));
    let quad = || begin().bind_quad(vec![1; 80], &requirements(80), vec![2; 12], &requirements(12)).unwrap().0;
    assert_eq!(quad().bind_quad(vec![1; 80], &requirements(80), vec![2; 12], &requirements(12)).err(), Some(GpuError::Configuration));
    assert_eq!(quad().bind_uniform(vec![0; 64], &requirements(64)).err(), Some(GpuError::Configuration));
    let textured = || quad().bind_texture(texture, &requirements(512), &requirements(64)).unwrap().0;
    assert_eq!(
        textured().bind_texture(texture, &requirements(512), &requirements(64)).err(),
        Some(GpuError::Configuration)
    );
    assert_eq!(textured().create_swapchain(&caps(), &None, extent).err(), Some(GpuError::Configuration));
    let bound = || textured().bind_uniform(vec![0; 64], &requirements(64)).unwrap().0;
    assert_eq!(bound().bind_uniform(vec![0; 64], &requirements(64)).err(), Some(GpuError::Configuration));
    assert_eq!(bound().finish(Backbuffer::Framebuffer).err(), Some(GpuError::Configuration));
    let chained = || bound().create_swapchain(&caps(), &None, extent).unwrap().0;
    assert_eq!(chained().create_swapchain(&caps(), &None, extent).err(), Some(GpuError::Configuration));
    assert!(chained().finish(Backbuffer::Framebuffer).is_ok());
}

#[test]
fn setup_fails_where_memory_is_missing() {
    let initializer = initializer(1, &[]);
    let texture = &initializer.textures[0].1;
    let begin = || PendingRenderer::begin(adapter_state(), &initializer, 4).unwrap().0;
    let device_only = Requirements { size: 80, alignment: 16, type_mask: 0b01 };
    let host_only = Requirements { size: 80, alignment: 16, type_mask: 0b10 };
    assert_eq!(
        begin().bind_quad(vec![1; 80], &device_only, vec![2; 12], &requirements(12)).err(),
        Some(GpuError::NoCompatibleMemoryType)
    );
    assert_eq!(
        begin().bind_quad(vec![1; 80], &requirements(80), vec![2; 12], &device_only).err(),
        Some(GpuError::NoCompatibleMemoryType)
    );
    let quad = || begin().bind_quad(vec![1; 80], &requirements(80), vec![2; 12], &requirements(12)).unwrap().0;
    assert_eq!(
        quad().bind_texture(texture, &device_only, &requirements(64)).err(),
        Some(GpuError::NoCompatibleMemoryType)
    );
    assert_eq!(
        quad().bind_texture(texture, &requirements(512), &host_only).err(),
        Some(GpuError::NoCompatibleMemoryType)
    );
    let other = Image::from_rgba8(100, 2, vec![0; 800]).unwrap();
    assert_eq!(
        quad().bind_texture(&other, &requirements(512), &requirements(64)).err(),
        Some(GpuError::Configuration)
    );
    let textured = quad().bind_texture(texture, &requirements(512), &requirements(64)).unwrap().0;
    assert_eq!(textured.bind_uniform(vec![0; 64], &device_only).err(), Some(GpuError::NoCompatibleMemoryType));
}

#[test]
fn texture_step_returns_staged_rows_and_waits() {
    let initializer = initializer(1, &[]);
    let pending = PendingRenderer::begin(adapter_state(), &initializer, 4).unwrap().0;
    let pending = pending.bind_quad(vec![1; 80], &requirements(80), vec![2; 12], &requirements(12)).unwrap().0;
    let (_, bytes, commands) = pending
        .bind_texture(&initializer.textures[0].1, &requirements(512), &requirements(64))
        .unwrap();
    assert_eq!(bytes.len(), 512);
    assert_eq!(commands.len(), 17);
    assert_eq!(commands[2], Command::WriteMemory { memory: Handle(13), offset: 0, size: 512 });
    assert_eq!(commands[10], Command::BeginCommands { pool: Handle(3) });
    assert_eq!(commands[15], Command::SubmitTransfer { fence: Handle(17) });
    assert_eq!(commands[16], Command::WaitForFence { fence: Handle(17) });
}

#[test]
fn first_uniform_ends_the_staging_pool() {
    let initializer = initializer(0, &[5]);
    let pending = PendingRenderer::begin(adapter_state(), &initializer, 4).unwrap().0;
    let pending = pending.bind_quad(vec![1; 80], &requirements(80), vec![2; 12], &requirements(12)).unwrap().0;
    let camera_data: Vec<u8> = (0..64).collect();
    let (pending, written, camera) = pending.bind_uniform(camera_data.clone(), &requirements(64)).unwrap();
    assert_eq!(written, camera_data);
    assert_eq!(camera[3], Command::WriteMemory { memory: Handle(12), offset: 0, size: 64 });
    assert_eq!(camera[0], Command::Destroy { kind: ResourceKind::CommandPool, handle: Handle(3) });
    assert_eq!(camera.len(), 5);
    assert_eq!(
        camera[4],
        Command::WriteDescriptorSet {
            set: Handle(5),
            binding: 0,
            array_offset: 0,
            descriptor: corporation::device::Descriptor::Buffer(Handle(6))
        }
    );
    let (_, _, second) = pending.bind_uniform(vec![0; 16], &requirements(64)).unwrap();
    assert_eq!(second.len(), 4);
    assert_eq!(
        second[3],
        Command::WriteDescriptorSet {
            set: Handle(8),
            binding: 5,
            array_offset: 0,
            descriptor: corporation::device::Descriptor::Buffer(Handle(9))
        }
    );
}

#[test]
fn finish_builds_the_chain_for_the_backbuffer() {
    let (renderer, commands) = renderer_with(0, &[], Backbuffer::Images(2));
    // 0..=6 named by begin, 7 and 8 the memory of the quad, 9 that of the
    // camera uniform, 10 the swapchain.
    assert_eq!(
        commands[0],
        Command::CreateRenderPass {
            render_pass: Handle(11),
            format: Format { code: 43, channel: ChannelType::Srgb }
        }
    );
    assert_eq!(commands.len(), 1 + 14 + 6);
    let extent = Extent { width: 640, height: 480, depth: 1 };
    assert_eq!(
        commands[5],
        Command::CreateFramebuffer { framebuffer: Handle(16), render_pass: Handle(11), view: Handle(14), extent }
    );
    assert_eq!(commands[15], Command::CreatePipelineLayout { layout: Handle(26) });
    assert_eq!(
        commands[18],
        Command::CreateGraphicsPipeline {
            pipeline: Handle(29),
            layout: Handle(26),
            render_pass: Handle(11),
            vertex: Handle(27),
            fragment: Handle(28)
        }
    );
    assert_eq!(commands[19], Command::Destroy { kind: ResourceKind::ShaderModule, handle: Handle(27) });
    assert_eq!(commands[20], Command::Destroy { kind: ResourceKind::ShaderModule, handle: Handle(28) });
    assert_eq!(renderer.get_frame_state(), FrameState::Idle);
    assert_eq!(renderer.get_viewport(), Extent2D { width: 640, height: 480 });
    assert_eq!(renderer.get_descriptor_layouts(), vec![Handle(4)]);
    assert!(renderer.is_running());
}

#[test]
fn frame_goes_through_its_states() {
    let renderer = renderer();
    let (renderer, _) = step(renderer, polled());
    assert_eq!(renderer.get_frame_state(), FrameState::AcquireImage);
    let (renderer, _) = step(renderer, FrameEvent::Acquired { image: 1 });
    assert_eq!(renderer.get_frame_state(), FrameState::RecordCommands);
    let (renderer, _) = step(renderer, FrameEvent::Done);
    assert_eq!(renderer.get_frame_state(), FrameState::Submit);
    let (renderer, _) = step(renderer, FrameEvent::Done);
    assert_eq!(renderer.get_frame_state(), FrameState::Present);
    let (renderer, _) = step(renderer, FrameEvent::Presented);
    assert_eq!(renderer.get_frame_state(), FrameState::Idle);
}

fn acquire_semaphore(commands: &[Command]) -> Handle {
    match commands {
        [Command::AcquireImage { semaphore, .. }] => *semaphore,
        other => panic!("unexpected commands {:?}", other),
    }
}

#[test]
fn frame_slots_rotate_whatever_image_comes() {
    let mut renderer = renderer();
    let mut semaphores = Vec::new();
    for image in [2u32, 2, 1, 0, 0, 1, 2] {
        let (next, commands) = frame(renderer, image);
        semaphores.push(acquire_semaphore(&commands[0]));
        renderer = next;
    }
    let first = semaphores[0].0;
    let slots: Vec<u64> = semaphores.iter().map(|s| s.0 - first).collect();
    assert_eq!(slots, vec![0, 1, 2, 0, 1, 2, 0]);
}

#[test]
fn frame_waits_on_the_fence_of_the_image_and_the_semaphores_of_the_slot() {
    let renderer = renderer();
    let (renderer, _) = frame(renderer, 0);
    let (_, commands) = frame(renderer, 2);
    // 23 the swapchain, 24 the render pass, 25..=27 the images, 28..=30 the
    // views, 31..=33 the framebuffers, then fences, pools and semaphores.
    assert_eq!(
        commands[0],
        vec![Command::AcquireImage { swapchain: Handle(23), semaphore: Handle(41) }]
    );
    let viewport = Extent2D { width: 640, height: 480 };
    assert_eq!(
        commands[1],
        vec![
            Command::WaitForFence { fence: Handle(36) },
            Command::ResetFence { fence: Handle(36) },
            Command::ResetCommandPool { pool: Handle(39) },
            Command::BeginCommands { pool: Handle(39) },
            Command::SetViewport { extent: viewport },
            Command::SetScissor { extent: viewport },
            Command::BindGraphicsPipeline { pipeline: Handle(49) },
            Command::BindVertexBuffer { buffer: Handle(0) },
            Command::BindIndexBuffer { buffer: Handle(1) },
            Command::BindDescriptorSet { layout: Handle(46), index: 0, set: Handle(5) },
            Command::BindDescriptorSet { layout: Handle(46), index: 1, set: Handle(9) },
            Command::BindDescriptorSet { layout: Handle(46), index: 2, set: Handle(12) },
            Command::BeginRenderPass { render_pass: Handle(24), framebuffer: Handle(33), extent: viewport },
            Command::DrawIndexed { first_index: 0, end_index: 6 },
            Command::EndRenderPass,
            Command::FinishCommands,
        ]
    );
    assert_eq!(
        commands[2],
        vec![Command::Submit {
            wait: Handle(41),
            wait_stage: STAGE_COLOR_ATTACHMENT_OUTPUT,
            signal: Handle(44),
            fence: Handle(36)
        }]
    );
    assert_eq!(
        commands[3],
        vec![Command::Present { swapchain: Handle(23), image_index: 2, wait: Handle(44) }]
    );
    assert!(commands[4].is_empty());
}

#[test]
fn each_frame_presents_exactly_once() {
    let mut renderer = renderer();
    for image in [0u32, 1, 2, 1] {
        let (next, commands) = frame(renderer, image);
        let presents = commands
            .iter()
            .flatten()
            .filter(|c| matches!(c, Command::Present { .. }))
            .count();
        assert_eq!(presents, 1);
        renderer = next;
    }
}

#[test]
fn close_stops_the_loop() {
    let (renderer, commands) = step(renderer(), FrameEvent::Polled { close: true, resize: None });
    assert!(commands.is_empty());
    assert_eq!(renderer.get_frame_state(), FrameState::Stopped);
    assert!(!renderer.is_running());
    let (renderer, refused) = renderer.step(polled());
    assert_eq!(refused, Err(GpuError::Configuration));
    assert_eq!(renderer.get_frame_state(), FrameState::Stopped);
}

#[test]
fn events_out_of_turn_change_nothing() {
    let renderer = renderer();
    for event in [
        FrameEvent::Done,
        FrameEvent::Presented,
        FrameEvent::PresentFailed,
        FrameEvent::AcquireFailed,
        FrameEvent::Acquired { image: 0 },
        FrameEvent::SwapchainCreated { backbuffer: Backbuffer::Framebuffer },
        FrameEvent::SurfaceQueried { caps: caps(), formats: None },
    ] {
        let (same, refused) = renderer_with(1, &[0], Backbuffer::Images(3)).0.step(event);
        assert_eq!(refused, Err(GpuError::Configuration));
        assert_eq!(same.get_frame_state(), FrameState::Idle);
    }
    let (renderer, _) = step(renderer, polled());
    let (renderer, refused) = renderer.step(FrameEvent::Acquired { image: 3 });
    assert_eq!(refused, Err(GpuError::Configuration));
    assert_eq!(renderer.get_frame_state(), FrameState::AcquireImage);
    let (renderer, refused) = renderer.step(polled());
    assert_eq!(refused, Err(GpuError::Configuration));
    assert_eq!(renderer.get_frame_state(), FrameState::AcquireImage);
}

fn resize(renderer: RendererState, extent: Extent2D, backbuffer: Backbuffer) -> (RendererState, Vec<Vec<Command>>) {
    let (renderer, torn) = step(renderer, FrameEvent::Polled { close: false, resize: Some(extent) });
    assert_eq!(renderer.get_frame_state(), FrameState::RecreateSwapchain);
    let (renderer, configured) = step(renderer, FrameEvent::SurfaceQueried { caps: caps(), formats: None });
    assert_eq!(renderer.get_frame_state(), FrameState::RebuildChain);
    let (renderer, built) = step(renderer, FrameEvent::SwapchainCreated { backbuffer });
    assert_eq!(renderer.get_frame_state(), FrameState::Idle);
    (renderer, vec![torn, configured, built])
}

fn destroyed(commands: &[Command], kind: ResourceKind) -> Vec<u64> {
    commands
        .iter()
        .filter_map(|c| match c {
            Command::Destroy { kind: k, handle } if *k == kind => Some(handle.0),
            _ => None,
        })
        .collect()
}

#[test]
fn resize_takes_the_old_chain_down_once_and_builds_a_new_one() {
    let renderer = renderer();
    let (renderer, _) = frame(renderer, 1);
    let (renderer, commands) = resize(renderer, Extent2D { width: 3000, height: 200 }, Backbuffer::Images(2));
    let torn = &commands[0];
    assert_eq!(torn[0], Command::WaitIdle);
    assert_eq!(destroyed(torn, ResourceKind::RenderPass), vec![24]);
    assert_eq!(destroyed(torn, ResourceKind::GraphicsPipeline), vec![49]);
    assert_eq!(destroyed(torn, ResourceKind::PipelineLayout), vec![46]);
    assert_eq!(destroyed(torn, ResourceKind::Framebuffer), vec![31, 32, 33]);
    assert_eq!(destroyed(torn, ResourceKind::ImageView), vec![28, 29, 30]);
    assert_eq!(destroyed(torn, ResourceKind::Fence), vec![34, 35, 36]);
    assert_eq!(destroyed(torn, ResourceKind::CommandPool), vec![37, 38, 39]);
    assert_eq!(destroyed(torn, ResourceKind::Semaphore), vec![40, 41, 42, 43, 44, 45]);
    assert_eq!(torn.len(), 1 + 6 + 3 + 6 + 3 + 3 + 3);
    let first_destroy = |kind| torn.iter().position(|c| matches!(c, Command::Destroy { kind: k, .. } if *k == kind));
    assert!(first_destroy(ResourceKind::Framebuffer) < first_destroy(ResourceKind::ImageView));
    assert!(first_destroy(ResourceKind::ImageView) < first_destroy(ResourceKind::RenderPass));
    match &commands[1][..] {
        [Command::CreateSwapchain { swapchain, config, previous }] => {
            assert_eq!(*swapchain, Handle(50));
            assert_eq!(config.extent, Extent2D { width: 2048, height: 200 });
            assert_eq!(*previous, Some(Handle(23)));
        }
        other => panic!("unexpected commands {:?}", other),
    }
    let built = &commands[2];
    let extent = Extent { width: 2048, height: 200, depth: 1 };
    let framebuffers: Vec<&Command> =
        built.iter().filter(|c| matches!(c, Command::CreateFramebuffer { .. })).collect();
    assert_eq!(
        framebuffers,
        vec![
            &Command::CreateFramebuffer { framebuffer: Handle(56), render_pass: Handle(51), view: Handle(54), extent },
            &Command::CreateFramebuffer { framebuffer: Handle(57), render_pass: Handle(51), view: Handle(55), extent },
        ]
    );
    for command in built {
        let handles: Vec<u64> = match command {
            Command::CreateImageView { view, .. } => vec![view.0],
            Command::CreateFramebuffer { framebuffer, view, .. } => vec![framebuffer.0, view.0],
            Command::CreateRenderPass { render_pass, .. } => vec![render_pass.0],
            Command::CreateGraphicsPipeline { pipeline, layout, .. } => vec![pipeline.0, layout.0],
            _ => Vec::new(),
        };
        assert!(handles.iter().all(|h| *h > 50));
    }
    assert_eq!(renderer.get_viewport(), Extent2D { width: 2048, height: 200 });
    let (_, commands) = frame(renderer, 1);
    assert_eq!(
        commands[3],
        vec![Command::Present { swapchain: Handle(50), image_index: 1, wait: Handle(64) }]
    );
    assert_eq!(acquire_semaphore(&commands[0]), Handle(62));
}

#[test]
fn out_of_date_swapchain_is_recreated_without_a_resize() {
    let renderer = renderer();
    let (renderer, _) = step(renderer, polled());
    let (renderer, nothing) = step(renderer, FrameEvent::AcquireFailed);
    assert!(nothing.is_empty());
    assert_eq!(renderer.get_frame_state(), FrameState::Idle);
    let (renderer, torn) = step(renderer, polled());
    assert_eq!(torn[0], Command::WaitIdle);
    assert_eq!(renderer.get_frame_state(), FrameState::RecreateSwapchain);
    let (renderer, configured) = step(renderer, FrameEvent::SurfaceQueried { caps: caps(), formats: None });
    match &configured[..] {
        [Command::CreateSwapchain { config, .. }] => {
            assert_eq!(config.extent, Extent2D { width: 640, height: 480 })
        }
        other => panic!("unexpected commands {:?}", other),
    }
    let (renderer, _) = step(renderer, FrameEvent::SwapchainCreated { backbuffer: Backbuffer::Images(3) });
    let (renderer, steps) = frame(renderer, 0);
    assert_eq!(steps[3].len(), 1);
    let (renderer, _) = step(renderer, polled());
    let (renderer, _) = step(renderer, FrameEvent::Acquired { image: 0 });
    let (renderer, _) = step(renderer, FrameEvent::Done);
    let (renderer, _) = step(renderer, FrameEvent::Done);
    let (renderer, nothing) = step(renderer, FrameEvent::PresentFailed);
    assert!(nothing.is_empty());
    let (renderer, torn) = step(renderer, polled());
    assert_eq!(torn[0], Command::WaitIdle);
    assert_eq!(renderer.get_frame_state(), FrameState::RecreateSwapchain);
}

#[test]
fn recreation_refuses_a_surface_that_cannot_be_configured() {
    let renderer = renderer();
    let (renderer, _) = step(renderer, FrameEvent::Polled { close: false, resize: Some(Extent2D { width: 1, height: 1 }) });
    let mut odd = caps();
    odd.composite_alpha = 0;
    let (renderer, refused) = renderer.step(FrameEvent::SurfaceQueried { caps: odd, formats: None });
    assert_eq!(refused, Err(GpuError::Configuration));
    assert_eq!(renderer.get_frame_state(), FrameState::RecreateSwapchain);
}

#[test]
fn keys_move_the_camera() {
    let renderer = renderer();
    assert_eq!(renderer.camera_direction(), (0, 0));
    let renderer = renderer.on_key_input(KEY_UP, ElementState::Pressed);
    assert_eq!(renderer.camera_direction(), (0, 1));
    let renderer = renderer.on_key_input(KEY_DOWN, ElementState::Pressed);
    assert_eq!(renderer.camera_direction(), (0, 1));
    let renderer = renderer.on_key_input(KEY_UP, ElementState::Released);
    assert_eq!(renderer.camera_direction(), (0, -1));
    let renderer = renderer.on_key_input(KEY_RIGHT, ElementState::Pressed);
    assert_eq!(renderer.camera_direction(), (1, -1));
    let renderer = renderer.on_key_input(KEY_LEFT, ElementState::Pressed);
    assert_eq!(renderer.camera_direction(), (-1, -1));
    assert_eq!(renderer.get_frame_state(), FrameState::Idle);
}

#[test]
fn uniform_update_stays_inside_the_buffer() {
    let renderer = renderer();
    assert_eq!(
        renderer.update_uniform(0, 0, vec![7; 64]),
        Ok((Command::WriteMemory { memory: Handle(21), offset: 0, size: 64 }, vec![7; 64]))
    );
    assert_eq!(
        renderer.update_uniform(0, 60, vec![1, 2, 3, 4]),
        Ok((Command::WriteMemory { memory: Handle(21), offset: 60, size: 4 }, vec![1, 2, 3, 4]))
    );
    assert_eq!(renderer.update_uniform(0, 1, vec![7; 64]), Err(GpuError::Configuration));
    assert_eq!(renderer.update_uniform(2, 0, Vec::new()), Err(GpuError::Configuration));
    assert_eq!(renderer.get_uniforms().len(), 2);
    assert_eq!(renderer.get_image_states().len(), 1);
}

#[test]
fn teardown_ends_with_pool_and_swapchain() {
    let (renderer, _) = renderer_with(1, &[], Backbuffer::Framebuffer);
    let commands = renderer.destroy();
    assert_eq!(commands[0], Command::WaitIdle);
    assert_eq!(destroyed(&commands, ResourceKind::Swapchain).len(), 1);
    assert_eq!(destroyed(&commands, ResourceKind::DescriptorPool), vec![2]);
    assert_eq!(destroyed(&commands, ResourceKind::Buffer), vec![6, 10, 0, 1]);
    assert_eq!(destroyed(&commands, ResourceKind::Framebuffer).len(), 1);
    assert_eq!(destroyed(&commands, ResourceKind::ImageView).len(), 1);
    let n = commands.len();
    assert!(matches!(commands[n - 1], Command::Destroy { kind: ResourceKind::Swapchain, .. }));
    assert!(matches!(commands[n - 2], Command::Destroy { kind: ResourceKind::DescriptorPool, .. }));
    let mut handles: Vec<(u64, u8)> = commands
        .iter()
        .filter_map(|c| match c {
            Command::Destroy { kind, handle } => Some((handle.0, *kind as u8)),
            _ => None,
        })
        .collect();
    let all = handles.len();
    handles.sort();
    handles.dedup();
    assert_eq!(handles.len(), all);
}

#[test]
fn teardown_during_recreation_leaves_the_chain_out() {
    let renderer = renderer();
    let (renderer, _) = step(renderer, FrameEvent::Polled { close: false, resize: Some(Extent2D { width: 9, height: 9 }) });
    let commands = renderer.destroy();
    assert!(destroyed(&commands, ResourceKind::Framebuffer).is_empty());
    assert!(destroyed(&commands, ResourceKind::RenderPass).is_empty());
    assert_eq!(destroyed(&commands, ResourceKind::Swapchain), vec![23]);
}

#[test]
fn quad_is_filled_with_its_sources() {
    let initializer = initializer(0, &[]);
    let begin = || PendingRenderer::begin(adapter_state(), &initializer, 4).unwrap().0;
    let vertices: Vec<u8> = (0..80).collect();
    let indices: Vec<u8> = (100..112).collect();
    let (_, vertex_bytes, index_bytes, commands) = begin()
        .bind_quad(vertices.clone(), &requirements(96), indices.clone(), &requirements(16))
        .unwrap();
    assert_eq!(vertex_bytes, vertices);
    assert_eq!(index_bytes, indices);
    assert_eq!(commands[2], Command::WriteMemory { memory: Handle(7), offset: 0, size: 80 });
    assert_eq!(commands[5], Command::WriteMemory { memory: Handle(8), offset: 0, size: 12 });
    assert_eq!(
        begin().bind_quad(vec![0; 79], &requirements(96), indices.clone(), &requirements(16)).err(),
        Some(GpuError::Configuration)
    );
    assert_eq!(
        begin().bind_quad(vertices, &requirements(96), vec![0; 13], &requirements(16)).err(),
        Some(GpuError::Configuration)
    );
    let quad = begin().bind_quad(vec![0; 80], &requirements(96), vec![0; 12], &requirements(16)).unwrap().0;
    assert_eq!(quad.bind_uniform(vec![0; 63], &requirements(64)).err(), Some(GpuError::Configuration));
}
