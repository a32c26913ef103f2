use corporation::adapter::{Adapter, AdapterState, Limits, QueueFamily, QueueType};
use corporation::device::{Command, DeviceState, Handle, ResourceKind};
use corporation::error::GpuError;
use corporation::format::{ChannelType, Format, RGBA8_SRGB};
use corporation::memory::{MemoryType, Properties, CPU_VISIBLE, DEVICE_LOCAL};
use corporation::swapchain::{
    select_format, Backbuffer, Extent, Extent2D, SurfaceCapabilities, SwapchainConfig,
    SwapchainState, COMPOSITE_INHERIT, COMPOSITE_OPAQUE,
};

fn adapter(families: Vec<QueueFamily>) -> Adapter {
    Adapter {
        name: String::from("test"),
        vendor: 1,
        device: 2,
        queue_families: families,
        memory_types: vec![
            MemoryType { properties: Properties { bits: DEVICE_LOCAL }, heap_index: 0 },
            MemoryType { properties: Properties { bits: CPU_VISIBLE }, heap_index: 1 },
        ],
        limits: Limits { min_buffer_copy_pitch_alignment: 256 },
    }
}

fn graphics_family(id: usize) -> QueueFamily {
    QueueFamily { id, queue_type: QueueType::Graphics, max_queues: 1, supports_present: true }
}

fn device() -> DeviceState {
    DeviceState::new(&adapter(vec![graphics_family(0)])).unwrap()
}

fn caps(current: Option<Extent2D>) -> SurfaceCapabilities {
    SurfaceCapabilities {
        min_image_count: 2,
        end_image_count: 4,
        current_extent: current,
        min_extent: Extent2D { width: 16, height: 8 },
        end_extent: Extent2D { width: 4097, height: 2161 },
        max_image_layers: 1,
        usage: 0x10,
        composite_alpha: COMPOSITE_OPAQUE | COMPOSITE_INHERIT,
    }
}

const UNORM: Format = Format { code: 37, channel: ChannelType::Unorm };
const BGRA_UNORM: Format = Format { code: 44, channel: ChannelType::Unorm };
const BGRA_SRGB: Format = Format { code: 50, channel: ChannelType::Srgb };
const SRGB: Format = Format { code: RGBA8_SRGB, channel: ChannelType::Srgb };

#[test]
fn first_srgb_format_is_preferred() {
    assert_eq!(select_format(&Some(vec![UNORM, BGRA_SRGB, SRGB])), BGRA_SRGB);
    assert_eq!(select_format(&Some(vec![SRGB, BGRA_SRGB])), SRGB);
}

#[test]
fn first_format_is_the_fallback() {
    assert_eq!(select_format(&Some(vec![BGRA_UNORM, UNORM])), BGRA_UNORM);
    assert_eq!(select_format(&Some(vec![UNORM])), UNORM);
}

#[test]
fn default_format_where_the_surface_names_none() {
    assert_eq!(select_format(&None), SRGB);
    assert_eq!(select_format(&Some(Vec::new())), SRGB);
    assert_eq!(Format::color(), SRGB);
    assert!(Format::color().is_srgb());
    assert!(!Format::depth().is_srgb());
}

fn config_for(caps: &SurfaceCapabilities, extent: Extent2D) -> SwapchainConfig {
    let mut device = device();
    match SwapchainState::new(&mut device, caps, &None, extent, None).unwrap().1 {
        Command::CreateSwapchain { config, .. } => config,
        other => panic!("unexpected command {:?}", other),
    }
}

#[test]
fn requested_extent_is_clamped_to_the_surface() {
    let open = caps(None);
    assert_eq!(
        config_for(&open, Extent2D { width: 640, height: 480 }).extent,
        Extent2D { width: 640, height: 480 }
    );
    assert_eq!(
        config_for(&open, Extent2D { width: 5000, height: 4 }).extent,
        Extent2D { width: 4096, height: 8 }
    );
    assert_eq!(
        config_for(&open, Extent2D { width: 0, height: 9000 }).extent,
        Extent2D { width: 16, height: 2160 }
    );
}

#[test]
fn current_extent_of_the_surface_wins() {
    let fixed = caps(Some(Extent2D { width: 800, height: 600 }));
    assert_eq!(
        config_for(&fixed, Extent2D { width: 640, height: 480 }).extent,
        Extent2D { width: 800, height: 600 }
    );
}

#[test]
fn empty_extent_range_takes_the_upper_end() {
    let mut inverted = caps(None);
    inverted.min_extent = Extent2D { width: 100, height: 100 };
    inverted.end_extent = Extent2D { width: 51, height: 1 };
    assert_eq!(
        config_for(&inverted, Extent2D { width: 70, height: 70 }).extent,
        Extent2D { width: 50, height: 0 }
    );
}

#[test]
fn configuration_takes_least_image_count_and_known_composition() {
    let config = config_for(&caps(None), Extent2D { width: 640, height: 480 });
    assert_eq!(config.image_count, 2);
    assert_eq!(config.composite_alpha, COMPOSITE_INHERIT);
    assert_eq!(config.format, SRGB);
    let mut opaque = caps(None);
    opaque.composite_alpha = COMPOSITE_OPAQUE | 0x2;
    assert_eq!(
        config_for(&opaque, Extent2D { width: 640, height: 480 }).composite_alpha,
        COMPOSITE_OPAQUE
    );
}

#[test]
fn swapchain_state_keeps_format_and_extent() {
    let mut device = device();
    let formats = Some(vec![UNORM, BGRA_SRGB]);
    let (state, command) = SwapchainState::new(
        &mut device,
        &caps(None),
        &formats,
        Extent2D { width: 1024, height: 4000 },
        Some(Handle(77)),
    )
    .unwrap();
    assert_eq!(state.get_swapchain(), Handle(0));
    assert_eq!(state.get_format(), BGRA_SRGB);
    assert_eq!(state.get_extent(), Extent { width: 1024, height: 2160, depth: 1 });
    assert_eq!(
        command,
        Command::CreateSwapchain {
            swapchain: Handle(0),
            config: SwapchainConfig {
                format: BGRA_SRGB,
                extent: Extent2D { width: 1024, height: 2160 },
                image_count: 2,
                composite_alpha: COMPOSITE_INHERIT,
            },
            previous: Some(Handle(77)),
        }
    );
    assert!(!device.can_allocate(u64::MAX));
    assert!(device.can_allocate(u64::MAX - 1));
    assert_eq!(
        state.destroy(),
        Command::Destroy { kind: ResourceKind::Swapchain, handle: Handle(0) }
    );
}

#[test]
fn surface_that_allows_no_extent_is_refused() {
    let mut device = device();
    let mut none = caps(None);
    none.end_extent = Extent2D { width: 0, height: 100 };
    let extent = Extent2D { width: 640, height: 480 };
    assert_eq!(
        SwapchainState::new(&mut device, &none, &None, extent, None).err(),
        Some(GpuError::Configuration)
    );
    none.end_extent = Extent2D { width: 100, height: 0 };
    assert_eq!(
        SwapchainState::new(&mut device, &none, &None, extent, None).err(),
        Some(GpuError::Configuration)
    );
    none.current_extent = Some(Extent2D { width: 3, height: 3 });
    assert!(SwapchainState::new(&mut device, &none, &None, extent, None).is_ok());
}

#[test]
fn surface_without_known_composition_is_refused() {
    let mut device = device();
    let mut odd = caps(None);
    odd.composite_alpha = 0x2 | 0x4;
    let extent = Extent2D { width: 640, height: 480 };
    assert_eq!(
        SwapchainState::new(&mut device, &odd, &None, extent, None).err(),
        Some(GpuError::Configuration)
    );
    assert!(device.can_allocate(u64::MAX));
}

#[test]
fn backbuffer_is_attached_and_taken_once() {
    let mut device = device();
    let extent = Extent2D { width: 640, height: 480 };
    let (mut state, _) = SwapchainState::new(&mut device, &caps(None), &None, extent, None).unwrap();
    assert_eq!(state.take_backbuffer(), None);
    state.attach_backbuffer(Backbuffer::Images(3));
    assert_eq!(state.take_backbuffer(), Some(Backbuffer::Images(3)));
    assert_eq!(state.take_backbuffer(), None);
}

#[test]
fn first_adapter_is_chosen() {
    let mut adapters = vec![adapter(vec![graphics_family(3)]), adapter(Vec::new())];
    adapters[1].name = String::from("second");
    let state = AdapterState::new(&mut adapters).unwrap();
    assert_eq!(state.adapter.as_ref().unwrap().name, "test");
    assert_eq!(state.mem_types.len(), 2);
    assert_eq!(state.limits, Limits { min_buffer_copy_pitch_alignment: 256 });
    assert_eq!(adapters.len(), 1);
    assert_eq!(adapters[0].name, "second");
}

#[test]
fn no_adapter_is_an_error() {
    let mut adapters: Vec<Adapter> = Vec::new();
    assert_eq!(AdapterState::new(&mut adapters).err(), Some(GpuError::NoAdapter));
}

#[test]
fn device_opens_on_first_family_that_draws_and_presents() {
    let families = vec![
        QueueFamily { id: 10, queue_type: QueueType::Transfer, max_queues: 4, supports_present: true },
        QueueFamily { id: 11, queue_type: QueueType::Graphics, max_queues: 4, supports_present: false },
        QueueFamily { id: 12, queue_type: QueueType::Graphics, max_queues: 0, supports_present: true },
        QueueFamily { id: 13, queue_type: QueueType::General, max_queues: 1, supports_present: true },
        QueueFamily { id: 14, queue_type: QueueType::Graphics, max_queues: 1, supports_present: true },
    ];
    let device = DeviceState::new(&adapter(families)).unwrap();
    assert_eq!(device.get_queue_family(), 13);
    assert_eq!(device.mark(), 0);
}

#[test]
fn device_needs_a_family_that_draws_and_presents() {
    let families = vec![
        QueueFamily { id: 0, queue_type: QueueType::Compute, max_queues: 4, supports_present: true },
        QueueFamily { id: 1, queue_type: QueueType::General, max_queues: 4, supports_present: false },
    ];
    assert_eq!(
        DeviceState::new(&adapter(families)).err(),
        Some(GpuError::NoCompatibleQueueFamily)
    );
    assert_eq!(
        DeviceState::new(&adapter(Vec::new())).err(),
        Some(GpuError::NoCompatibleQueueFamily)
    );
}

#[test]
fn handles_are_handed_out_in_a_row() {
    let mut device = device();
    assert_eq!(device.allocate(3), Handle(0));
    assert_eq!(device.allocate(1), Handle(3));
    let (pool, command) = device.create_command_pool();
    assert_eq!(pool, Handle(4));
    assert_eq!(command, Command::CreateCommandPool { pool: Handle(4), family: 0 });
    assert_eq!(device.mark(), 5);
    assert_eq!(device.allocate(0), Handle(5));
    assert_eq!(device.allocate(1), Handle(5));
    assert_eq!(device.mark(), 6);
}

#[test]
fn row_alignment_mask_needs_a_power_of_two() {
    assert_eq!(Limits { min_buffer_copy_pitch_alignment: 256 }.row_alignment_mask(), Ok(255));
    assert_eq!(Limits { min_buffer_copy_pitch_alignment: 1 }.row_alignment_mask(), Ok(0));
    assert_eq!(
        Limits { min_buffer_copy_pitch_alignment: 0x8000_0000 }.row_alignment_mask(),
        Ok(0x7FFF_FFFF)
    );
    for bad in [0u64, 3, 384, 0x1_0000_0000] {
        assert_eq!(
            Limits { min_buffer_copy_pitch_alignment: bad }.row_alignment_mask(),
            Err(GpuError::Configuration)
        );
    }
}
