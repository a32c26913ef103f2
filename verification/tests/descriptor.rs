use corporation::adapter::{Adapter, Limits, QueueFamily, QueueType};
use corporation::descriptor::{
    DescriptorSet, DescriptorSetLayout, DescriptorSetLayoutBinding, DescriptorSetWrite,
    DescriptorType, STAGE_FRAGMENT, STAGE_VERTEX,
};
use corporation::device::{Command, Descriptor, DeviceState, Handle, ResourceKind};
use corporation::error::GpuError;
use corporation::image::Layout;

fn device() -> DeviceState {
    DeviceState::new(&Adapter {
        name: String::new(),
        vendor: 0,
        device: 0,
        queue_families: vec![QueueFamily {
            id: 0,
            queue_type: QueueType::Graphics,
            max_queues: 1,
            supports_present: true,
        }],
        memory_types: Vec::new(),
        limits: Limits { min_buffer_copy_pitch_alignment: 1 },
    })
    .unwrap()
}

fn binding(binding: u32, ty: DescriptorType, count: usize) -> DescriptorSetLayoutBinding {
    DescriptorSetLayoutBinding { binding, ty, count, stage_flags: STAGE_FRAGMENT, immutable_samplers: false }
}

fn texture_set() -> DescriptorSet {
    let mut device = device();
    let bindings = vec![
        binding(0, DescriptorType::SampledImage, 1),
        binding(1, DescriptorType::Sampler, 1),
        binding(4, DescriptorType::UniformBuffer, 2),
    ];
    let (layout, create) = DescriptorSetLayout::new(&mut device, bindings);
    assert_eq!(create, Command::CreateDescriptorSetLayout { layout: Handle(0) });
    let (set, allocate) = layout.create_set(&mut device, Handle(9));
    assert_eq!(
        allocate,
        Command::AllocateDescriptorSet { set: Handle(1), pool: Handle(9), layout: Handle(0) }
    );
    set
}

fn write(binding: u32, array_offset: usize, descriptor: Descriptor) -> DescriptorSetWrite {
    DescriptorSetWrite { binding, array_offset, descriptor }
}

#[test]
fn declared_writes_become_commands_in_order() {
    let set = texture_set();
    let image = Descriptor::Image(Handle(20), Layout::Undefined);
    let sampler = Descriptor::Sampler(Handle(21));
    let buffer = Descriptor::Buffer(Handle(22));
    let commands = set
        .write_to_state(vec![write(1, 0, sampler), write(0, 0, image), write(4, 1, buffer)])
        .unwrap();
    assert_eq!(
        commands,
        vec![
            Command::WriteDescriptorSet { set: Handle(1), binding: 1, array_offset: 0, descriptor: sampler },
            Command::WriteDescriptorSet { set: Handle(1), binding: 0, array_offset: 0, descriptor: image },
            Command::WriteDescriptorSet { set: Handle(1), binding: 4, array_offset: 1, descriptor: buffer },
        ]
    );
    assert_eq!(set.write_to_state(Vec::new()), Ok(Vec::new()));
}

#[test]
fn write_to_undeclared_binding_is_refused() {
    let set = texture_set();
    let buffer = Descriptor::Buffer(Handle(22));
    assert_eq!(set.write_to_state(vec![write(2, 0, buffer)]), Err(GpuError::Configuration));
    assert_eq!(set.write_to_state(vec![write(5, 0, buffer)]), Err(GpuError::Configuration));
}

#[test]
fn one_undeclared_write_refuses_the_whole_list() {
    let set = texture_set();
    let sampler = Descriptor::Sampler(Handle(21));
    let writes = vec![write(1, 0, sampler), write(3, 0, sampler), write(1, 0, sampler)];
    assert_eq!(set.write_to_state(writes), Err(GpuError::Configuration));
}

#[test]
fn write_past_the_array_of_a_binding_is_refused() {
    let set = texture_set();
    let buffer = Descriptor::Buffer(Handle(22));
    assert!(set.write_to_state(vec![write(4, 0, buffer), write(4, 1, buffer)]).is_ok());
    assert_eq!(set.write_to_state(vec![write(4, 2, buffer)]), Err(GpuError::Configuration));
    let sampler = Descriptor::Sampler(Handle(21));
    assert_eq!(set.write_to_state(vec![write(1, 1, sampler)]), Err(GpuError::Configuration));
}

#[test]
fn write_of_the_wrong_kind_is_refused() {
    let set = texture_set();
    let image = Descriptor::Image(Handle(20), Layout::ShaderReadOnlyOptimal);
    let sampler = Descriptor::Sampler(Handle(21));
    let buffer = Descriptor::Buffer(Handle(22));
    assert_eq!(set.write_to_state(vec![write(0, 0, sampler)]), Err(GpuError::Configuration));
    assert_eq!(set.write_to_state(vec![write(1, 0, image)]), Err(GpuError::Configuration));
    assert_eq!(set.write_to_state(vec![write(4, 0, image)]), Err(GpuError::Configuration));
    assert_eq!(set.write_to_state(vec![write(0, 0, buffer)]), Err(GpuError::Configuration));
}

#[test]
fn layout_says_which_writes_it_declares() {
    let set = texture_set();
    let mut device = device();
    let bindings = vec![binding(7, DescriptorType::StorageBuffer, 1)];
    let (layout, _) = DescriptorSetLayout::new(&mut device, bindings.clone());
    assert_eq!(layout.get_bindings(), &bindings);
    assert!(layout.declares(&write(7, 0, Descriptor::Buffer(Handle(1)))));
    assert!(!layout.declares(&write(7, 0, Descriptor::Sampler(Handle(1)))));
    assert!(!layout.declares(&write(0, 0, Descriptor::Buffer(Handle(1)))));
    assert_eq!(*set.get_layout(), Handle(0));
    assert_eq!(set.get_set(), Handle(1));
    assert_eq!(
        layout.destroy(),
        Command::Destroy { kind: ResourceKind::DescriptorSetLayout, handle: Handle(0) }
    );
    assert_ne!(STAGE_VERTEX, STAGE_FRAGMENT);
}

#[test]
fn set_without_bindings_takes_no_write() {
    let mut device = device();
    let (layout, _) = DescriptorSetLayout::new(&mut device, Vec::new());
    let (set, _) = layout.create_set(&mut device, Handle(3));
    assert_eq!(
        set.write_to_state(vec![write(0, 0, Descriptor::Buffer(Handle(1)))]),
        Err(GpuError::Configuration)
    );
}
