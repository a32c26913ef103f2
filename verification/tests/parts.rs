use corporation::adapter::{Adapter, Limits, QueueFamily, QueueType};
use corporation::buffer::USAGE_UNIFORM;
use corporation::descriptor::{
    DescriptorSet, DescriptorSetLayout, DescriptorSetLayoutBinding, DescriptorType, STAGE_VERTEX,
};
use corporation::device::{failure, Command, Descriptor, DeviceState, Handle, ResourceKind};
use corporation::error::GpuError;
use corporation::format::{RG32_SFLOAT, RGB32_SFLOAT};
use corporation::input::{ElementState, InputState, KEY_DOWN, KEY_LEFT, KEY_RIGHT, KEY_UP};
use corporation::memory::{MemoryType, MemoryTypeId, Properties, Requirements, CPU_VISIBLE};
use corporation::mesh::{Face, Mesh};
use corporation::pipeline::{
    BlendState, PipelineState, Primitive, SPECIALIZATION_SCALE, VERTEX_STRIDE,
};
use corporation::shader::{Error, Kind, Loader};
use corporation::uniform::Uniform;

fn device() -> DeviceState {
    DeviceState::new(&Adapter {
        name: String::new(),
        vendor: 0,
        device: 0,
        queue_families: vec![QueueFamily {
            id: 0,
            queue_type: QueueType::Graphics,
            max_queues: 1,
            supports_present: true,
        }],
        memory_types: Vec::new(),
        limits: Limits { min_buffer_copy_pitch_alignment: 1 },
    })
    .unwrap()
}

#[test]
fn key_is_down_after_press_and_up_after_release() {
    let mut input = InputState::new();
    assert!(!input.is_key_down(&KEY_UP));
    input.on_key_input(KEY_UP, ElementState::Pressed);
    assert!(input.is_key_down(&KEY_UP));
    assert!(!input.is_key_down(&KEY_DOWN));
    input.on_key_input(KEY_UP, ElementState::Released);
    assert!(!input.is_key_down(&KEY_UP));
    input.on_key_input(1234, ElementState::Released);
    assert!(!input.is_key_down(&1234));
}

#[test]
fn default_input_state_knows_no_key() {
    let input = InputState::default();
    assert!(!input.is_key_down(&KEY_LEFT));
    assert_eq!(input.camera_direction(), (0, 0));
}

#[test]
fn first_arrow_key_of_an_axis_wins() {
    let mut input = InputState::new();
    assert_eq!(input.camera_direction(), (0, 0));
    input.on_key_input(KEY_RIGHT, ElementState::Pressed);
    input.on_key_input(KEY_DOWN, ElementState::Pressed);
    assert_eq!(input.camera_direction(), (1, -1));
    input.on_key_input(KEY_LEFT, ElementState::Pressed);
    input.on_key_input(KEY_UP, ElementState::Pressed);
    assert_eq!(input.camera_direction(), (-1, 1));
}

fn face(a: u32, b: u32, c: u32) -> Face {
    Face { indices: vec![a, b, c] }
}

#[test]
fn indices_of_a_box_are_its_faces_in_order() {
    let vertices: Vec<[u32; 5]> = (0..24).map(|i| [i; 5]).collect();
    let mut faces = Vec::new();
    for side in 0..6u32 {
        let first = side * 4;
        faces.push(face(first, first + 1, first + 2));
        faces.push(face(first + 2, first + 3, first));
    }
    let mesh = Mesh::new(String::from("TestBoxModel"), vertices, faces);
    assert_eq!(mesh.name(), "TestBoxModel");
    assert_eq!(mesh.vertices().len(), 24);
    assert_eq!(mesh.faces().len(), 12);
    let indices = mesh.indices();
    assert_eq!(indices.len(), 36);
    assert_eq!(indices.len() % 3, 0);
    assert_eq!(&indices[0..6], &[0, 1, 2, 2, 3, 0]);
    assert_eq!(&indices[30..36], &[20, 21, 22, 22, 23, 20]);
}

#[test]
fn indices_keep_faces_of_any_size() {
    let faces = vec![
        Face { indices: vec![5] },
        Face { indices: Vec::new() },
        Face { indices: vec![1, 2, 3, 4] },
    ];
    let mesh: Mesh<u8> = Mesh::new(String::new(), Vec::new(), faces);
    assert_eq!(mesh.indices(), vec![5, 1, 2, 3, 4]);
    let empty: Mesh<u8> = Mesh::new(String::new(), Vec::new(), Vec::new());
    assert!(empty.indices().is_empty());
}

#[test]
fn compiled_binary_is_handed_on() {
    assert_eq!(Loader::compiled("VS_SHADER", Ok(vec![3, 2, 35, 7])), Ok(vec![3, 2, 35, 7]));
    assert_eq!(Loader::compiled("", Ok(Vec::new())), Ok(Vec::new()));
}

#[test]
fn compile_error_names_the_shader_and_keeps_the_log() {
    let log = String::from("test_vs_shader:1: error: '' : syntax error");
    assert_eq!(
        Loader::compiled("test_vs_shader", Err(log)),
        Err(Error::CompileError(String::from(
            "Failed to compile shader 'test_vs_shader':\nLog: test_vs_shader:1: error: '' : syntax error"
        )))
    );
    assert_eq!(
        Loader::compiled("", Err(String::new())),
        Err(Error::CompileError(String::from("Failed to compile shader '':\nLog: ")))
    );
    assert_ne!(Kind::Vertex, Kind::Fragment);
}

#[test]
fn pipeline_is_built_and_its_shaders_are_dropped() {
    let mut device = device();
    device.allocate(10);
    let layouts = vec![Handle(4), Handle(7)];
    let (state, commands) = PipelineState::new(&mut device, layouts.clone(), Handle(3));
    assert_eq!(
        commands,
        vec![
            Command::CreatePipelineLayout { layout: Handle(10) },
            Command::CreateShaderModule { module: Handle(11), stage: Kind::Vertex },
            Command::CreateShaderModule { module: Handle(12), stage: Kind::Fragment },
            Command::CreateGraphicsPipeline {
                pipeline: Handle(13),
                layout: Handle(10),
                render_pass: Handle(3),
                vertex: Handle(11),
                fragment: Handle(12)
            },
            Command::Destroy { kind: ResourceKind::ShaderModule, handle: Handle(11) },
            Command::Destroy { kind: ResourceKind::ShaderModule, handle: Handle(12) },
        ]
    );
    assert_eq!(state.get_pipeline(), Handle(13));
    assert_eq!(state.get_pipeline_layout(), Handle(10));
    assert_eq!(state.get_descriptor_layouts(), &layouts);
    assert_eq!(
        state.destroy(),
        vec![
            Command::Destroy { kind: ResourceKind::GraphicsPipeline, handle: Handle(13) },
            Command::Destroy { kind: ResourceKind::PipelineLayout, handle: Handle(10) },
        ]
    );
}

#[test]
fn pipeline_draws_blended_triangle_strips_of_packed_vertices() {
    let description = PipelineState::description();
    assert_eq!(description.primitive, Primitive::TriangleStrip);
    assert!(description.fill);
    assert_eq!(description.blend, BlendState::Alpha);
    assert_eq!(description.color_mask, 0xF);
    assert_eq!(description.vertex_binding, 0);
    assert_eq!(description.vertex_stride, 20);
    assert_eq!(VERTEX_STRIDE, 20);
    assert_eq!(description.vertex_rate, 0);
    assert_eq!(description.position.location, 0);
    assert_eq!(description.position.format, RGB32_SFLOAT);
    assert_eq!(description.position.offset, 0);
    assert_eq!(description.tex_coord.location, 1);
    assert_eq!(description.tex_coord.format, RG32_SFLOAT);
    assert_eq!(description.tex_coord.offset, 12);
    assert_eq!(description.specialization_id, 0);
    assert_eq!((description.specialization_start, description.specialization_end), (0, 4));
    assert_eq!(description.specialization_data, SPECIALIZATION_SCALE);
    assert_eq!(SPECIALIZATION_SCALE, 0x3F00_0000);
    assert_eq!(description.push_constant_stages, STAGE_VERTEX);
    assert_eq!((description.push_constant_start, description.push_constant_end), (0, 8));
}

fn uniform_set(device: &mut DeviceState, binding: u32) -> DescriptorSet {
    let bindings = vec![DescriptorSetLayoutBinding {
        binding,
        ty: DescriptorType::UniformBuffer,
        count: 1,
        stage_flags: STAGE_VERTEX,
        immutable_samplers: false,
    }];
    let (layout, _) = DescriptorSetLayout::new(device, bindings);
    layout.create_set(device, Handle(99)).0
}

fn host_memory() -> Vec<MemoryType> {
    vec![MemoryType { properties: Properties { bits: CPU_VISIBLE }, heap_index: 0 }]
}

#[test]
fn uniform_buffer_is_written_into_its_binding() {
    let mut device = device();
    let set = uniform_set(&mut device, 3);
    let (pending, create) = Uniform::create(&mut device, 16, 4).unwrap();
    assert_eq!(create, Command::CreateBuffer { buffer: Handle(2), size: 64, usage: USAGE_UNIFORM });
    let requirements = Requirements { size: 256, alignment: 256, type_mask: 1 };
    let source: Vec<u8> = (0..64).collect();
    let (uniform, bytes, commands) =
        Uniform::new(&mut device, &host_memory(), pending, source.clone(), &requirements, set, 3)
            .unwrap();
    assert_eq!(bytes, source);
    assert_eq!(
        commands,
        vec![
            Command::AllocateMemory { memory: Handle(3), memory_type: MemoryTypeId(0), size: 256 },
            Command::BindBufferMemory { memory: Handle(3), buffer: Handle(2) },
            Command::WriteMemory { memory: Handle(3), offset: 0, size: 64 },
            Command::WriteDescriptorSet {
                set: Handle(1),
                binding: 3,
                array_offset: 0,
                descriptor: Descriptor::Buffer(Handle(2))
            },
        ]
    );
    assert_eq!(*uniform.get_layout(), Handle(0));
    assert_eq!(*uniform.get_buffer_state().get_buffer(), Handle(2));
    assert_eq!(uniform.get_descriptor_set().get_set(), Handle(1));
}

#[test]
fn uniform_for_an_undeclared_binding_is_refused() {
    let mut device = device();
    let set = uniform_set(&mut device, 3);
    let (pending, _) = Uniform::create(&mut device, 16, 4).unwrap();
    let requirements = Requirements { size: 256, alignment: 256, type_mask: 1 };
    let before = device.mark();
    assert_eq!(
        Uniform::new(&mut device, &host_memory(), pending, vec![0; 64], &requirements, set, 0).err(),
        Some(GpuError::Configuration)
    );
    assert_eq!(device.mark(), before);
    let set = uniform_set(&mut device, 3);
    let none = Requirements { size: 256, alignment: 256, type_mask: 2 };
    assert_eq!(
        Uniform::new(&mut device, &host_memory(), pending, vec![0; 64], &none, set, 3).err(),
        Some(GpuError::NoCompatibleMemoryType)
    );
    let set = uniform_set(&mut device, 3);
    assert_eq!(
        Uniform::new(&mut device, &host_memory(), pending, vec![0; 65], &requirements, set, 3).err(),
        Some(GpuError::Configuration)
    );
    assert_eq!(Uniform::create(&mut device, usize::MAX, 16).err(), Some(GpuError::SizeOverflow));
}

#[test]
fn device_failures_become_setup_errors() {
    let allocate = Command::AllocateDescriptorSet { set: Handle(1), pool: Handle(2), layout: Handle(3) };
    assert_eq!(failure(&allocate), GpuError::DescriptorPoolExhausted);
    let module = Command::CreateShaderModule { module: Handle(1), stage: Kind::Fragment };
    assert_eq!(failure(&module), GpuError::ShaderCompilation);
    let buffer = Command::CreateBuffer { buffer: Handle(1), size: 4, usage: USAGE_UNIFORM };
    assert_eq!(failure(&buffer), GpuError::ResourceCreation);
    assert_eq!(failure(&Command::WaitIdle), GpuError::ResourceCreation);
    let memory = Command::AllocateMemory { memory: Handle(1), memory_type: MemoryTypeId(0), size: 4 };
    assert_eq!(failure(&memory), GpuError::ResourceCreation);
}

#[test]
fn every_error_has_its_own_message() {
    let errors = [
        GpuError::NoAdapter,
        GpuError::NoCompatibleQueueFamily,
        GpuError::NoCompatibleMemoryType,
        GpuError::ResourceCreation,
        GpuError::DescriptorPoolExhausted,
        GpuError::ShaderCompilation,
        GpuError::Configuration,
        GpuError::Asset,
        GpuError::SizeOverflow,
    ];
    let mut messages: Vec<&str> = errors.iter().map(|e| e.message()).collect();
    assert_eq!(messages[0], "no graphics adapter was found");
    assert_eq!(messages[4], "the descriptor pool has no set left");
    assert!(messages.iter().all(|m| !m.is_empty()));
    messages.sort();
    messages.dedup();
    assert_eq!(messages.len(), errors.len());
}
