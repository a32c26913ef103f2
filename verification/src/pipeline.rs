use crate::descriptor::STAGE_VERTEX;
use crate::device::{Command, DeviceState, Handle, ResourceKind};
use crate::format::{RG32_SFLOAT, RGB32_SFLOAT};
use crate::shader;
use vstd::prelude::*;

verus! {

/// Bytes of one vertex: a position of three floats, then a texture
/// coordinate of two.
pub const VERTEX_STRIDE: u32 = 20;

/// The bits of the scale factor that the vertex shader is specialised
/// with: one half as a 32-bit float.
pub const SPECIALIZATION_SCALE: u32 = 0x3F00_0000;

/// How the vertices of a draw are put together.
#[derive(Clone, Copy, Debug, PartialEq, Eq, Structural)]
pub enum Primitive {
    PointList,
    LineList,
    LineStrip,
    TriangleList,
    TriangleStrip,
}

/// How the target is blended with what is drawn.
#[derive(Clone, Copy, Debug, PartialEq, Eq, Structural)]
pub enum BlendState {
    Off,
    /// The source over the target, weighted with the source alpha.
    Alpha,
}

/// One attribute of a vertex.
#[derive(Clone, Copy, Debug, PartialEq, Eq, Structural)]
pub struct AttributeDesc {
    pub location: u32,
    pub binding: u32,
    /// Code of the format of the attribute.
    pub format: u32,
    /// Where the attribute starts in the vertex.
    pub offset: u32,
}

/// The fixed state of the pipeline of the renderer.
#[derive(Clone, Copy, Debug, PartialEq, Eq, Structural)]
pub struct PipelineDesc {
    pub primitive: Primitive,
    /// Polygons are filled.
    pub fill: bool,
    pub blend: BlendState,
    /// The colour channels that are written, one bit each.
    pub color_mask: u8,
    pub vertex_binding: u32,
    pub vertex_stride: u32,
    /// 0 where the buffer advances with each vertex.
    pub vertex_rate: u8,
    pub position: AttributeDesc,
    pub tex_coord: AttributeDesc,
    pub specialization_id: u32,
    /// The bytes of the specialisation data that the constant takes.
    pub specialization_start: u16,
    pub specialization_end: u16,
    pub specialization_data: u32,
    /// The stages that see the push constants.
    pub push_constant_stages: u32,
    pub push_constant_start: u32,
    pub push_constant_end: u32,
}

/// The pipeline of the renderer.
pub open spec fn pipeline_desc() -> PipelineDesc {
    PipelineDesc {
        primitive: Primitive::TriangleStrip,
        fill: true,
        blend: BlendState::Alpha,
        color_mask: 0xF,
        vertex_binding: 0,
        vertex_stride: VERTEX_STRIDE,
        vertex_rate: 0,
        position: AttributeDesc { location: 0, binding: 0, format: RGB32_SFLOAT, offset: 0 },
        tex_coord: AttributeDesc { location: 1, binding: 0, format: RG32_SFLOAT, offset: 12 },
        specialization_id: 0,
        specialization_start: 0,
        specialization_end: 4,
        specialization_data: SPECIALIZATION_SCALE,
        push_constant_stages: STAGE_VERTEX,
        push_constant_start: 0,
        push_constant_end: 8,
    }
}

/// The graphics pipeline and its layout.
pub struct PipelineState {
    pub(crate) pipeline: Handle,
    pub(crate) pipeline_layout: Handle,
    pub(crate) descriptor_layouts: Vec<Handle>,
}

/// What the device is told to build a pipeline whose handles start at
/// `first`: the layout, the two shader modules, the pipeline, and then the
/// end of the shader modules, which the pipeline no longer needs.
pub open spec fn pipeline_commands(first: int, render_pass: Handle) -> Seq<Command> {
    let layout = Handle(first as u64);
    let vertex = Handle((first + 1) as u64);
    let fragment = Handle((first + 2) as u64);
    let pipeline = Handle((first + 3) as u64);
    seq![
        Command::CreatePipelineLayout { layout },
        Command::CreateShaderModule { module: vertex, stage: shader::Kind::Vertex },
        Command::CreateShaderModule { module: fragment, stage: shader::Kind::Fragment },
        Command::CreateGraphicsPipeline { pipeline, layout, render_pass, vertex, fragment },
        Command::Destroy { kind: ResourceKind::ShaderModule, handle: vertex },
        Command::Destroy { kind: ResourceKind::ShaderModule, handle: fragment },
    ]
}

impl PipelineState {
    pub open(crate) spec fn pipeline(&self) -> Handle {
        self.pipeline
    }

    pub open(crate) spec fn pipeline_layout(&self) -> Handle {
        self.pipeline_layout
    }

    pub open(crate) spec fn descriptor_layouts(&self) -> Seq<Handle> {
        self.descriptor_layouts@
    }

    /// Names the pipeline for the render pass and the descriptor set
    /// layouts, in the order in which the sets are bound.
    pub fn new(device: &mut DeviceState, descriptor_layouts: Vec<Handle>, render_pass: Handle) -> (r:
        (PipelineState, Vec<Command>))
        requires
            old(device).has_room(4),
        ensures
            r.0.pipeline_layout() == Handle(old(device).next_handle()),
            r.0.pipeline() == Handle((old(device).next_handle() + 3) as u64),
            r.0.descriptor_layouts() == descriptor_layouts@,
            r.1@ == pipeline_commands(old(device).next_handle() as int, render_pass),
            final(device).next_handle() == old(device).next_handle() + 4,
            final(device).queue_family() == old(device).queue_family(),
    {
        let layout = device.allocate(1);
        let vertex = device.allocate(1);
        let fragment = device.allocate(1);
        let pipeline = device.allocate(1);
        let mut commands: Vec<Command> = Vec::new();
        commands.push(Command::CreatePipelineLayout { layout });
        commands.push(Command::CreateShaderModule { module: vertex, stage: shader::Kind::Vertex });
        commands.push(
            Command::CreateShaderModule { module: fragment, stage: shader::Kind::Fragment },
        );
        commands.push(
            Command::CreateGraphicsPipeline { pipeline, layout, render_pass, vertex, fragment },
        );
        commands.push(Command::Destroy { kind: ResourceKind::ShaderModule, handle: vertex });
        commands.push(Command::Destroy { kind: ResourceKind::ShaderModule, handle: fragment });
        (PipelineState { pipeline, pipeline_layout: layout, descriptor_layouts }, commands)
    }

    /// The fixed state that the pipeline is created with.
    pub fn description() -> (r: PipelineDesc)
        ensures
            r == pipeline_desc(),
            r.position.offset + 12 == r.tex_coord.offset,
            r.tex_coord.offset + 8 == r.vertex_stride,
    {
        PipelineDesc {
            primitive: Primitive::TriangleStrip,
            fill: true,
            blend: BlendState::Alpha,
            color_mask: 0xF,
            vertex_binding: 0,
            vertex_stride: VERTEX_STRIDE,
            vertex_rate: 0,
            position: AttributeDesc { location: 0, binding: 0, format: RGB32_SFLOAT, offset: 0 },
            tex_coord: AttributeDesc { location: 1, binding: 0, format: RG32_SFLOAT, offset: 12 },
            specialization_id: 0,
            specialization_start: 0,
            specialization_end: 4,
            specialization_data: SPECIALIZATION_SCALE,
            push_constant_stages: STAGE_VERTEX,
            push_constant_start: 0,
            push_constant_end: 8,
        }
    }

    pub fn get_pipeline(&self) -> (r: Handle)
        ensures
            r == self.pipeline(),
    {
        self.pipeline
    }

    pub fn get_pipeline_layout(&self) -> (r: Handle)
        ensures
            r == self.pipeline_layout(),
    {
        self.pipeline_layout
    }

    /// The layouts of the sets of the pipeline, in binding order.
    pub fn get_descriptor_layouts(&self) -> (r: &Vec<Handle>)
        ensures
            r@ == self.descriptor_layouts(),
    {
        &self.descriptor_layouts
    }

    /// Destroys the pipeline, then its layout.
    pub fn destroy(self) -> (r: Vec<Command>)
        ensures
            r@ == seq![
                Command::Destroy { kind: ResourceKind::GraphicsPipeline, handle: self.pipeline() },
                Command::Destroy {
                    kind: ResourceKind::PipelineLayout,
                    handle: self.pipeline_layout(),
                },
            ],
    {
        let mut commands: Vec<Command> = Vec::new();
        commands.push(
            Command::Destroy { kind: ResourceKind::GraphicsPipeline, handle: self.pipeline },
        );
        commands.push(
            Command::Destroy { kind: ResourceKind::PipelineLayout, handle: self.pipeline_layout },
        );
        commands
    }
}

} // verus!
