use crate::device::{Command, Descriptor, DeviceState, Handle, ResourceKind};
use crate::error::GpuError;
use vstd::prelude::*;

verus! {

/// Shader stage bit of the vertex stage.
pub const STAGE_VERTEX: u32 = 0x1;

/// Shader stage bit of the fragment stage.
pub const STAGE_FRAGMENT: u32 = 0x10;

/// What kind of resource a binding takes.
#[derive(Clone, Copy, Debug, PartialEq, Eq, Structural)]
pub enum DescriptorType {
    Sampler,
    CombinedImageSampler,
    SampledImage,
    StorageImage,
    UniformTexelBuffer,
    StorageTexelBuffer,
    UniformBuffer,
    StorageBuffer,
    UniformBufferDynamic,
    StorageBufferDynamic,
    InputAttachment,
}

/// One binding of a descriptor set layout.
#[derive(Clone, Copy, Debug, PartialEq, Eq, Structural)]
pub struct DescriptorSetLayoutBinding {
    pub binding: u32,
    pub ty: DescriptorType,
    /// Number of array elements of the binding.
    pub count: usize,
    /// The shader stages that see the binding.
    pub stage_flags: u32,
    pub immutable_samplers: bool,
}

/// The bindings that every set of the layout has.
pub struct DescriptorSetLayout {
    pub(crate) layout: Handle,
    pub(crate) bindings: Vec<DescriptorSetLayoutBinding>,
}

/// One set of a layout.
pub struct DescriptorSet {
    pub(crate) layout: DescriptorSetLayout,
    pub(crate) set: Handle,
}

/// One write into a set: the resource that goes into an array element of a
/// binding.
#[derive(Clone, Copy, Debug, PartialEq, Eq, Structural)]
pub struct DescriptorSetWrite {
    pub binding: u32,
    pub array_offset: usize,
    pub descriptor: Descriptor,
}

/// A binding of type `ty` takes a descriptor of this shape.
pub open spec fn descriptor_fits(ty: DescriptorType, descriptor: Descriptor) -> bool {
    match descriptor {
        Descriptor::Image(_, _) => ty == DescriptorType::SampledImage || ty
            == DescriptorType::StorageImage || ty == DescriptorType::InputAttachment,
        Descriptor::Sampler(_) => ty == DescriptorType::Sampler,
        Descriptor::Buffer(_) => ty == DescriptorType::UniformBuffer || ty
            == DescriptorType::StorageBuffer || ty == DescriptorType::UniformBufferDynamic || ty
            == DescriptorType::StorageBufferDynamic,
    }
}

/// The binding declares the slot that the write is aimed at.
pub open spec fn binding_takes(binding: DescriptorSetLayoutBinding, write: DescriptorSetWrite) -> bool {
    &&& binding.binding == write.binding
    &&& write.array_offset < binding.count
    &&& descriptor_fits(binding.ty, write.descriptor)
}

/// Some binding of the layout declares the slot that the write is aimed at.
pub open spec fn write_is_declared(
    bindings: Seq<DescriptorSetLayoutBinding>,
    write: DescriptorSetWrite,
) -> bool {
    exists|i: int| 0 <= i < bindings.len() && binding_takes(#[trigger] bindings[i], write)
}

/// The layout declares a binding with this index.
pub open spec fn declares_binding(bindings: Seq<DescriptorSetLayoutBinding>, binding: u32) -> bool {
    exists|i: int| 0 <= i < bindings.len() && (#[trigger] bindings[i]).binding == binding
}

/// The command that carries out one write into `set`.
pub open spec fn write_command(set: Handle, write: DescriptorSetWrite) -> Command {
    Command::WriteDescriptorSet {
        set,
        binding: write.binding,
        array_offset: write.array_offset,
        descriptor: write.descriptor,
    }
}

impl DescriptorSetLayout {
    pub open(crate) spec fn layout(&self) -> Handle {
        self.layout
    }

    pub open(crate) spec fn bindings(&self) -> Seq<DescriptorSetLayoutBinding> {
        self.bindings@
    }

    /// Names a layout with these bindings.
    pub fn new(device: &mut DeviceState, bindings: Vec<DescriptorSetLayoutBinding>) -> (r: (
        DescriptorSetLayout,
        Command,
    ))
        requires
            old(device).has_room(1),
        ensures
            r.0.layout() == Handle(old(device).next_handle()),
            r.0.bindings() == bindings@,
            r.1 == (Command::CreateDescriptorSetLayout { layout: r.0.layout() }),
            final(device).next_handle() == old(device).next_handle() + 1,
            final(device).queue_family() == old(device).queue_family(),
    {
        let layout = device.allocate(1);
        (DescriptorSetLayout { layout, bindings }, Command::CreateDescriptorSetLayout { layout })
    }

    /// Names a set of this layout, to be allocated from `pool`.
    pub fn create_set(self, device: &mut DeviceState, pool: Handle) -> (r: (DescriptorSet, Command))
        requires
            old(device).has_room(1),
        ensures
            r.0.layout() == self,
            r.0.set() == Handle(old(device).next_handle()),
            r.1 == (Command::AllocateDescriptorSet {
                set: r.0.set(),
                pool,
                layout: self.layout(),
            }),
            final(device).next_handle() == old(device).next_handle() + 1,
            final(device).queue_family() == old(device).queue_family(),
    {
        let set = device.allocate(1);
        let layout = self.layout;
        (DescriptorSet { layout: self, set }, Command::AllocateDescriptorSet { set, pool, layout })
    }

    pub fn get_layout(&self) -> (r: Handle)
        ensures
            r == self.layout(),
    {
        self.layout
    }

    pub fn get_bindings(&self) -> (r: &Vec<DescriptorSetLayoutBinding>)
        ensures
            r@ == self.bindings(),
    {
        &self.bindings
    }

    /// Whether a binding of the layout declares the slot that `write` is
    /// aimed at.
    pub fn declares(&self, write: &DescriptorSetWrite) -> (r: bool)
        ensures
            r == write_is_declared(self.bindings(), *write),
    {
        let mut i: usize = 0;
        while i < self.bindings.len()
            invariant
                i <= self.bindings@.len(),
                forall|j: int| 0 <= j < i ==> !binding_takes(#[trigger] self.bindings@[j], *write),
            decreases self.bindings@.len() - i,
        {
            let binding = &self.bindings[i];
            let fits = match write.descriptor {
                Descriptor::Image(_, _) => match binding.ty {
                    DescriptorType::SampledImage => true,
                    DescriptorType::StorageImage => true,
                    DescriptorType::InputAttachment => true,
                    _ => false,
                },
                Descriptor::Sampler(_) => match binding.ty {
                    DescriptorType::Sampler => true,
                    _ => false,
                },
                Descriptor::Buffer(_) => match binding.ty {
                    DescriptorType::UniformBuffer => true,
                    DescriptorType::StorageBuffer => true,
                    DescriptorType::UniformBufferDynamic => true,
                    DescriptorType::StorageBufferDynamic => true,
                    _ => false,
                },
            };
            if binding.binding == write.binding && write.array_offset < binding.count && fits {
                return true;
            }
            i += 1;
        }
        false
    }

    /// Destroys the layout.
    pub fn destroy(self) -> (r: Command)
        ensures
            r == (Command::Destroy {
                kind: ResourceKind::DescriptorSetLayout,
                handle: self.layout(),
            }),
    {
        Command::Destroy { kind: ResourceKind::DescriptorSetLayout, handle: self.layout }
    }
}

impl DescriptorSet {
    pub open(crate) spec fn set(&self) -> Handle {
        self.set
    }

    pub open(crate) spec fn layout(&self) -> DescriptorSetLayout {
        self.layout
    }

    /// Turns the writes into commands on this set. A write to a slot that no
    /// binding of the layout declares refuses the whole list.
    pub fn write_to_state(&self, write_sets: Vec<DescriptorSetWrite>) -> (r: Result<
        Vec<Command>,
        GpuError,
    >)
        ensures
            match r {
                Ok(commands) => {
                    &&& forall|i: int|
                        0 <= i < write_sets@.len() ==> write_is_declared(
                            self.layout().bindings(),
                            #[trigger] write_sets@[i],
                        )
                    &&& commands@ == write_sets@.map_values(
                        |write: DescriptorSetWrite| write_command(self.set(), write),
                    )
                },
                Err(e) => {
                    &&& e == GpuError::Configuration
                    &&& exists|i: int|
                        0 <= i < write_sets@.len() && !write_is_declared(
                            self.layout().bindings(),
                            #[trigger] write_sets@[i],
                        )
                },
            },
    {
        let mut commands: Vec<Command> = Vec::new();
        let mut i: usize = 0;
        while i < write_sets.len()
            invariant
                i <= write_sets@.len(),
                forall|j: int|
                    0 <= j < i ==> write_is_declared(
                        self.layout().bindings(),
                        #[trigger] write_sets@[j],
                    ),
                commands@ == write_sets@.take(i as int).map_values(
                    |write: DescriptorSetWrite| write_command(self.set(), write),
                ),
            decreases write_sets@.len() - i,
        {
            let write = write_sets[i];
            if !self.layout.declares(&write) {
                return Err(GpuError::Configuration);
            }
            commands.push(
                Command::WriteDescriptorSet {
                    set: self.set,
                    binding: write.binding,
                    array_offset: write.array_offset,
                    descriptor: write.descriptor,
                },
            );
            i += 1;
        }
        assert(write_sets@.take(write_sets@.len() as int) == write_sets@);
        Ok(commands)
    }

    /// The layout that the set was allocated for.
    pub fn get_layout(&self) -> (r: &Handle)
        ensures
            *r == self.layout().layout(),
    {
        &self.layout.layout
    }

    pub fn get_set(&self) -> (r: Handle)
        ensures
            r == self.set(),
    {
        self.set
    }

    /// The layout of the set, with its bindings.
    pub fn get_layout_state(&self) -> (r: &DescriptorSetLayout)
        ensures
            *r == self.layout(),
    {
        &self.layout
    }
}

/// A write to a binding index that the layout does not declare is aimed at
/// a slot that no binding declares, and so `write_to_state` refuses it.
pub proof fn lemma_undeclared_binding_is_refused(
    bindings: Seq<DescriptorSetLayoutBinding>,
    write: DescriptorSetWrite,
)
    requires
        !declares_binding(bindings, write.binding),
    ensures
        !write_is_declared(bindings, write),
{
    if write_is_declared(bindings, write) {
        let i = choose|i: int| 0 <= i < bindings.len() && binding_takes(#[trigger] bindings[i], write);
        assert(bindings[i].binding == write.binding);
    }
}

} // verus!
