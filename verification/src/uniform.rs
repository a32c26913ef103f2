use crate::buffer::{
    bind_commands, plain_buffer_error, BufferState, PendingBuffer, USAGE_UNIFORM,
};
use crate::descriptor::{
    write_command, write_is_declared, DescriptorSet, DescriptorSetLayoutBinding,
    DescriptorSetWrite,
};
use crate::device::{Command, Descriptor, DeviceState, Handle};
use crate::error::GpuError;
use crate::memory::{first_fit, MemoryType, MemoryTypeId, Properties, Requirements, CPU_VISIBLE};
use vstd::prelude::*;

verus! {

/// The data that a uniform starts with.
pub struct UniformInitializer<T: Copy> {
    pub data: Vec<T>,
}

/// A uniform: the buffer that holds it, and the set that the buffer is
/// written into.
pub struct Uniform {
    pub(crate) buffer_state: BufferState,
    pub(crate) descriptor_set: DescriptorSet,
}

/// The write that puts the buffer of a uniform into `binding`.
pub open spec fn buffer_write(binding: u32, buffer: Handle) -> DescriptorSetWrite {
    DescriptorSetWrite { binding, array_offset: 0, descriptor: Descriptor::Buffer(buffer) }
}

/// Why a uniform cannot be made, if it cannot: its buffer cannot be given
/// memory and filled, or the layout of the set does not declare the binding
/// as one for a buffer.
pub open spec fn new_uniform_error(
    source: Seq<u8>,
    pending: PendingBuffer,
    requirements: Requirements,
    memory_types: Seq<MemoryType>,
    bindings: Seq<DescriptorSetLayoutBinding>,
    binding: u32,
) -> Option<GpuError> {
    if plain_buffer_error(source, pending, requirements, memory_types) is Some {
        plain_buffer_error(source, pending, requirements, memory_types)
    } else if !write_is_declared(bindings, buffer_write(binding, pending.buffer)) {
        Some(GpuError::Configuration)
    } else {
        None
    }
}

impl Uniform {
    pub open(crate) spec fn buffer_state(&self) -> BufferState {
        self.buffer_state
    }

    pub open(crate) spec fn descriptor_set(&self) -> DescriptorSet {
        self.descriptor_set
    }

    /// Names the buffer of a uniform of `element_count` elements of `stride`
    /// bytes each.
    pub fn create(device: &mut DeviceState, element_count: usize, stride: usize) -> (r: Result<
        (PendingBuffer, Command),
        GpuError,
    >)
        requires
            old(device).has_room(1),
        ensures
            final(device).queue_family() == old(device).queue_family(),
            match r {
                Ok((pending, command)) => {
                    &&& element_count * stride <= u64::MAX
                    &&& pending == (PendingBuffer {
                        buffer: Handle(old(device).next_handle()),
                        size: (element_count * stride) as u64,
                        usage: USAGE_UNIFORM,
                    })
                    &&& command == (Command::CreateBuffer {
                        buffer: pending.buffer,
                        size: pending.size,
                        usage: USAGE_UNIFORM,
                    })
                    &&& final(device).next_handle() == old(device).next_handle() + 1
                },
                Err(e) => {
                    &&& e == GpuError::SizeOverflow
                    &&& element_count * stride > u64::MAX
                    &&& final(device).next_handle() == old(device).next_handle()
                },
            },
    {
        BufferState::create(device, element_count, stride, USAGE_UNIFORM)
    }

    /// Gives the pending buffer its memory, fills it with `source`, which
    /// has to be as long as the buffer, and writes the buffer into `binding`
    /// of the set. The bytes returned are those that the write into the
    /// memory copies: `source`, as it came.
    pub fn new(
        device: &mut DeviceState,
        memory_types: &[MemoryType],
        pending: PendingBuffer,
        source: Vec<u8>,
        requirements: &Requirements,
        descriptor_set: DescriptorSet,
        binding: u32,
    ) -> (r: Result<(Uniform, Vec<u8>, Vec<Command>), GpuError>)
        requires
            old(device).has_room(1),
        ensures
            final(device).queue_family() == old(device).queue_family(),
            match r {
                Ok((uniform, bytes, commands)) => {
                    &&& new_uniform_error(
                        source@,
                        pending,
                        *requirements,
                        memory_types@,
                        descriptor_set.layout().bindings(),
                        binding,
                    ) is None
                    &&& bytes@ == source@
                    &&& uniform.descriptor_set() == descriptor_set
                    &&& uniform.buffer_state().buffer() == pending.buffer
                    &&& uniform.buffer_state().memory() == Handle(old(device).next_handle())
                    &&& uniform.buffer_state().size() == requirements.size
                    &&& commands@ == bind_commands(
                        pending,
                        uniform.buffer_state().memory(),
                        MemoryTypeId(
                            first_fit(
                                memory_types@,
                                requirements.type_mask,
                                Properties { bits: CPU_VISIBLE },
                            )->0 as usize,
                        ),
                        *requirements,
                    ).push(write_command(descriptor_set.set(), buffer_write(binding, pending.buffer)))
                    &&& final(device).next_handle() == old(device).next_handle() + 1
                },
                Err(e) => {
                    &&& final(device).next_handle() == old(device).next_handle()
                    &&& new_uniform_error(
                        source@,
                        pending,
                        *requirements,
                        memory_types@,
                        descriptor_set.layout().bindings(),
                        binding,
                    ) == Some(e)
                },
            },
    {
        let mark = device.mark();
        let (buffer_state, bytes, mut commands) = match BufferState::new(
            device,
            pending,
            source,
            requirements,
            memory_types,
        ) {
            Ok(triple) => triple,
            Err(e) => {
                return Err(e);
            },
        };
        let mut writes: Vec<DescriptorSetWrite> = Vec::new();
        writes.push(
            DescriptorSetWrite {
                binding,
                array_offset: 0,
                descriptor: Descriptor::Buffer(*buffer_state.get_buffer()),
            },
        );
        let ghost writes_view = writes@;
        let mut write_commands = match descriptor_set.write_to_state(writes) {
            Ok(write_commands) => write_commands,
            Err(e) => {
                device.rewind(mark);
                return Err(e);
            },
        };
        assert(write_is_declared(descriptor_set.layout().bindings(), writes_view[0]));
        commands.append(&mut write_commands);
        Ok((Uniform { buffer_state, descriptor_set }, bytes, commands))
    }

    pub fn get_layout(&self) -> (r: &Handle)
        ensures
            *r == self.descriptor_set().layout().layout(),
    {
        self.descriptor_set.get_layout()
    }

    pub fn get_buffer_state(&self) -> (r: &BufferState)
        ensures
            *r == self.buffer_state(),
    {
        &self.buffer_state
    }

    pub fn get_descriptor_set(&self) -> (r: &DescriptorSet)
        ensures
            *r == self.descriptor_set(),
    {
        &self.descriptor_set
    }
}

} // verus!
