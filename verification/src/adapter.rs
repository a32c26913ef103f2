use crate::error::GpuError;
use crate::memory::MemoryType;
use vstd::prelude::*;

verus! {

/// What the queues of a family can do.
#[derive(Clone, Copy, Debug, PartialEq, Eq, Structural)]
pub enum QueueType {
    General,
    Graphics,
    Compute,
    Transfer,
}

/// One queue family of an adapter.
#[derive(Clone, Copy, Debug, PartialEq, Eq, Structural)]
pub struct QueueFamily {
    pub id: usize,
    pub queue_type: QueueType,
    pub max_queues: usize,
    /// The family can present to the surface that the renderer draws on.
    pub supports_present: bool,
}

/// The device limits that the renderer reads.
#[derive(Clone, Copy, Debug, PartialEq, Eq, Structural)]
pub struct Limits {
    /// Alignment in bytes of the row pitch of texture data in a buffer that
    /// a copy reads from.
    pub min_buffer_copy_pitch_alignment: u64,
}

/// A physical GPU as the backend reported it.
#[derive(Clone, Debug, PartialEq, Eq)]
pub struct Adapter {
    pub name: String,
    pub vendor: usize,
    pub device: usize,
    pub queue_families: Vec<QueueFamily>,
    pub memory_types: Vec<MemoryType>,
    pub limits: Limits,
}

/// The adapter that was chosen, with its memory-type table and limits.
pub struct AdapterState {
    pub adapter: Option<Adapter>,
    pub mem_types: Vec<MemoryType>,
    pub limits: Limits,
}

impl Limits {
    /// The alignment is a power of two that a 32-bit row pitch can meet.
    pub open spec fn has_row_alignment(&self) -> bool {
        &&& 0 < self.min_buffer_copy_pitch_alignment <= 0x8000_0000
        &&& self.min_buffer_copy_pitch_alignment & ((self.min_buffer_copy_pitch_alignment
            - 1) as u64) == 0
    }

    /// The mask that rounds a row pitch up to the copy alignment.
    pub fn row_alignment_mask(&self) -> (r: Result<u32, GpuError>)
        ensures
            match r {
                Ok(mask) => self.has_row_alignment() && mask
                    == self.min_buffer_copy_pitch_alignment - 1,
                Err(e) => e == GpuError::Configuration && !self.has_row_alignment(),
            },
    {
        let alignment = self.min_buffer_copy_pitch_alignment;
        if 0 < alignment && alignment <= 0x8000_0000 && alignment & (alignment - 1) == 0 {
            Ok((alignment - 1) as u32)
        } else {
            Err(GpuError::Configuration)
        }
    }
}

impl AdapterState {
    /// Takes the first adapter out of the list.
    pub fn new(adapters: &mut Vec<Adapter>) -> (r: Result<AdapterState, GpuError>)
        ensures
            match r {
                Ok(state) => {
                    &&& old(adapters)@.len() > 0
                    &&& state.adapter == Some(old(adapters)@[0])
                    &&& state.mem_types@ == old(adapters)@[0].memory_types@
                    &&& state.limits == old(adapters)@[0].limits
                    &&& final(adapters)@ == old(adapters)@.remove(0)
                },
                Err(e) => {
                    &&& e == GpuError::NoAdapter
                    &&& old(adapters)@.len() == 0
                    &&& final(adapters)@ == old(adapters)@
                },
            },
    {
        if adapters.len() == 0 {
            return Err(GpuError::NoAdapter);
        }
        let adapter = adapters.remove(0);
        let mut mem_types: Vec<MemoryType> = Vec::new();
        let mut i: usize = 0;
        while i < adapter.memory_types.len()
            invariant
                i <= adapter.memory_types@.len(),
                mem_types@ == adapter.memory_types@.take(i as int),
            decreases adapter.memory_types@.len() - i,
        {
            mem_types.push(adapter.memory_types[i]);
            i += 1;
        }
        let limits = adapter.limits;
        Ok(AdapterState { adapter: Some(adapter), mem_types, limits })
    }
}

} // verus!
