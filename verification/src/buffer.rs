use crate::adapter::{AdapterState, Limits};
use crate::device::{Command, DeviceState, Handle, ResourceKind};
use crate::error::GpuError;
use crate::image::{masked_row_pitch, tight_row_size, upload_size_spec, Image};
use crate::memory::{first_fit, is_first_fit, lemma_first_fit_unique, memory_type_fits, MemoryType, MemoryTypeId, Properties, Requirements, CPU_VISIBLE};
use vstd::arithmetic::div_mod::lemma_fundamental_div_mod_converse;
use vstd::prelude::*;

verus! {

/// Usage bit of a buffer that a transfer reads from.
pub const USAGE_TRANSFER_SRC: u32 = 0x1;

/// Usage bit of a buffer that a transfer writes to.
pub const USAGE_TRANSFER_DST: u32 = 0x2;

/// Usage bit of a buffer that shaders read uniforms from.
pub const USAGE_UNIFORM: u32 = 0x10;

/// Usage bit of a buffer that holds indices.
pub const USAGE_INDEX: u32 = 0x40;

/// Usage bit of a buffer that holds vertices.
pub const USAGE_VERTEX: u32 = 0x80;

/// Width of the indices in an index buffer.
#[derive(Clone, Copy, Debug, PartialEq, Eq, Structural)]
pub enum IndexType {
    U16,
    U32,
}

/// Where the indices of a draw are read from.
#[derive(Clone, Copy, Debug, PartialEq, Eq, Structural)]
pub struct IndexBufferView {
    pub buffer: Handle,
    pub offset: u64,
    pub index_type: IndexType,
}

/// A buffer that has a name and a size but no memory yet: the device has to
/// say what memory it asks for.
#[derive(Clone, Copy, Debug, PartialEq, Eq, Structural)]
pub struct PendingBuffer {
    pub buffer: Handle,
    pub size: u64,
    pub usage: u32,
}

/// A buffer with the memory bound to it.
#[derive(Clone, Copy, Debug, PartialEq, Eq, Structural)]
pub struct BufferState {
    pub(crate) memory: Handle,
    pub(crate) buffer: Handle,
    pub(crate) size: u64,
}

/// The byte at offset `i` of a staging buffer that holds the rows of an image
/// at a pitch of `pitch` bytes, padded with zeros.
pub open spec fn staged_byte(pixels: Seq<u8>, width: u32, pitch: int, i: int) -> u8 {
    if pitch > 0 && i % pitch < tight_row_size(width) {
        pixels[(i / pitch) * tight_row_size(width) + i % pitch]
    } else {
        0
    }
}

/// The content of the staging buffer of an image.
pub open spec fn staged_rows(pixels: Seq<u8>, width: u32, height: u32, pitch: int) -> Seq<u8> {
    Seq::new((height * pitch) as nat, |i: int| staged_byte(pixels, width, pitch, i))
}

/// The mask that rounds a row pitch up to the copy alignment of `limits`.
pub open spec fn row_mask(limits: Limits) -> u32 {
    (limits.min_buffer_copy_pitch_alignment - 1) as u32
}

/// The rows of an image of this width can be aligned as `limits` asks
/// without leaving 32 bits.
pub open spec fn rows_fit(limits: Limits, width: u32) -> bool {
    &&& limits.has_row_alignment()
    &&& tight_row_size(width) + row_mask(limits) <= u32::MAX
}

/// Why a buffer cannot be given memory and filled with `source`, if it
/// cannot: the source is not as long as the buffer, or no host-visible
/// memory type is allowed for it.
pub open spec fn plain_buffer_error(
    source: Seq<u8>,
    pending: PendingBuffer,
    requirements: Requirements,
    memory_types: Seq<MemoryType>,
) -> Option<GpuError> {
    if source.len() != pending.size {
        Some(GpuError::Configuration)
    } else if first_fit(memory_types, requirements.type_mask, Properties { bits: CPU_VISIBLE })
        is None {
        Some(GpuError::NoCompatibleMemoryType)
    } else {
        None
    }
}

/// What the device is told once the memory type of a new buffer is known.
pub open spec fn bind_commands(
    pending: PendingBuffer,
    memory: Handle,
    memory_type: MemoryTypeId,
    requirements: Requirements,
) -> Seq<Command> {
    seq![
        Command::AllocateMemory { memory, memory_type, size: requirements.size },
        Command::BindBufferMemory { memory, buffer: pending.buffer },
        Command::WriteMemory { memory, offset: 0, size: pending.size },
    ]
}

/// Lays the rows of `image` out at the pitch that `row_alignment_mask` asks
/// for, with zeros between the end of a row and the start of the next.
pub fn stage_image_rows(image: &Image, row_alignment_mask: u32) -> (r: Result<Vec<u8>, GpuError>)
    requires
        tight_row_size(image.width()) + row_alignment_mask <= u32::MAX,
    ensures
        match r {
            Ok(bytes) => {
                &&& upload_size_spec(image.width(), image.height(), row_alignment_mask)
                    <= usize::MAX
                &&& bytes@ == staged_rows(
                    image.pixels(),
                    image.width(),
                    image.height(),
                    masked_row_pitch(image.width(), row_alignment_mask) as int,
                )
            },
            Err(e) => {
                &&& e == GpuError::SizeOverflow
                &&& upload_size_spec(image.width(), image.height(), row_alignment_mask)
                    > usize::MAX
            },
        },
{
    let (width, height) = image.get_dimensions();
    let total: u64 = image.get_upload_size(row_alignment_mask);
    if total > usize::MAX as u64 {
        return Err(GpuError::SizeOverflow);
    }
    let pitch: usize = image.row_pitch(row_alignment_mask) as usize;
    let tight: usize = (width as usize) * 4;
    let rows: usize = height as usize;
    let pixels = image.get_image();
    let length: usize = pixels.len();
    assert(length == rows * tight) by (nonlinear_arith)
        requires
            length == width as int * height as int * 4,
            rows == height,
            tight == width * 4,
    ;
    let mut bytes: Vec<u8> = Vec::new();
    let mut y: usize = 0;
    while y < rows
        invariant
            y <= rows,
            rows == image.height(),
            tight == tight_row_size(width),
            width == image.width(),
            pixels@ == image.pixels(),
            pixels@.len() == rows * tight,
            rows * tight <= usize::MAX,
            rows * pitch <= usize::MAX,
            bytes@.len() == y * pitch,
            forall|i: int|
                0 <= i < bytes@.len() ==> bytes@[i] == staged_byte(pixels@, width, pitch as int, i),
        decreases rows - y,
    {
        let mut x: usize = 0;
        while x < pitch
            invariant
                y < rows,
                x <= pitch,
                tight == tight_row_size(width),
                pixels@.len() == rows * tight,
                rows * tight <= usize::MAX,
                rows * pitch <= usize::MAX,
                bytes@.len() == y * pitch + x,
                forall|i: int|
                    0 <= i < bytes@.len() ==> bytes@[i] == staged_byte(
                        pixels@,
                        width,
                        pitch as int,
                        i,
                    ),
            decreases pitch - x,
        {
            proof {
                lemma_fundamental_div_mod_converse(
                    y * pitch + x,
                    pitch as int,
                    y as int,
                    x as int,
                );
                assert(y * pitch + x < rows * pitch && (y + 1) * pitch == y * pitch + pitch)
                    by (nonlinear_arith)
                    requires
                        0 <= y < rows,
                        0 <= x < pitch,
                ;
                if x < tight {
                    assert(0 <= y * tight <= y * tight + x < rows * tight) by (nonlinear_arith)
                        requires
                            0 <= y < rows,
                            0 <= x < tight,
                    ;
                }
            }
            let byte: u8 = if x < tight {
                pixels[y * tight + x]
            } else {
                0
            };
            bytes.push(byte);
            x += 1;
        }
        proof {
            assert((y + 1) * pitch == y * pitch + pitch) by (nonlinear_arith);
        }
        y += 1;
    }
    Ok(bytes)
}

impl BufferState {
    pub open(crate) spec fn memory(&self) -> Handle {
        self.memory
    }

    pub open(crate) spec fn buffer(&self) -> Handle {
        self.buffer
    }

    pub open(crate) spec fn size(&self) -> u64 {
        self.size
    }

    /// Finds the memory type of lowest index that the requirements allow and
    /// that has every flag of `property`.
    pub fn find_buffer_memory(
        memory_types: &[MemoryType],
        requirements: &Requirements,
        property: Properties,
    ) -> (r: Result<MemoryTypeId, GpuError>)
        ensures
            match r {
                Ok(id) => {
                    &&& is_first_fit(memory_types@, requirements.type_mask, property, id.0 as int)
                    &&& first_fit(memory_types@, requirements.type_mask, property) == Some(
                        id.0 as int,
                    )
                },
                Err(e) => {
                    &&& e == GpuError::NoCompatibleMemoryType
                    &&& forall|j: int|
                        !memory_type_fits(memory_types@, requirements.type_mask, property, j)
                    &&& first_fit(memory_types@, requirements.type_mask, property) is None
                },
            },
    {
        let mut id: usize = 0;
        while id < memory_types.len()
            invariant
                id <= memory_types.len(),
                forall|j: int|
                    0 <= j < id ==> !memory_type_fits(
                        memory_types@,
                        requirements.type_mask,
                        property,
                        j,
                    ),
            decreases memory_types.len() - id,
        {
            if id < 64 {
                let bit: u64 = 1u64 << (id as u64);
                if requirements.type_mask & bit != 0 && memory_types[id].properties.contains(
                    property,
                ) {
                    proof {
                        lemma_first_fit_unique(
                            memory_types@,
                            requirements.type_mask,
                            property,
                            id as int,
                        );
                    }
                    return Ok(MemoryTypeId(id));
                }
            }
            id += 1;
        }
        Err(GpuError::NoCompatibleMemoryType)
    }

    /// Names a buffer for `element_count` elements of `stride` bytes each.
    pub fn create(device: &mut DeviceState, element_count: usize, stride: usize, usage: u32) -> (r:
        Result<(PendingBuffer, Command), GpuError>)
        requires
            old(device).has_room(1),
        ensures
            final(device).queue_family() == old(device).queue_family(),
            match r {
                Ok((pending, command)) => {
                    &&& element_count * stride <= u64::MAX
                    &&& pending == (PendingBuffer {
                        buffer: Handle(old(device).next_handle()),
                        size: (element_count * stride) as u64,
                        usage,
                    })
                    &&& command == (Command::CreateBuffer {
                        buffer: pending.buffer,
                        size: pending.size,
                        usage,
                    })
                    &&& final(device).next_handle() == old(device).next_handle() + 1
                },
                Err(e) => {
                    &&& e == GpuError::SizeOverflow
                    &&& element_count * stride > u64::MAX
                    &&& final(device).next_handle() == old(device).next_handle()
                },
            },
    {
        let size = match (element_count as u64).checked_mul(stride as u64) {
            Some(size) => size,
            None => {
                return Err(GpuError::SizeOverflow);
            },
        };
        let buffer = device.allocate(1);
        Ok((PendingBuffer { buffer, size, usage }, Command::CreateBuffer { buffer, size, usage }))
    }

    /// Gives the pending buffer host-visible memory of the first type that
    /// the device allows for it, and fills it with `source`, which has to
    /// be as long as the buffer. The bytes returned are those that the write
    /// among the commands copies into the memory: `source`, as it came.
    pub fn new(
        device: &mut DeviceState,
        pending: PendingBuffer,
        source: Vec<u8>,
        requirements: &Requirements,
        memory_types: &[MemoryType],
    ) -> (r: Result<(BufferState, Vec<u8>, Vec<Command>), GpuError>)
        requires
            old(device).has_room(1),
        ensures
            final(device).queue_family() == old(device).queue_family(),
            match r {
                Ok((state, bytes, commands)) => {
                    &&& source@.len() == pending.size
                    &&& bytes@ == source@
                    &&& state.buffer() == pending.buffer
                    &&& state.memory() == Handle(old(device).next_handle())
                    &&& state.size() == requirements.size
                    &&& first_fit(
                        memory_types@,
                        requirements.type_mask,
                        Properties { bits: CPU_VISIBLE },
                    ) is Some
                    &&& commands@ == bind_commands(
                        pending,
                        state.memory(),
                        MemoryTypeId(
                            first_fit(
                                memory_types@,
                                requirements.type_mask,
                                Properties { bits: CPU_VISIBLE },
                            )->0 as usize,
                        ),
                        *requirements,
                    )
                    &&& final(device).next_handle() == old(device).next_handle() + 1
                },
                Err(e) => {
                    &&& final(device).next_handle() == old(device).next_handle()
                    &&& e == plain_buffer_error(source@, pending, *requirements, memory_types@)->0
                    &&& plain_buffer_error(source@, pending, *requirements, memory_types@) is Some
                },
            },
    {
        if source.len() as u64 != pending.size {
            return Err(GpuError::Configuration);
        }
        let property = Properties::from_bits(CPU_VISIBLE);
        let memory_type = match Self::find_buffer_memory(memory_types, requirements, property) {
            Ok(id) => id,
            Err(e) => {
                return Err(e);
            },
        };
        let memory = device.allocate(1);
        let mut commands: Vec<Command> = Vec::new();
        commands.push(Command::AllocateMemory { memory, memory_type, size: requirements.size });
        commands.push(Command::BindBufferMemory { memory, buffer: pending.buffer });
        commands.push(Command::WriteMemory { memory, offset: 0, size: pending.size });
        Ok((BufferState { memory, buffer: pending.buffer, size: requirements.size }, source, commands))
    }

    /// Names the staging buffer for `image`: every row of the image at the
    /// row pitch that the limits of the adapter ask for.
    pub fn create_texture(
        device: &mut DeviceState,
        adapter_state: &AdapterState,
        image: &Image,
        usage: u32,
    ) -> (r: Result<(PendingBuffer, Command), GpuError>)
        requires
            old(device).has_room(1),
        ensures
            final(device).queue_family() == old(device).queue_family(),
            match r {
                Ok((pending, command)) => {
                    &&& rows_fit(adapter_state.limits, image.width())
                    &&& pending == (PendingBuffer {
                        buffer: Handle(old(device).next_handle()),
                        size: upload_size_spec(
                            image.width(),
                            image.height(),
                            row_mask(adapter_state.limits),
                        ) as u64,
                        usage,
                    })
                    &&& command == (Command::CreateBuffer {
                        buffer: pending.buffer,
                        size: pending.size,
                        usage,
                    })
                    &&& final(device).next_handle() == old(device).next_handle() + 1
                },
                Err(e) => {
                    &&& final(device).next_handle() == old(device).next_handle()
                    &&& !rows_fit(adapter_state.limits, image.width())
                    &&& e == if adapter_state.limits.has_row_alignment() {
                        GpuError::SizeOverflow
                    } else {
                        GpuError::Configuration
                    }
                },
            },
    {
        let row_alignment_mask = match adapter_state.limits.row_alignment_mask() {
            Ok(mask) => mask,
            Err(e) => {
                return Err(e);
            },
        };
        let size = match image.checked_upload_size(row_alignment_mask) {
            Some(size) => size,
            None => {
                return Err(GpuError::SizeOverflow);
            },
        };
        let buffer = device.allocate(1);
        Ok((PendingBuffer { buffer, size, usage }, Command::CreateBuffer { buffer, size, usage }))
    }

    /// Gives the pending staging buffer host-visible memory and lays out
    /// the rows of `image` for it, one pitch apart.
    pub fn new_texture(
        device: &mut DeviceState,
        pending: PendingBuffer,
        adapter_state: &AdapterState,
        image: &Image,
        requirements: &Requirements,
    ) -> (r: Result<(BufferState, Vec<u8>, Vec<Command>), GpuError>)
        requires
            old(device).has_room(1),
        ensures
            final(device).queue_family() == old(device).queue_family(),
            match r {
                Ok((state, bytes, commands)) => {
                    &&& rows_fit(adapter_state.limits, image.width())
                    &&& upload_size_spec(
                        image.width(),
                        image.height(),
                        row_mask(adapter_state.limits),
                    ) <= usize::MAX
                    &&& state.buffer() == pending.buffer
                    &&& state.memory() == Handle(old(device).next_handle())
                    &&& state.size() == pending.size
                    &&& bytes@ == staged_rows(
                        image.pixels(),
                        image.width(),
                        image.height(),
                        masked_row_pitch(image.width(), row_mask(adapter_state.limits)) as int,
                    )
                    &&& first_fit(
                        adapter_state.mem_types@,
                        requirements.type_mask,
                        Properties { bits: CPU_VISIBLE },
                    ) is Some
                    &&& commands@ == bind_commands(
                        PendingBuffer { size: bytes@.len() as u64, ..pending },
                        state.memory(),
                        MemoryTypeId(
                            first_fit(
                                adapter_state.mem_types@,
                                requirements.type_mask,
                                Properties { bits: CPU_VISIBLE },
                            )->0 as usize,
                        ),
                        *requirements,
                    )
                    &&& final(device).next_handle() == old(device).next_handle() + 1
                },
                Err(e) => {
                    &&& final(device).next_handle() == old(device).next_handle()
                    &&& e == if !adapter_state.limits.has_row_alignment() {
                        GpuError::Configuration
                    } else if !rows_fit(adapter_state.limits, image.width()) || upload_size_spec(
                        image.width(),
                        image.height(),
                        row_mask(adapter_state.limits),
                    ) > usize::MAX {
                        GpuError::SizeOverflow
                    } else {
                        GpuError::NoCompatibleMemoryType
                    }
                    &&& e == GpuError::NoCompatibleMemoryType ==> first_fit(
                        adapter_state.mem_types@,
                        requirements.type_mask,
                        Properties { bits: CPU_VISIBLE },
                    ) is None
                },
            },
    {
        let row_alignment_mask = match adapter_state.limits.row_alignment_mask() {
            Ok(mask) => mask,
            Err(e) => {
                return Err(e);
            },
        };
        let (width, _) = image.get_dimensions();
        if (width as u64) * 4 + (row_alignment_mask as u64) > u32::MAX as u64 {
            return Err(GpuError::SizeOverflow);
        }
        let bytes = match stage_image_rows(image, row_alignment_mask) {
            Ok(bytes) => bytes,
            Err(e) => {
                return Err(e);
            },
        };
        let property = Properties::from_bits(CPU_VISIBLE);
        let memory_type = match Self::find_buffer_memory(
            adapter_state.mem_types.as_slice(),
            requirements,
            property,
        ) {
            Ok(id) => id,
            Err(e) => {
                return Err(e);
            },
        };
        let memory = device.allocate(1);
        let mut commands: Vec<Command> = Vec::new();
        commands.push(Command::AllocateMemory { memory, memory_type, size: requirements.size });
        commands.push(Command::BindBufferMemory { memory, buffer: pending.buffer });
        commands.push(Command::WriteMemory { memory, offset: 0, size: bytes.len() as u64 });
        Ok((BufferState { memory, buffer: pending.buffer, size: pending.size }, bytes, commands))
    }

    /// Overwrites the bytes of the buffer from `offset` on with `source`, if
    /// they lie inside it. The bytes returned are those that the write
    /// copies into the memory: `source`, as it came.
    pub fn update_buffer(&self, offset: u64, source: Vec<u8>) -> (r: Result<
        (Command, Vec<u8>),
        GpuError,
    >)
        ensures
            match r {
                Ok((command, bytes)) => {
                    &&& offset + source@.len() <= self.size()
                    &&& bytes@ == source@
                    &&& command == (Command::WriteMemory {
                        memory: self.memory(),
                        offset,
                        size: source@.len() as u64,
                    })
                },
                Err(e) => e == GpuError::Configuration && offset + source@.len() > self.size(),
            },
    {
        let length: u64 = source.len() as u64;
        if offset <= self.size && length <= self.size - offset {
            Ok((Command::WriteMemory { memory: self.memory, offset, size: length }, source))
        } else {
            Err(GpuError::Configuration)
        }
    }

    /// Destroys the buffer, then frees its memory.
    pub fn destroy(self) -> (r: Vec<Command>)
        ensures
            r@ == seq![
                Command::Destroy { kind: ResourceKind::Buffer, handle: self.buffer() },
                Command::Destroy { kind: ResourceKind::Memory, handle: self.memory() },
            ],
    {
        let mut commands: Vec<Command> = Vec::new();
        commands.push(Command::Destroy { kind: ResourceKind::Buffer, handle: self.buffer });
        commands.push(Command::Destroy { kind: ResourceKind::Memory, handle: self.memory });
        commands
    }

    pub fn get_buffer(&self) -> (r: &Handle)
        ensures
            *r == self.buffer(),
    {
        &self.buffer
    }

    /// The buffer read as 16-bit indices from its start.
    pub fn get_buffer_view(&self) -> (r: IndexBufferView)
        ensures
            r == (IndexBufferView { buffer: self.buffer(), offset: 0, index_type: IndexType::U16 }),
    {
        IndexBufferView { buffer: self.buffer, offset: 0, index_type: IndexType::U16 }
    }
}

} // verus!
