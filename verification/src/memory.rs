use vstd::prelude::*;

verus! {

/// Bit of [`Properties`]: memory that lives on the GPU.
pub const DEVICE_LOCAL: u16 = 0x1;

/// Bit of [`Properties`]: memory that the host can map.
pub const CPU_VISIBLE: u16 = 0x2;

/// Bit of [`Properties`]: host writes are visible without a flush.
pub const COHERENT: u16 = 0x4;

/// Bit of [`Properties`]: memory that the host caches.
pub const CPU_CACHED: u16 = 0x8;

/// Bit of [`Properties`]: memory that the GPU may allocate lazily.
pub const LAZILY_ALLOCATED: u16 = 0x10;

/// A set of memory property flags, one bit per flag.
#[derive(Clone, Copy, Debug, PartialEq, Eq, Structural)]
pub struct Properties {
    pub bits: u16,
}

impl Properties {
    /// `self` has every flag of `other`.
    pub open spec fn contains_spec(self, other: Properties) -> bool {
        self.bits & other.bits == other.bits
    }

    pub fn from_bits(bits: u16) -> (r: Properties)
        ensures
            r.bits == bits,
    {
        Properties { bits }
    }

    /// The set without any flag.
    pub fn empty() -> (r: Properties)
        ensures
            r.bits == 0,
    {
        Properties { bits: 0 }
    }

    #[verifier::when_used_as_spec(contains_spec)]
    pub fn contains(self, other: Properties) -> (r: bool)
        ensures
            r == self.contains_spec(other),
    {
        self.bits & other.bits == other.bits
    }

    /// The flags of `self` together with those of `other`.
    pub fn union(self, other: Properties) -> (r: Properties)
        ensures
            r.bits == self.bits | other.bits,
    {
        Properties { bits: self.bits | other.bits }
    }
}

/// One entry of the adapter's memory-type table.
#[derive(Clone, Copy, Debug, PartialEq, Eq, Structural)]
pub struct MemoryType {
    pub properties: Properties,
    /// Index of the heap that this type allocates from.
    pub heap_index: usize,
}

/// Index of an entry of the memory-type table.
#[derive(Clone, Copy, Debug, PartialEq, Eq, Structural)]
pub struct MemoryTypeId(pub usize);

/// What the device asks of the memory behind a buffer or an image.
#[derive(Clone, Copy, Debug, PartialEq, Eq, Structural)]
pub struct Requirements {
    pub size: u64,
    pub alignment: u64,
    /// Bit `i` is set where the memory type of index `i` may be used.
    pub type_mask: u64,
}

/// The mask of `requirements` allows the memory type of index `id`.
pub open spec fn mask_allows(type_mask: u64, id: int) -> bool {
    0 <= id < 64 && type_mask & (1u64 << (id as u64)) != 0
}

/// The memory type of index `id` may back a resource with this mask and
/// has all of the wanted properties.
pub open spec fn memory_type_fits(
    memory_types: Seq<MemoryType>,
    type_mask: u64,
    property: Properties,
    id: int,
) -> bool {
    &&& 0 <= id < memory_types.len()
    &&& mask_allows(type_mask, id)
    &&& memory_types[id].properties.contains_spec(property)
}

/// `id` is the lowest index of a memory type that fits.
pub open spec fn is_first_fit(
    memory_types: Seq<MemoryType>,
    type_mask: u64,
    property: Properties,
    id: int,
) -> bool {
    &&& memory_type_fits(memory_types, type_mask, property, id)
    &&& forall|j: int| 0 <= j < id ==> !memory_type_fits(memory_types, type_mask, property, j)
}

/// The lowest index of a memory type that fits, if any does.
pub open spec fn first_fit(memory_types: Seq<MemoryType>, type_mask: u64, property: Properties) -> Option<int> {
    if exists|id: int| is_first_fit(memory_types, type_mask, property, id) {
        Some(choose|id: int| is_first_fit(memory_types, type_mask, property, id))
    } else {
        None
    }
}

/// The lowest index that fits is the only one that `first_fit` can return.
pub proof fn lemma_first_fit_unique(
    memory_types: Seq<MemoryType>,
    type_mask: u64,
    property: Properties,
    id: int,
)
    requires
        is_first_fit(memory_types, type_mask, property, id),
    ensures
        first_fit(memory_types, type_mask, property) == Some(id),
{
    let chosen = choose|c: int| is_first_fit(memory_types, type_mask, property, c);
    assert(is_first_fit(memory_types, type_mask, property, chosen));
    if chosen < id {
        assert(!memory_type_fits(memory_types, type_mask, property, chosen));
    }
    if id < chosen {
        assert(!memory_type_fits(memory_types, type_mask, property, id));
    }
}

} // verus!
