//! Choice of memory types and of the graphics queue family.
use vstd::prelude::*;

verus! {

/// `VK_MEMORY_PROPERTY_DEVICE_LOCAL_BIT`.
pub const MEMORY_DEVICE_LOCAL: u32 = 0x01;

/// `VK_MEMORY_PROPERTY_HOST_VISIBLE_BIT`.
pub const MEMORY_HOST_VISIBLE: u32 = 0x02;

/// `VK_MEMORY_PROPERTY_HOST_COHERENT_BIT`.
pub const MEMORY_HOST_COHERENT: u32 = 0x04;

/// `VK_MEMORY_PROPERTY_HOST_CACHED_BIT`.
pub const MEMORY_HOST_CACHED: u32 = 0x08;

/// `VK_QUEUE_GRAPHICS_BIT`.
pub const QUEUE_GRAPHICS: u32 = 0x01;

/// Whether the memory-type bitmask `bits` admits type index `i`.
pub open spec fn type_allowed(bits: u32, i: int) -> bool {
    0 <= i < 32 && bits & (1u32 << (i as u32)) != 0
}

/// Whether the property flags `flags` carry the property bit `property`.
pub open spec fn has_property(flags: u32, property: u32) -> bool {
    flags & property != 0
}

/// Whether index `i` of the memory-type table `types` (the property flags of
/// each type) is admitted by `allowed` and carries `property`.
pub open spec fn suits(types: Seq<u32>, allowed: u32, property: u32, i: int) -> bool {
    0 <= i < types.len() && type_allowed(allowed, i) && has_property(types[i], property)
}

/// The lowest memory-type index that `allowed` admits and whose flags carry
/// `property`; `None` when there is none.
pub fn find_memory_type(types: &Vec<u32>, allowed: u32, property: u32) -> (r: Option<usize>)
    ensures
        r matches Some(i) ==> suits(types@, allowed, property, i as int),
        r matches Some(i) ==> forall|j: int| 0 <= j < i ==> !suits(types@, allowed, property, j),
        r is None <==> forall|j: int| !suits(types@, allowed, property, j),
{
    let mut i: usize = 0;
    while i < types.len()
        invariant
            i <= types@.len(),
            forall|j: int| 0 <= j < i ==> !suits(types@, allowed, property, j),
        decreases types.len() - i,
    {
        if i < 32 && allowed & (1u32 << (i as u32)) != 0 && types[i] & property != 0 {
            assert(suits(types@, allowed, property, i as int));
            return Some(i);
        }
        i = i + 1;
    }
    None
}

/// Whether index `i` suits an image imported from a shared handle: admitted by
/// the handle's bitmask and by the image's requirement bitmask, and device-local.
pub open spec fn suits_shared_image(types: Seq<u32>, handle_bits: u32, image_bits: u32, i: int) -> bool {
    0 <= i < types.len() && type_allowed(handle_bits, i) && type_allowed(image_bits, i)
        && has_property(types[i], MEMORY_DEVICE_LOCAL)
}

/// The lowest memory-type index for an image imported from a shared handle.
pub fn shared_image_memory_type(types: &Vec<u32>, handle_bits: u32, image_bits: u32) -> (r: Option<
    usize,
>)
    ensures
        r matches Some(i) ==> suits_shared_image(types@, handle_bits, image_bits, i as int),
        r matches Some(i) ==> forall|j: int|
            0 <= j < i ==> !suits_shared_image(types@, handle_bits, image_bits, j),
        r is None <==> forall|j: int| !suits_shared_image(types@, handle_bits, image_bits, j),
{
    let both = handle_bits & image_bits;
    assert forall|j: int| 0 <= j < 32 implies type_allowed(both, j) == (type_allowed(handle_bits, j)
        && type_allowed(image_bits, j)) by {
        let s = j as u32;
        assert((handle_bits & image_bits) & (1u32 << s) != 0 <==> (handle_bits & (1u32 << s) != 0
            && image_bits & (1u32 << s) != 0)) by (bit_vector);
    }
    assert forall|j: int| suits(types@, both, MEMORY_DEVICE_LOCAL, j) == suits_shared_image(
        types@,
        handle_bits,
        image_bits,
        j,
    ) by {}
    find_memory_type(types, both, MEMORY_DEVICE_LOCAL)
}

/// The memory type chosen for the staging buffer.
#[derive(Debug, Clone, Copy, PartialEq, Eq, Structural)]
pub struct StagingMemory {
    /// Index into the memory-type table.
    pub index: usize,
    /// Whether host writes must be flushed explicitly: the type is host-cached
    /// but not host-coherent.
    pub needs_flush: bool,
}

/// Whether memory of the property flags `flags` needs explicit flushes after host writes.
pub open spec fn needs_flush_spec(flags: u32) -> bool {
    has_property(flags, MEMORY_HOST_CACHED) && !has_property(flags, MEMORY_HOST_COHERENT)
}

/// Whether memory of the property flags `flags` needs explicit flushes after host writes.
pub fn needs_flush(flags: u32) -> (r: bool)
    ensures
        r == needs_flush_spec(flags),
{
    flags & MEMORY_HOST_CACHED != 0 && flags & MEMORY_HOST_COHERENT == 0
}

/// The lowest host-visible memory-type index that the staging buffer's
/// requirement bitmask admits, with its flush flag.
pub fn staging_memory_type(types: &Vec<u32>, requirement_bits: u32) -> (r: Option<StagingMemory>)
    ensures
        r matches Some(m) ==> suits(types@, requirement_bits, MEMORY_HOST_VISIBLE, m.index as int),
        r matches Some(m) ==> forall|j: int|
            0 <= j < m.index ==> !suits(types@, requirement_bits, MEMORY_HOST_VISIBLE, j),
        r matches Some(m) ==> m.needs_flush == needs_flush_spec(types@[m.index as int]),
        r is None <==> forall|j: int| !suits(types@, requirement_bits, MEMORY_HOST_VISIBLE, j),
{
    match find_memory_type(types, requirement_bits, MEMORY_HOST_VISIBLE) {
        Some(index) => Some(StagingMemory { index, needs_flush: needs_flush(types[index]) }),
        None => None,
    }
}

/// What a queue family offers.
#[derive(Debug, Clone, Copy, PartialEq, Eq, Structural)]
pub struct QueueFamily {
    /// Number of queues in the family.
    pub queue_count: u32,
    /// The family's capability bits.
    pub queue_flags: u32,
}

/// Whether a family can serve as the graphics queue family.
pub open spec fn is_graphics_family(f: QueueFamily) -> bool {
    f.queue_count > 0 && f.queue_flags & QUEUE_GRAPHICS != 0
}

/// The lowest-index family with at least one queue and graphics capability.
pub fn graphics_queue_family(families: &Vec<QueueFamily>) -> (r: Option<usize>)
    ensures
        r matches Some(i) ==> i < families@.len() && is_graphics_family(families@[i as int]),
        r matches Some(i) ==> forall|j: int| 0 <= j < i ==> !is_graphics_family(families@[j]),
        r is None <==> forall|j: int| 0 <= j < families@.len() ==> !is_graphics_family(families@[j]),
{
    let mut i: usize = 0;
    while i < families.len()
        invariant
            i <= families@.len(),
            forall|j: int| 0 <= j < i ==> !is_graphics_family(families@[j]),
        decreases families.len() - i,
    {
        let f = families[i];
        if f.queue_count > 0 && f.queue_flags & QUEUE_GRAPHICS != 0 {
            return Some(i);
        }
        i = i + 1;
    }
    None
}

} // verus!
