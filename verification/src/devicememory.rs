use vstd::prelude::*;

verus! {

/// `VK_MEMORY_PROPERTY_DEVICE_LOCAL_BIT`: memory local to the device.
pub const MEMORY_PROPERTY_DEVICE_LOCAL: u32 = 0x1;

/// `VK_MEMORY_PROPERTY_HOST_VISIBLE_BIT`: memory the host can map.
pub const MEMORY_PROPERTY_HOST_VISIBLE: u32 = 0x2;

/// `VK_MEMORY_PROPERTY_HOST_COHERENT_BIT`: host writes need no flush.
pub const MEMORY_PROPERTY_HOST_COHERENT: u32 = 0x4;

/// `VK_MAX_MEMORY_TYPES`: length of the memory type table of a device.
pub const MAX_MEMORY_TYPES: usize = 32;

/// Bit `index` of a resource's `memory_type_bits` is set: the resource may be
/// bound to memory of type `index`.
pub open spec fn memory_type_allowed(memory_type_bits: u32, index: nat) -> bool {
    memory_type_bits & (1u32 << (index as u32)) != 0
}

/// Every property bit of `wanted` is set in `flags`.
pub open spec fn flags_contain(flags: u32, wanted: u32) -> bool {
    flags & wanted == wanted
}

/// The flags contain `wanted` exactly when no bit of `wanted` is missing from
/// them: every property asked for is present, others may be too.
pub proof fn lemma_flags_contain_every_wanted_bit(flags: u32, wanted: u32)
    ensures
        flags_contain(flags, wanted) <==> wanted & !flags == 0,
        flags_contain(flags, 0),
        flags_contain(flags, flags),
        flags_contain(flags | wanted, wanted),
{
    assert((flags & wanted == wanted) <==> (wanted & !flags == 0)) by (bit_vector);
    assert(flags & 0 == 0) by (bit_vector);
    assert(flags & flags == flags) by (bit_vector);
    assert((flags | wanted) & wanted == wanted) by (bit_vector);
}

/// Memory type `index` of the table `memory_type_flags` may hold the resource
/// and has every property of `type_to_find`.
pub open spec fn memory_type_suits(
    memory_type_bits: u32,
    memory_type_flags: Seq<u32>,
    type_to_find: u32,
    index: nat,
) -> bool {
    &&& memory_type_allowed(memory_type_bits, index)
    &&& flags_contain(memory_type_flags[index as int], type_to_find)
}

/// `ash::vk::MemoryPropertyFlags::contains`: the flags hold every bit of
/// `wanted` (ash computes `self & other == other`).
#[verifier::external_body]
fn memory_property_flags_contains(flags: u32, wanted: u32) -> (r: bool)
    ensures
        r == flags_contain(flags, wanted),
{
    ash::vk::MemoryPropertyFlags::from_raw(flags).contains(
        ash::vk::MemoryPropertyFlags::from_raw(wanted),
    )
}

/// The first memory type, in table order, that a resource with
/// `memory_type_bits` may use and that has all properties of `type_to_find`.
///
/// `memory_type_flags[i]` holds the property flags of the device's memory type
/// `i`, for the whole table of `VK_MAX_MEMORY_TYPES` entries.
pub fn search_physical_device_memory_type(
    memory_type_bits: u32,
    memory_type_flags: &[u32; 32],
    type_to_find: u32,
) -> (r: Result<usize, &'static str>)
    ensures
        r matches Ok(index) ==> {
            &&& index < MAX_MEMORY_TYPES
            &&& memory_type_suits(memory_type_bits, memory_type_flags@, type_to_find, index as nat)
            &&& forall|j: nat|
                j < index ==> !#[trigger] memory_type_suits(
                    memory_type_bits,
                    memory_type_flags@,
                    type_to_find,
                    j,
                )
        },
        r is Err <==> forall|j: nat|
            j < MAX_MEMORY_TYPES ==> !#[trigger] memory_type_suits(
                memory_type_bits,
                memory_type_flags@,
                type_to_find,
                j,
            ),
        r matches Err(message) ==> message@ == "Cannot find device memory type"@,
{
    let mut index: usize = 0;
    while index < MAX_MEMORY_TYPES
        invariant
            index <= MAX_MEMORY_TYPES,
            memory_type_flags@.len() == MAX_MEMORY_TYPES,
            forall|j: nat|
                j < index ==> !#[trigger] memory_type_suits(
                    memory_type_bits,
                    memory_type_flags@,
                    type_to_find,
                    j,
                ),
        decreases MAX_MEMORY_TYPES - index,
    {
        let mask: u32 = 1u32 << (index as u32);
        if memory_type_bits & mask > 0 && memory_property_flags_contains(
            memory_type_flags[index],
            type_to_find,
        ) {
            assert(memory_type_suits(memory_type_bits, memory_type_flags@, type_to_find, index as nat));
            return Ok(index);
        }
        index = index + 1;
    }
    Err("Cannot find device memory type")
}

} // verus!
