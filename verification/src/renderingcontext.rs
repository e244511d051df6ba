use vstd::prelude::*;

verus! {

/// `VK_QUEUE_GRAPHICS_BIT`: the queue family supports graphics operations.
pub const QUEUE_GRAPHICS: u32 = 0x1;

/// Queue family flags hold every bit of `wanted`.
pub open spec fn queue_flags_contain(flags: u32, wanted: u32) -> bool {
    flags & wanted == wanted
}

/// A queue family supports graphics exactly when its graphics bit is set,
/// whatever other operations it supports.
pub proof fn lemma_graphics_bit_decides(flags: u32)
    ensures
        queue_flags_contain(flags, QUEUE_GRAPHICS) <==> flags % 2 == 1,
{
    assert((flags & 1u32 == 1u32) <==> (flags % 2 == 1)) by (bit_vector);
}

/// `ash::vk::QueueFlags::contains`: the flags hold every bit of `wanted`
/// (ash computes `self & other == other`).
#[verifier::external_body]
fn queue_flags_contains(flags: u32, wanted: u32) -> (r: bool)
    ensures
        r == queue_flags_contain(flags, wanted),
{
    ash::vk::QueueFlags::from_raw(flags).contains(ash::vk::QueueFlags::from_raw(wanted))
}

/// The first queue family, in the device's order, that supports graphics;
/// `queue_family_flags[i]` holds the `VkQueueFlags` of family `i`.
pub fn lookup_queue_family_index(queue_family_flags: &Vec<u32>) -> (r: Result<usize, &'static str>)
    ensures
        r matches Ok(index) ==> {
            &&& index < queue_family_flags@.len()
            &&& queue_flags_contain(queue_family_flags@[index as int], QUEUE_GRAPHICS)
            &&& forall|j: int|
                0 <= j < index ==> !queue_flags_contain(
                    #[trigger] queue_family_flags@[j],
                    QUEUE_GRAPHICS,
                )
        },
        r is Err <==> forall|j: int|
            0 <= j < queue_family_flags@.len() ==> !queue_flags_contain(
                #[trigger] queue_family_flags@[j],
                QUEUE_GRAPHICS,
            ),
        r matches Err(message) ==> message@ == "Queue family not found"@,
{
    let mut i: usize = 0;
    while i < queue_family_flags.len()
        invariant
            i <= queue_family_flags@.len(),
            forall|j: int|
                0 <= j < i ==> !queue_flags_contain(#[trigger] queue_family_flags@[j], QUEUE_GRAPHICS),
        decreases queue_family_flags@.len() - i,
    {
        if queue_flags_contains(queue_family_flags[i], QUEUE_GRAPHICS) {
            return Ok(i);
        }
        i = i + 1;
    }
    Err("Queue family not found")
}

/// The first physical device the instance enumerated, if the enumeration
/// succeeded and found one.
pub fn pick_up_one_gpu<T: Copy, E>(enumerated: &Result<Vec<T>, E>) -> (gpu: Option<T>)
    ensures
        gpu == (match enumerated {
            Ok(gpus) => if gpus@.len() > 0 {
                Some(gpus@[0])
            } else {
                None
            },
            Err(_) => None,
        }),
{
    match enumerated {
        Ok(gpus) => {
            if gpus.len() > 0 {
                Some(gpus[0])
            } else {
                None
            }
        },
        Err(_) => None,
    }
}

} // verus!
