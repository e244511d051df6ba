use vstd::prelude::*;

verus! {

/// `VK_PRESENT_MODE_MAILBOX_KHR`.
pub const PRESENT_MODE_MAILBOX: i32 = 1;

/// `VK_PRESENT_MODE_FIFO_KHR`, which every surface supports.
pub const PRESENT_MODE_FIFO: i32 = 2;

/// Mailbox presentation when the surface offers it, else FIFO.
pub open spec fn spec_present_mode(v_present_modes: Seq<i32>) -> i32 {
    if v_present_modes.contains(PRESENT_MODE_MAILBOX) {
        PRESENT_MODE_MAILBOX
    } else {
        PRESENT_MODE_FIFO
    }
}

/// Whatever else the surface offers, mailbox presentation is chosen as soon
/// as it is offered, and FIFO exactly when it is not.
pub proof fn lemma_present_mode_prefers_mailbox(v_present_modes: Seq<i32>)
    ensures
        v_present_modes.contains(PRESENT_MODE_MAILBOX) ==> spec_present_mode(v_present_modes)
            == PRESENT_MODE_MAILBOX,
        !v_present_modes.contains(PRESENT_MODE_MAILBOX) ==> spec_present_mode(v_present_modes)
            == PRESENT_MODE_FIFO,
        forall|other: i32|
            #![trigger v_present_modes.push(other)]
            v_present_modes.contains(PRESENT_MODE_MAILBOX) ==> spec_present_mode(
                v_present_modes.push(other),
            ) == PRESENT_MODE_MAILBOX,
{
    assert forall|other: i32| v_present_modes.contains(PRESENT_MODE_MAILBOX) implies
        #[trigger] v_present_modes.push(other).contains(PRESENT_MODE_MAILBOX) by {
        let j = choose|j: int| 0 <= j < v_present_modes.len() && v_present_modes[j] == PRESENT_MODE_MAILBOX;
        assert(v_present_modes.push(other)[j] == PRESENT_MODE_MAILBOX);
    }
}

/// `ash::extensions::khr::Swapchain`: the loaded `VK_KHR_swapchain` entry points.
#[verifier::external_type_specification]
#[verifier::external_body]
pub struct ExSwapchainLoader(ash::extensions::khr::Swapchain);

/// `ash::vk::SwapchainKHR`: a swapchain handle.
#[verifier::external_type_specification]
#[verifier::external_body]
pub struct ExSwapchainKhr(ash::vk::SwapchainKHR);

/// `ash::vk::Image`: an image handle.
#[verifier::external_type_specification]
#[verifier::external_body]
pub struct ExImage(ash::vk::Image);

/// The swapchain of the window's surface and its images.
pub struct MySwapchain {
    pub loader: ash::extensions::khr::Swapchain,
    pub inner: ash::vk::SwapchainKHR,
    pub v_images: Vec<ash::vk::Image>,
}

impl MySwapchain {
    /// Number of images in the swapchain.
    pub fn size(&self) -> (n: usize)
        ensures
            n == self.v_images@.len(),
    {
        self.v_images.len()
    }

    /// The presentation mode of the swapchain, from the modes the surface offers.
    pub fn choose_swapchain_present_mode(v_present_modes: &Vec<i32>) -> (mode: i32)
        ensures
            mode == spec_present_mode(v_present_modes@),
            v_present_modes@.contains(PRESENT_MODE_MAILBOX) ==> mode == PRESENT_MODE_MAILBOX,
            !v_present_modes@.contains(PRESENT_MODE_MAILBOX) ==> mode == PRESENT_MODE_FIFO,
    {
        let mut i: usize = 0;
        while i < v_present_modes.len()
            invariant
                i <= v_present_modes@.len(),
                forall|j: int| 0 <= j < i ==> v_present_modes@[j] != PRESENT_MODE_MAILBOX,
            decreases v_present_modes@.len() - i,
        {
            if v_present_modes[i] == PRESENT_MODE_MAILBOX {
                assert(v_present_modes@[i as int] == PRESENT_MODE_MAILBOX);
                return PRESENT_MODE_MAILBOX;
            }
            i = i + 1;
        }
        PRESENT_MODE_FIFO
    }
}

} // verus!
