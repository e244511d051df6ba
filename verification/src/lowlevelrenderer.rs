use vstd::prelude::*;

verus! {

/// Number of frames the render loop keeps in flight; each frame slot owns one
/// fence, one "image acquired" semaphore and one "pipeline done" semaphore.
pub const FRAME_COUNT: usize = 2;

/// `SDLK_ESCAPE`: key code of the Escape key.
pub const KEYCODE_ESCAPE: i32 = 27;

/// A window event, as far as the render loop tells events apart.
#[derive(Clone, Copy, Debug, PartialEq, Eq, Structural)]
pub enum WindowEvent {
    /// The window was asked to close.
    Quit,
    /// A key went down; `keycode` is its SDL key code when it has one.
    KeyDown { keycode: Option<i32> },
    /// Any other event.
    Other,
}

/// The event asks the render loop to stop: closing the window or Escape.
pub open spec fn ends_loop(event: WindowEvent) -> bool {
    match event {
        WindowEvent::Quit => true,
        WindowEvent::KeyDown { keycode } => keycode == Some(KEYCODE_ESCAPE),
        WindowEvent::Other => false,
    }
}

/// Whether the render loop goes on, judged by the first pending window event
/// (`None` when no event is pending); later events stay pending.
pub fn handle_events(first_event: Option<WindowEvent>) -> (go: bool)
    ensures
        go == !(first_event matches Some(event) && ends_loop(event)),
        first_event is None ==> go,
        first_event == Some(WindowEvent::Quit) ==> !go,
        first_event == Some(WindowEvent::Other) ==> go,
        first_event matches Some(WindowEvent::KeyDown { keycode }) ==> (go <==> keycode != Some(
            KEYCODE_ESCAPE,
        )),
{
    match first_event {
        Some(WindowEvent::Quit) => false,
        Some(WindowEvent::KeyDown { keycode: Some(code) }) => code != KEYCODE_ESCAPE,
        Some(_) => true,
        None => true,
    }
}

/// Only closing the window and the Escape key end the loop: a key press ends
/// it exactly when its key code is Escape's, and every other event keeps it
/// going.
pub proof fn lemma_only_quit_and_escape_end_loop(event: WindowEvent)
    ensures
        event == WindowEvent::Quit ==> ends_loop(event),
        event == WindowEvent::Other ==> !ends_loop(event),
        forall|code: i32|
            #[trigger] ends_loop(WindowEvent::KeyDown { keycode: Some(code) }) <==> code
                == KEYCODE_ESCAPE,
        !ends_loop(WindowEvent::KeyDown { keycode: None }),
{
}

/// Abstract state of the frame pacing done by the render loop.
pub struct FrameSchedule {
    /// Frame slot used by the next loop iteration.
    pub current: nat,
    /// For each swapchain image, the frame slot whose fence guards the last
    /// submission that rendered to it (`None`: never rendered to).
    pub image_fences: Seq<Option<usize>>,
}

impl FrameSchedule {
    /// Every slot number held is a real frame slot.
    pub open spec fn wf(self) -> bool {
        &&& self.current < FRAME_COUNT
        &&& forall|i: int|
            0 <= i < self.image_fences.len() ==> (#[trigger] self.image_fences[i] matches Some(
                k,
            ) ==> k < FRAME_COUNT)
    }

    /// State after swapchain image `image` was acquired in the current slot:
    /// the image is now guarded by the current slot's fence.
    pub open spec fn acquire(self, image: nat) -> FrameSchedule {
        FrameSchedule {
            current: self.current,
            image_fences: self.image_fences.update(image as int, Some(self.current as usize)),
        }
    }

    /// State after the loop moved on to the next frame slot.
    pub open spec fn advance(self) -> FrameSchedule {
        FrameSchedule {
            current: ((self.current + 1) % (FRAME_COUNT as nat)) as nat,
            image_fences: self.image_fences,
        }
    }

    /// One whole loop iteration that acquired swapchain image `image`.
    pub open spec fn step(self, image: nat) -> FrameSchedule {
        self.acquire(image).advance()
    }

    /// The state after loop iterations that acquired `images`, in order.
    pub open spec fn run(self, images: Seq<nat>) -> FrameSchedule
        decreases images.len(),
    {
        if images.len() == 0 {
            self
        } else {
            self.run(images.drop_last()).step(images.last())
        }
    }
}

/// What one loop iteration does once the swapchain handed out an image.
pub struct SubmitPlan {
    /// Swapchain image to render to and present; also selects the frame
    /// (uniform buffer and command buffer) that is submitted.
    pub image_index: usize,
    /// Frame slot of this iteration: its "image acquired" semaphore is waited
    /// on, its "pipeline done" semaphore is signalled, and its fence guards
    /// the submission.
    pub frame_index: usize,
    /// Fence (by frame slot) of an earlier submission that rendered to the same
    /// image and must be waited for before the image is reused.
    pub wait_for_image_fence: Option<usize>,
}

/// Frame pacing of the render loop: which frame slot is current and which
/// frame slot's fence guards each swapchain image.
pub struct MyFrameScheduler {
    current_frame_index: usize,
    image_fences: Vec<Option<usize>>,
}

impl View for MyFrameScheduler {
    type V = FrameSchedule;

    closed spec fn view(&self) -> FrameSchedule {
        FrameSchedule { current: self.current_frame_index as nat, image_fences: self.image_fences@ }
    }
}

impl MyFrameScheduler {
    /// The current frame slot and every slot recorded for an image are real
    /// frame slots.
    #[verifier::type_invariant]
    closed spec fn slots_in_range(self) -> bool {
        self@.wf()
    }

    /// Pacing for a swapchain of `image_count` images, before the first frame.
    pub fn new(image_count: usize) -> (s: Self)
        ensures
            s@.wf(),
            s@.current == 0,
            s@.image_fences == Seq::new(image_count as nat, |i: int| None::<usize>),
    {
        let mut image_fences: Vec<Option<usize>> = Vec::new();
        let mut i: usize = 0;
        while i < image_count
            invariant
                i <= image_count,
                image_fences@ == Seq::new(i as nat, |j: int| None::<usize>),
            decreases image_count - i,
        {
            image_fences.push(None);
            i = i + 1;
        }
        MyFrameScheduler { current_frame_index: 0, image_fences }
    }

    /// Frame slot of the coming iteration: its fence is waited for first, and
    /// its "image acquired" semaphore is handed to the image acquisition.
    pub fn current_frame_index(&self) -> (k: usize)
        ensures
            k == self@.current,
            k < FRAME_COUNT,
    {
        proof {
            use_type_invariant(self);
        }
        self.current_frame_index
    }

    /// Number of swapchain images paced.
    pub fn image_count(&self) -> (n: usize)
        ensures
            n == self@.image_fences.len(),
    {
        self.image_fences.len()
    }

    /// Records that swapchain image `image_index` was acquired in the current
    /// frame slot and says how to submit and present it.
    pub fn on_image_acquired(&mut self, image_index: usize) -> (plan: SubmitPlan)
        requires
            image_index < old(self)@.image_fences.len(),
        ensures
            final(self)@ == old(self)@.acquire(image_index as nat),
            final(self)@.wf(),
            plan == (SubmitPlan {
                image_index,
                frame_index: old(self)@.current as usize,
                wait_for_image_fence: old(self)@.image_fences[image_index as int],
            }),
    {
        proof {
            use_type_invariant(&*self);
        }
        let wait_for_image_fence = self.image_fences[image_index];
        let frame_index = self.current_frame_index;
        let mut image_fences: Vec<Option<usize>> = Vec::new();
        std::mem::swap(&mut image_fences, &mut self.image_fences);
        image_fences.set(image_index, Some(frame_index));
        self.image_fences = image_fences;
        SubmitPlan { image_index, frame_index, wait_for_image_fence }
    }

    /// Moves on to the next frame slot, round robin.
    pub fn advance(&mut self)
        ensures
            final(self)@ == old(self)@.advance(),
            final(self)@.wf(),
    {
        proof {
            use_type_invariant(&*self);
        }
        self.current_frame_index = (self.current_frame_index + 1) % FRAME_COUNT;
    }
}

/// A loop iteration keeps the schedule well formed and the number of images.
pub proof fn lemma_step_preserves_wf(s: FrameSchedule, image: nat)
    requires
        s.wf(),
        image < s.image_fences.len(),
    ensures
        s.step(image).wf(),
        s.step(image).image_fences.len() == s.image_fences.len(),
{
}

/// After `FRAME_COUNT` iterations the loop is back at the same frame slot.
pub proof fn lemma_frame_slots_cycle(s: FrameSchedule)
    requires
        s.wf(),
    ensures
        s.advance().advance().current == s.current,
        s.advance().current != s.current,
{
}

/// Position of the last iteration in `images` that acquired swapchain image
/// `image`, if any did.
pub open spec fn last_use(images: Seq<nat>, image: nat) -> Option<nat>
    decreases images.len(),
{
    if images.len() == 0 {
        None
    } else if images.last() == image {
        Some((images.len() - 1) as nat)
    } else {
        last_use(images.drop_last(), image)
    }
}

/// Over any run of loop iterations, the frame slot advances once per
/// iteration, and each swapchain image stays guarded by the fence of the frame
/// slot in which it was last rendered to (or keeps its earlier guard when it
/// was not acquired at all). So when an image comes back, the loop waits for
/// exactly the submission that last used it.
pub proof fn lemma_run_guards_each_image_by_its_last_use(s: FrameSchedule, images: Seq<nat>)
    requires
        s.wf(),
        forall|k: int| 0 <= k < images.len() ==> #[trigger] images[k] < s.image_fences.len(),
    ensures
        s.run(images).wf(),
        s.run(images).current == (s.current + images.len()) % (FRAME_COUNT as nat),
        s.run(images).image_fences.len() == s.image_fences.len(),
        forall|i: nat|
            i < s.image_fences.len() ==> #[trigger] s.run(images).image_fences[i as int] == match last_use(
                images,
                i,
            ) {
                Some(p) => Some(((s.current + p) % (FRAME_COUNT as nat)) as usize),
                None => s.image_fences[i as int],
            },
    decreases images.len(),
{
    if images.len() > 0 {
        let rest = images.drop_last();
        assert forall|k: int| 0 <= k < rest.len() implies #[trigger] rest[k] < s.image_fences.len() by {
            assert(rest[k] == images[k]);
        }
        lemma_run_guards_each_image_by_its_last_use(s, rest);
        let mid = s.run(rest);
        lemma_step_preserves_wf(mid, images.last());
        assert forall|i: nat| i < s.image_fences.len() implies #[trigger] s.run(images).image_fences[i as int]
            == match last_use(images, i) {
                Some(p) => Some(((s.current + p) % (FRAME_COUNT as nat)) as usize),
                None => s.image_fences[i as int],
            } by {
            if images.last() == i {
                assert(last_use(images, i) == Some((images.len() - 1) as nat));
            } else {
                assert(last_use(images, i) == last_use(rest, i));
            }
        }
    }
}

/// What iteration `k` of a run that acquires `images`, starting from `s`, is
/// told to do: the plan `on_image_acquired` returns in that iteration.
pub open spec fn plan_at(s: FrameSchedule, images: Seq<nat>, k: int) -> SubmitPlan {
    let before = s.run(images.take(k));
    SubmitPlan {
        image_index: images[k] as usize,
        frame_index: before.current as usize,
        wait_for_image_fence: before.image_fences[images[k] as int],
    }
}

/// In iteration `k` of a run started by `MyFrameScheduler::new`, every
/// per-slot object (the fence waited for first, the "image acquired"
/// semaphore, the semaphores the submission waits on and signals, and the
/// fence the submission carries) is that of slot `k % FRAME_COUNT`; the
/// submission waits first for the fence of the slot in which the same image
/// was last submitted, if it was submitted before.
pub proof fn lemma_iteration_plan(image_count: nat, images: Seq<nat>, k: int)
    requires
        image_count <= usize::MAX,
        forall|j: int| 0 <= j < images.len() ==> #[trigger] images[j] < image_count,
        0 <= k < images.len(),
    ensures
        ({
            let s = FrameSchedule {
                current: 0,
                image_fences: Seq::new(image_count, |i: int| None::<usize>),
            };
            let plan = plan_at(s, images, k);
            &&& plan.image_index == images[k]
            &&& plan.frame_index == k % (FRAME_COUNT as int)
            &&& plan.wait_for_image_fence == match last_use(images.take(k), images[k]) {
                Some(p) => Some((p % (FRAME_COUNT as nat)) as usize),
                None => None,
            }
        }),
{
    let s = FrameSchedule { current: 0, image_fences: Seq::new(image_count, |i: int| None::<usize>) };
    let before = images.take(k);
    assert forall|j: int| 0 <= j < before.len() implies #[trigger] before[j] < s.image_fences.len() by {
        assert(before[j] == images[j]);
    }
    assert(s.wf());
    lemma_run_guards_each_image_by_its_last_use(s, before);
    assert(images[k] < s.image_fences.len());
    assert(before.len() == k);
    let i: nat = images[k];
    assert(s.run(before).image_fences[i as int] == match last_use(before, i) {
        Some(p) => Some(((s.current + p) % (FRAME_COUNT as nat)) as usize),
        None => s.image_fences[i as int],
    });
}

} // verus!
