//! The frame scheduler: the per-frame state machine that decides, one step at
//! a time, which GPU call comes next (wait, acquire, reset, submit, present or
//! rebuild the swapchain) and keeps the fence bookkeeping that makes reusing a
//! slot or an image safe.
//!
//! The caller runs the loop: it performs each returned [`Action`] and reports
//! its completion or result as the next [`Event`].

use vstd::prelude::*;
use crate::swapchain::{PresentableImage, SwapchainObjects};
use crate::sync::{FenceState, FrameSlot, MAX_FRAMES_IN_FLIGHT};

verus! {

/// Raw result code of a call that returned success.
pub const RESULT_SUCCESS: i32 = 0;

/// Raw result code: presented, but the swapchain no longer matches the surface exactly.
pub const RESULT_SUBOPTIMAL: i32 = 1000001003;

/// Raw result code: the surface changed and the swapchain can no longer be used.
pub const RESULT_OUT_OF_DATE: i32 = -1000001004;

/// How a request for the next swapchain image ended.
#[derive(Clone, Copy, Debug, PartialEq, Eq, Structural)]
pub enum AcquireOutcome {
    /// The image with this index will become available.
    Image { index: u32 },
    /// The swapchain is out of date and must be rebuilt.
    OutOfDate,
    /// Any other failure, with its raw result code.
    Failed { code: i32 },
}

/// How a present request ended.
#[derive(Clone, Copy, Debug, PartialEq, Eq, Structural)]
pub enum PresentOutcome {
    /// Presented; the swapchain still matches the surface.
    Optimal,
    /// Presented, but the swapchain should be rebuilt.
    Suboptimal,
    /// Not presented: the swapchain is out of date.
    OutOfDate,
    /// Any other failure, with its raw result code.
    Failed { code: i32 },
}

pub open spec fn acquire_error_outcome(code: i32) -> AcquireOutcome {
    if code == RESULT_OUT_OF_DATE {
        AcquireOutcome::OutOfDate
    } else {
        AcquireOutcome::Failed { code }
    }
}

pub open spec fn present_outcome(code: i32) -> PresentOutcome {
    if code == RESULT_SUBOPTIMAL {
        PresentOutcome::Suboptimal
    } else if code == RESULT_OUT_OF_DATE {
        PresentOutcome::OutOfDate
    } else if code < 0 {
        PresentOutcome::Failed { code }
    } else {
        PresentOutcome::Optimal
    }
}

impl AcquireOutcome {
    /// Classifies the raw error code of a failed acquire.
    pub fn from_error(code: i32) -> (r: AcquireOutcome)
        ensures
            r == acquire_error_outcome(code),
    {
        if code == RESULT_OUT_OF_DATE {
            AcquireOutcome::OutOfDate
        } else {
            AcquireOutcome::Failed { code }
        }
    }
}

impl PresentOutcome {
    /// Classifies the raw result code of a present request; negative codes are errors.
    pub fn from_code(code: i32) -> (r: PresentOutcome)
        ensures
            r == present_outcome(code),
    {
        if code == RESULT_SUBOPTIMAL {
            PresentOutcome::Suboptimal
        } else if code == RESULT_OUT_OF_DATE {
            PresentOutcome::OutOfDate
        } else if code < 0 {
            PresentOutcome::Failed { code }
        } else {
            PresentOutcome::Optimal
        }
    }
}

/// Where the scheduler stands within a frame.
#[derive(Clone, Copy, Debug, PartialEq, Eq, Structural)]
pub enum Phase {
    /// Between frames.
    Idle,
    /// Waiting for the current slot's fence.
    WaitingForSlot,
    /// The next image has been requested.
    AcquireRequested,
    /// Waiting for the fence that last used the acquired image.
    WaitingForImage { image: usize },
    /// The image is tagged with this slot's fence; uniforms are being written.
    Acquired { image: usize },
    /// The slot's fence is being reset.
    FenceReset { image: usize },
    /// The image's command buffer has been submitted.
    Submitted { image: usize },
    /// The image has been handed to the presentation engine.
    PresentRequested { image: usize },
    /// The swapchain is being rebuilt; `advance` says whether the frame had been presented.
    Recreating { advance: bool },
}

/// What the caller reports back after performing an action.
#[derive(Clone, Copy, Debug, PartialEq, Eq, Structural)]
pub enum Event {
    /// The window asks for a new frame.
    Redraw,
    /// The last action completed and has nothing to report.
    Done,
    /// The result of an image acquire.
    Acquire(AcquireOutcome),
    /// The result of a present request.
    Present(PresentOutcome),
}

/// The next GPU call to make.
#[derive(Clone, Copy, Debug, PartialEq, Eq, Structural)]
pub enum Action {
    /// Block, without timeout, until the fence is signaled.
    WaitForFence { fence: u64 },
    /// Request the next swapchain image; the GPU signals `signal` once it is ready.
    AcquireImage { signal: u64 },
    /// Write this frame's uniform data for the image.
    UpdateUniforms { image: usize },
    /// Reset the fence to unsignaled.
    ResetFence { fence: u64 },
    /// Submit the command buffer to the graphics queue: wait on `wait` at the
    /// color-attachment-output stage, then signal `signal` and `fence`.
    Submit { command_buffer: u64, wait: u64, signal: u64, fence: u64 },
    /// Present the image once `wait` is signaled.
    Present { wait: u64, image: usize },
    /// Wait until the device is idle, destroy every swapchain-scoped object,
    /// rebuild them, then report the new images through `finish_recreation`.
    RecreateSwapchain,
    /// The frame is over.
    FrameDone,
}

/// Why a step failed.
#[derive(Clone, Copy, Debug, PartialEq, Eq, Structural)]
pub enum FrameError {
    /// Acquiring an image failed for a reason other than an out-of-date swapchain.
    AcquireFailed { code: i32 },
    /// Presenting failed for a reason other than an out-of-date swapchain.
    PresentFailed { code: i32 },
    /// The acquired image index is not one of the swapchain's images.
    ImageIndexOutOfRange { index: u32 },
    /// The event does not answer the last action.
    UnexpectedEvent,
}

/// The scheduler's state, as mathematical values.
pub struct SchedulerModel {
    pub slots: Seq<FrameSlot>,
    pub images: Seq<PresentableImage>,
    /// For each image, the slot whose fence was last attached to it.
    pub last_use: Seq<Option<usize>>,
    /// For each slot, what is known of its fence.
    pub fences: Seq<FenceState>,
    /// The current slot.
    pub frame: nat,
    /// Number of frames presented (or dropped after presentation) so far.
    pub completed: nat,
    pub phase: Phase,
    pub resize_requested: bool,
}

pub open spec fn all_signaled(n: nat) -> Seq<FenceState> {
    Seq::new(n, |_s: int| FenceState::Signaled)
}

impl SchedulerModel {
    pub open spec fn slot(self) -> FrameSlot {
        self.slots[self.frame as int]
    }

    pub open spec fn fence(self) -> FenceState {
        self.fences[self.frame as int]
    }

    pub open spec fn phase_consistent(self) -> bool {
        match self.phase {
            Phase::Idle => self.fence() != FenceState::Reset,
            Phase::WaitingForSlot => self.fence() == FenceState::Signaled,
            Phase::AcquireRequested => self.fence() == FenceState::Signaled,
            Phase::WaitingForImage { image } => {
                &&& image < self.images.len()
                &&& self.fence() == FenceState::Signaled
                &&& self.last_use[image as int] is Some
                &&& self.fences[self.last_use[image as int]->0 as int] == FenceState::Signaled
            },
            Phase::Acquired { image } => {
                &&& image < self.images.len()
                &&& self.fence() == FenceState::Signaled
                &&& self.last_use[image as int] == Some(self.frame as usize)
            },
            Phase::FenceReset { image } => {
                &&& image < self.images.len()
                &&& self.fence() == FenceState::Reset
                &&& self.last_use[image as int] == Some(self.frame as usize)
            },
            Phase::Submitted { image } => {
                &&& image < self.images.len()
                &&& self.fence() == FenceState::Pending
                &&& self.last_use[image as int] == Some(self.frame as usize)
            },
            Phase::PresentRequested { image } => {
                &&& image < self.images.len()
                &&& self.fence() == FenceState::Pending
                &&& self.last_use[image as int] == Some(self.frame as usize)
            },
            Phase::Recreating { .. } => self.fences == all_signaled(MAX_FRAMES_IN_FLIGHT as nat),
        }
    }

    /// Well-formedness: exactly one slot per frame in flight, one last-use
    /// entry per image, the current slot is the frame count modulo the
    /// number of slots, and only the current slot's fence can be in the
    /// reset state.
    pub open spec fn wf(self) -> bool {
        &&& self.slots.len() == MAX_FRAMES_IN_FLIGHT
        &&& self.fences.len() == MAX_FRAMES_IN_FLIGHT
        &&& self.last_use.len() == self.images.len()
        &&& self.frame < MAX_FRAMES_IN_FLIGHT
        &&& self.frame == self.completed % (MAX_FRAMES_IN_FLIGHT as nat)
        &&& forall|i: int|
            0 <= i < self.last_use.len() && #[trigger] self.last_use[i] is Some
                ==> self.last_use[i]->0 < MAX_FRAMES_IN_FLIGHT
        &&& forall|s: int|
            0 <= s < MAX_FRAMES_IN_FLIGHT && s != self.frame ==> #[trigger] self.fences[s]
                != FenceState::Reset
        &&& self.phase_consistent()
    }

    /// The image is tagged with the current slot's fence and its uniforms are written next.
    pub open spec fn tag_image(self, image: usize) -> (SchedulerModel, Result<Action, FrameError>) {
        (
            SchedulerModel {
                last_use: self.last_use.update(image as int, Some(self.frame as usize)),
                phase: Phase::Acquired { image },
                ..self
            },
            Ok(Action::UpdateUniforms { image }),
        )
    }

    /// The device is drained (every fence ends up signaled) and the swapchain rebuilt.
    pub open spec fn recreate(self, advance: bool) -> (SchedulerModel, Result<Action, FrameError>) {
        (
            SchedulerModel {
                fences: all_signaled(self.fences.len()),
                phase: Phase::Recreating { advance },
                resize_requested: false,
                ..self
            },
            Ok(Action::RecreateSwapchain),
        )
    }

    /// Moves to the next slot.
    pub open spec fn advanced(self) -> SchedulerModel {
        SchedulerModel {
            frame: ((self.frame + 1) % (MAX_FRAMES_IN_FLIGHT as nat)) as nat,
            completed: self.completed + 1,
            ..self
        }
    }

    /// One step of the frame state machine: the state after `e` and the next
    /// action, or an error with the state unchanged.
    pub open spec fn step(self, e: Event) -> (SchedulerModel, Result<Action, FrameError>) {
        let slot = self.slot();
        match (self.phase, e) {
            (Phase::Idle, Event::Redraw) => (
                SchedulerModel {
                    fences: self.fences.update(self.frame as int, FenceState::Signaled),
                    phase: Phase::WaitingForSlot,
                    ..self
                },
                Ok(Action::WaitForFence { fence: slot.in_flight }),
            ),
            (Phase::WaitingForSlot, Event::Done) => (
                SchedulerModel { phase: Phase::AcquireRequested, ..self },
                Ok(Action::AcquireImage { signal: slot.image_available }),
            ),
            (Phase::AcquireRequested, Event::Acquire(outcome)) => match outcome {
                AcquireOutcome::Image { index } => {
                    if index >= self.images.len() {
                        (self, Err(FrameError::ImageIndexOutOfRange { index }))
                    } else {
                        match self.last_use[index as int] {
                            Some(s) => (
                                SchedulerModel {
                                    fences: self.fences.update(s as int, FenceState::Signaled),
                                    phase: Phase::WaitingForImage { image: index as usize },
                                    ..self
                                },
                                Ok(Action::WaitForFence { fence: self.slots[s as int].in_flight }),
                            ),
                            None => self.tag_image(index as usize),
                        }
                    }
                },
                AcquireOutcome::OutOfDate => self.recreate(false),
                AcquireOutcome::Failed { code } => (self, Err(FrameError::AcquireFailed { code })),
            },
            (Phase::WaitingForImage { image }, Event::Done) => self.tag_image(image),
            (Phase::Acquired { image }, Event::Done) => (
                SchedulerModel {
                    fences: self.fences.update(self.frame as int, FenceState::Reset),
                    phase: Phase::FenceReset { image },
                    ..self
                },
                Ok(Action::ResetFence { fence: slot.in_flight }),
            ),
            (Phase::FenceReset { image }, Event::Done) => (
                SchedulerModel {
                    fences: self.fences.update(self.frame as int, FenceState::Pending),
                    phase: Phase::Submitted { image },
                    ..self
                },
                Ok(
                    Action::Submit {
                        command_buffer: self.images[image as int].command_buffer,
                        wait: slot.image_available,
                        signal: slot.render_finished,
                        fence: slot.in_flight,
                    },
                ),
            ),
            (Phase::Submitted { image }, Event::Done) => (
                SchedulerModel { phase: Phase::PresentRequested { image }, ..self },
                Ok(Action::Present { wait: slot.render_finished, image }),
            ),
            (Phase::PresentRequested { image }, Event::Present(outcome)) => match outcome {
                PresentOutcome::Failed { code } => (self, Err(FrameError::PresentFailed { code })),
                PresentOutcome::Optimal => {
                    if self.resize_requested {
                        self.recreate(true)
                    } else {
                        (
                            SchedulerModel { phase: Phase::Idle, ..self.advanced() },
                            Ok(Action::FrameDone),
                        )
                    }
                },
                _ => self.recreate(true),
            },
            _ => (self, Err(FrameError::UnexpectedEvent)),
        }
    }

    /// Installs the rebuilt swapchain's images, with no image used yet, and
    /// moves to the next slot if the interrupted frame had been presented.
    pub open spec fn finish(self, images: Seq<PresentableImage>) -> (
        SchedulerModel,
        Result<Action, FrameError>,
    ) {
        match self.phase {
            Phase::Recreating { advance } => {
                let base = SchedulerModel {
                    images,
                    last_use: Seq::new(images.len(), |_i: int| None),
                    phase: Phase::Idle,
                    ..self
                };
                (if advance { base.advanced() } else { base }, Ok(Action::FrameDone))
            },
            _ => (self, Err(FrameError::UnexpectedEvent)),
        }
    }
}

/// Every step keeps the scheduler well formed.
pub proof fn lemma_step_wf(m: SchedulerModel, e: Event)
    requires
        m.wf(),
    ensures
        m.step(e).0.wf(),
        m.step(e).0.slots == m.slots,
        m.step(e).0.images == m.images,
{
    assert(((m.frame + 1) % (MAX_FRAMES_IN_FLIGHT as nat)) == ((m.completed + 1) % (MAX_FRAMES_IN_FLIGHT as nat)));
}

/// Finishing a rebuild keeps the scheduler well formed.
pub proof fn lemma_finish_wf(m: SchedulerModel, images: Seq<PresentableImage>)
    requires
        m.wf(),
    ensures
        m.finish(images).0.wf(),
        m.finish(images).0.slots == m.slots,
{
    assert(((m.frame + 1) % (MAX_FRAMES_IN_FLIGHT as nat)) == ((m.completed + 1) % (MAX_FRAMES_IN_FLIGHT as nat)));
}

/// A slot's fence is observed signaled before the slot's command buffer is
/// submitted again. A submission only ever hands over the current slot's
/// fence (the slot being the frame count modulo the number of slots), and
/// only once that fence has been reset; a fence is reset only when it is
/// known signaled; and a fence in use by a submission is only ever
/// considered signaled again by waiting on it or by draining the device.
pub proof fn lemma_slot_fence_signaled_before_resubmit(m: SchedulerModel, e: Event)
    requires
        m.wf(),
    ensures
        ({
            let (m2, r) = m.step(e);
            &&& r matches Ok(Action::Submit { fence, .. }) ==> {
                &&& fence == m.slots[m.frame as int].in_flight
                &&& m.frame == m.completed % (MAX_FRAMES_IN_FLIGHT as nat)
                &&& m.fences[m.frame as int] == FenceState::Reset
                &&& m2.fences[m.frame as int] == FenceState::Pending
            }
            &&& forall|s: int|
                0 <= s < MAX_FRAMES_IN_FLIGHT && #[trigger] m2.fences[s] == FenceState::Reset
                    && m.fences[s] != FenceState::Reset ==> {
                    &&& r == Ok::<Action, FrameError>(
                        Action::ResetFence { fence: m.slots[s].in_flight },
                    )
                    &&& m.fences[s] == FenceState::Signaled
                }
            &&& forall|s: int|
                0 <= s < MAX_FRAMES_IN_FLIGHT && m.fences[s] == FenceState::Pending
                    && #[trigger] m2.fences[s] != FenceState::Pending ==> {
                    ||| r == Ok::<Action, FrameError>(
                        Action::WaitForFence { fence: m.slots[s].in_flight },
                    )
                    ||| r == Ok::<Action, FrameError>(Action::RecreateSwapchain)
                }
            &&& forall|s: int|
                0 <= s < MAX_FRAMES_IN_FLIGHT && #[trigger] m2.fences[s] == FenceState::Pending
                    && m.fences[s] != FenceState::Pending ==> r matches Ok(Action::Submit { .. })
        }),
{
}

/// An image's last-use fence, when it has one, is known signaled before the
/// image is handed to the current slot for rendering: a step that changes an
/// image's last-use entry sets it to the current slot, and the entry it
/// replaces was empty or named a signaled fence.
pub proof fn lemma_image_fence_signaled_before_reuse(m: SchedulerModel, e: Event)
    requires
        m.wf(),
    ensures
        ({
            let (m2, r) = m.step(e);
            forall|i: int|
                0 <= i < m.last_use.len() && #[trigger] m2.last_use[i] != m.last_use[i] ==> {
                    &&& m2.last_use[i] == Some(m.frame as usize)
                    &&& m.last_use[i] matches Some(s) ==> m.fences[s as int] == FenceState::Signaled
                }
        }),
{
}

/// An out-of-date swapchain reported on acquire drops the frame without
/// advancing the frame counter and starts a rebuild; while the rebuild is
/// under way every event is refused, so no image is acquired before it
/// completes; and completing it leaves the counter where it was.
pub proof fn lemma_out_of_date_acquire_rebuilds_first(
    m: SchedulerModel,
    e: Event,
    images: Seq<PresentableImage>,
)
    requires
        m.wf(),
        m.phase == Phase::AcquireRequested,
    ensures
        ({
            let (m2, r) = m.step(Event::Acquire(AcquireOutcome::OutOfDate));
            let (m3, r3) = m2.step(e);
            let (m4, r4) = m2.finish(images);
            &&& r == Ok::<Action, FrameError>(Action::RecreateSwapchain)
            &&& m2.phase == Phase::Recreating { advance: false }
            &&& m2.frame == m.frame && m2.completed == m.completed
            &&& m3 == m2 && r3 == Err::<Action, FrameError>(FrameError::UnexpectedEvent)
            &&& r4 == Ok::<Action, FrameError>(Action::FrameDone)
            &&& m4.phase == Phase::Idle
            &&& m4.frame == m.frame && m4.completed == m.completed
        }),
{
}

/// A resize request never interrupts a frame in flight: it changes nothing
/// but the flag, a rebuild only starts when a present result or an
/// out-of-date acquire comes in, and the flag is only cleared by starting a
/// rebuild. A submitted frame always goes on to be presented.
pub proof fn lemma_resize_waits_for_present(m: SchedulerModel, e: Event)
    requires
        m.wf(),
    ensures
        ({
            let (m2, r) = m.step(e);
            &&& r == Ok::<Action, FrameError>(Action::RecreateSwapchain) ==> {
                ||| m.phase is PresentRequested && e is Present
                ||| m.phase == Phase::AcquireRequested && e == Event::Acquire(AcquireOutcome::OutOfDate)
            }
            &&& m.resize_requested && !m2.resize_requested ==> r == Ok::<Action, FrameError>(
                Action::RecreateSwapchain,
            )
            &&& m.phase is PresentRequested && m.resize_requested && e == Event::Present(
                PresentOutcome::Optimal,
            ) ==> {
                &&& r == Ok::<Action, FrameError>(Action::RecreateSwapchain)
                &&& m2.phase == Phase::Recreating { advance: true }
            }
            &&& m.phase is Submitted && e == Event::Done ==> {
                &&& r matches Ok(Action::Present { .. })
                &&& m2.resize_requested == m.resize_requested
            }
        }),
{
}

/// A rebuild yields exactly one of each per-image object for every image of
/// the new swapchain: when the rebuilt object lists are accepted and their
/// records handed to the scheduler, the scheduler holds one record and one
/// (empty) last-use entry per new image, and the framebuffer, command buffer
/// and uniform buffer of record `i` are entry `i` of their lists, whatever
/// the image count was before.
pub proof fn lemma_rebuild_matches_image_count(
    m: SchedulerModel,
    objects: SwapchainObjects,
    images: Seq<PresentableImage>,
)
    requires
        m.wf(),
        m.phase is Recreating,
        objects.counts_match(),
        images.len() == objects.images@.len(),
        forall|i: int| 0 <= i < images.len() ==> #[trigger] images[i] == objects.record(i),
    ensures
        ({
            let m2 = m.finish(images).0;
            let n = objects.images@.len();
            &&& m2.wf()
            &&& m2.images.len() == n
            &&& m2.last_use.len() == n
            &&& objects.framebuffers@.len() == n
            &&& objects.command_buffers@.len() == n
            &&& objects.uniform_buffers@.len() == n
            &&& forall|i: int| 0 <= i < n ==> (#[trigger] m2.last_use[i]) is None
            &&& forall|i: int|
                0 <= i < n ==> {
                    &&& (#[trigger] m2.images[i]).framebuffer == objects.framebuffers@[i]
                    &&& m2.images[i].command_buffer == objects.command_buffers@[i]
                    &&& m2.images[i].uniform_buffer == objects.uniform_buffers@[i]
                }
        }),
{
    lemma_finish_wf(m, images);
}

/// The frame scheduler: the frame slots, the current swapchain's images, and
/// where the current frame stands.
pub struct FrameScheduler {
    pub slots: Vec<FrameSlot>,
    pub images: Vec<PresentableImage>,
    pub last_use: Vec<Option<usize>>,
    pub fences: Vec<FenceState>,
    /// The current slot.
    pub frame: usize,
    pub completed: Ghost<nat>,
    pub phase: Phase,
    /// Set by the windowing layer; handled once the current frame has been presented.
    pub resized: bool,
}

impl View for FrameScheduler {
    type V = SchedulerModel;

    open spec fn view(&self) -> SchedulerModel {
        SchedulerModel {
            slots: self.slots@,
            images: self.images@,
            last_use: self.last_use@,
            fences: self.fences@,
            frame: self.frame as nat,
            completed: self.completed@,
            phase: self.phase,
            resize_requested: self.resized,
        }
    }
}

fn unused_images(n: usize) -> (r: Vec<Option<usize>>)
    ensures
        r@ == Seq::new(n as nat, |_i: int| None::<usize>),
{
    let mut r: Vec<Option<usize>> = Vec::new();
    let mut i: usize = 0;
    while i < n
        invariant
            i <= n,
            r@ == Seq::new(i as nat, |_i: int| None::<usize>),
        decreases n - i,
    {
        r.push(None);
        i = i + 1;
        assert(r@ =~= Seq::new(i as nat, |_i: int| None::<usize>));
    }
    r
}

impl FrameScheduler {
    /// A scheduler at its first frame: every fence was created signaled, so
    /// the first frame does not block, and no image has been used yet.
    pub fn new(slots: Vec<FrameSlot>, images: Vec<PresentableImage>) -> (r: FrameScheduler)
        requires
            slots@.len() == MAX_FRAMES_IN_FLIGHT,
        ensures
            r@.wf(),
            r@.slots == slots@,
            r@.images == images@,
            r@.last_use == Seq::new(images@.len(), |_i: int| None::<usize>),
            r@.fences == all_signaled(MAX_FRAMES_IN_FLIGHT as nat),
            r@.frame == 0,
            r@.completed == 0,
            r@.phase == Phase::Idle,
            !r@.resize_requested,
    {
        let last_use = unused_images(images.len());
        let fences = vec![FenceState::Signaled, FenceState::Signaled, FenceState::Signaled];
        assert(fences@ =~= all_signaled(MAX_FRAMES_IN_FLIGHT as nat));
        FrameScheduler {
            slots,
            images,
            last_use,
            fences,
            frame: 0,
            completed: Ghost(0),
            phase: Phase::Idle,
            resized: false,
        }
    }

    /// Records a resize request from the windowing layer; nothing else changes.
    pub fn request_resize(&mut self)
        ensures
            final(self)@ == (SchedulerModel { resize_requested: true, ..old(self)@ }),
    {
        self.resized = true;
    }

    fn drain_fences(&mut self)
        requires
            old(self).fences@.len() == MAX_FRAMES_IN_FLIGHT,
        ensures
            final(self)@ == (SchedulerModel { fences: all_signaled(MAX_FRAMES_IN_FLIGHT as nat), ..old(self)@ }),
    {
        let mut i: usize = 0;
        while i < self.fences.len()
            invariant
                i <= self.fences@.len() == MAX_FRAMES_IN_FLIGHT,
                self@ == (SchedulerModel { fences: self.fences@, ..old(self)@ }),
                forall|s: int| 0 <= s < i ==> self.fences@[s] == FenceState::Signaled,
            decreases self.fences@.len() - i,
        {
            self.fences[i] = FenceState::Signaled;
            i = i + 1;
        }
        assert(self.fences@ =~= all_signaled(MAX_FRAMES_IN_FLIGHT as nat));
    }

    fn begin_recreation(&mut self, advance: bool) -> (r: Result<Action, FrameError>)
        requires
            old(self)@.wf(),
        ensures
            (final(self)@, r) == old(self)@.recreate(advance),
    {
        self.drain_fences();
        self.phase = Phase::Recreating { advance };
        self.resized = false;
        Ok(Action::RecreateSwapchain)
    }

    fn advance(&mut self)
        requires
            old(self)@.wf(),
        ensures
            final(self)@ == old(self)@.advanced(),
    {
        self.frame = (self.frame + 1) % MAX_FRAMES_IN_FLIGHT;
        self.completed = Ghost(self.completed@ + 1);
    }

    /// Takes the frame one step further: given the result of the last action,
    /// records what it changed and returns the next action. On an error the
    /// scheduler is left as it was.
    pub fn step(&mut self, e: Event) -> (r: Result<Action, FrameError>)
        requires
            old(self)@.wf(),
        ensures
            (final(self)@, r) == old(self)@.step(e),
            final(self)@.wf(),
    {
        proof {
            lemma_step_wf(self@, e);
        }
        let slot = self.slots[self.frame];
        match (self.phase, e) {
            (Phase::Idle, Event::Redraw) => {
                self.fences[self.frame] = FenceState::Signaled;
                self.phase = Phase::WaitingForSlot;
                Ok(Action::WaitForFence { fence: slot.in_flight })
            },
            (Phase::WaitingForSlot, Event::Done) => {
                self.phase = Phase::AcquireRequested;
                Ok(Action::AcquireImage { signal: slot.image_available })
            },
            (Phase::AcquireRequested, Event::Acquire(outcome)) => match outcome {
                AcquireOutcome::Image { index } => {
                    if index as usize >= self.images.len() {
                        Err(FrameError::ImageIndexOutOfRange { index })
                    } else {
                        let image = index as usize;
                        match self.last_use[image] {
                            Some(s) => {
                                self.fences[s] = FenceState::Signaled;
                                self.phase = Phase::WaitingForImage { image };
                                Ok(Action::WaitForFence { fence: self.slots[s].in_flight })
                            },
                            None => {
                                self.last_use[image] = Some(self.frame);
                                self.phase = Phase::Acquired { image };
                                Ok(Action::UpdateUniforms { image })
                            },
                        }
                    }
                },
                AcquireOutcome::OutOfDate => self.begin_recreation(false),
                AcquireOutcome::Failed { code } => Err(FrameError::AcquireFailed { code }),
            },
            (Phase::WaitingForImage { image }, Event::Done) => {
                self.last_use[image] = Some(self.frame);
                self.phase = Phase::Acquired { image };
                Ok(Action::UpdateUniforms { image })
            },
            (Phase::Acquired { image }, Event::Done) => {
                self.fences[self.frame] = FenceState::Reset;
                self.phase = Phase::FenceReset { image };
                Ok(Action::ResetFence { fence: slot.in_flight })
            },
            (Phase::FenceReset { image }, Event::Done) => {
                self.fences[self.frame] = FenceState::Pending;
                self.phase = Phase::Submitted { image };
                Ok(
                    Action::Submit {
                        command_buffer: self.images[image].command_buffer,
                        wait: slot.image_available,
                        signal: slot.render_finished,
                        fence: slot.in_flight,
                    },
                )
            },
            (Phase::Submitted { image }, Event::Done) => {
                self.phase = Phase::PresentRequested { image };
                Ok(Action::Present { wait: slot.render_finished, image })
            },
            (Phase::PresentRequested { image }, Event::Present(outcome)) => match outcome {
                PresentOutcome::Failed { code } => Err(FrameError::PresentFailed { code }),
                PresentOutcome::Optimal => {
                    if self.resized {
                        self.begin_recreation(true)
                    } else {
                        self.advance();
                        self.phase = Phase::Idle;
                        Ok(Action::FrameDone)
                    }
                },
                _ => self.begin_recreation(true),
            },
            _ => Err(FrameError::UnexpectedEvent),
        }
    }

    /// Completes a swapchain rebuild: installs the new images, clears every
    /// image's last-use fence (no image of the new chain has been used), and
    /// ends the frame.
    pub fn finish_recreation(&mut self, images: Vec<PresentableImage>) -> (r: Result<Action, FrameError>)
        requires
            old(self)@.wf(),
        ensures
            (final(self)@, r) == old(self)@.finish(images@),
            final(self)@.wf(),
    {
        proof {
            lemma_finish_wf(self@, images@);
        }
        match self.phase {
            Phase::Recreating { advance } => {
                self.last_use = unused_images(images.len());
                self.images = images;
                self.phase = Phase::Idle;
                if advance {
                    self.advance();
                }
                Ok(Action::FrameDone)
            },
            _ => Err(FrameError::UnexpectedEvent),
        }
    }
}

} // verus!
