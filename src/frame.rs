//! The per-frame protocol (acquire, wait for capacity, record, submit,
//! present) and the timeline counter that paces the host against the GPU.

use crate::error::GpuError;
use crate::swapchain::{ImageView, Swapchain};
use vstd::prelude::*;

verus! {

/// The long-lived objects owned by one swapchain image index: its command
/// buffer and the semaphore its acquisition signals.
#[derive(Clone, Copy, Debug, PartialEq, Eq, Structural)]
pub struct FrameSlot {
    pub command_buffer: u64,
    pub acquire_semaphore: u64,
}

/// Where the single frame in progress stands; the index is the frame slot.
#[derive(Clone, Copy, Debug, PartialEq, Eq, Structural)]
pub enum FramePhase {
    Idle,
    Acquired(usize),
    Recording(usize),
    Submitted(usize),
}

/// A host wait: until `semaphore` reaches `value`.
#[derive(Clone, Copy, Debug, PartialEq, Eq, Structural)]
pub struct TimelineWait {
    pub semaphore: u64,
    pub value: u64,
}

/// The frame handed out by `begin_frame`: the acquired image, its view, the
/// slot's command buffer and acquire semaphore, and the wait that bounds the
/// work in flight before the command buffer may be reused.
#[derive(Clone, Copy, Debug, PartialEq, Eq, Structural)]
pub struct Frame {
    pub index: u32,
    pub image: u64,
    pub image_view: ImageView,
    pub command_buffer: u64,
    pub acquire_semaphore: u64,
    pub capacity_wait: TimelineWait,
}

/// One queue submission and the present that follows it: run
/// `command_buffer` after `wait_semaphore`, signal `timeline_semaphore` to
/// `signal_value` and the binary `present_semaphore`, then present image
/// `image_index` once `present_semaphore` is signaled.
#[derive(Clone, Copy, Debug, PartialEq, Eq, Structural)]
pub struct SubmitInfo {
    pub command_buffer: u64,
    pub wait_semaphore: u64,
    pub timeline_semaphore: u64,
    pub signal_value: u64,
    pub present_semaphore: u64,
    pub image_index: u32,
}

/// The mathematical state of the scheduler.
pub struct SchedulerView {
    pub slots: Seq<FrameSlot>,
    /// The semaphore the next acquisition signals.
    pub next_acquire: u64,
    pub timeline: u64,
    pub present: u64,
    /// The timeline value of the last submitted frame.
    pub progress: nat,
    pub phase: FramePhase,
}

pub open spec fn slot_index_of(phase: FramePhase) -> int {
    match phase {
        FramePhase::Idle => -1,
        FramePhase::Acquired(i) => i as int,
        FramePhase::Recording(i) => i as int,
        FramePhase::Submitted(i) => i as int,
    }
}

impl SchedulerView {
    pub open spec fn wf(self) -> bool {
        &&& self.progress <= u64::MAX
        &&& slot_index_of(self.phase) < self.slots.len()
    }

    /// The frame slots whose command buffer is being recorded.
    pub open spec fn recording_slots(self) -> Set<int> {
        Set::new(
            |i: int|
                0 <= i < self.slots.len() && self.phase is Recording && self.phase->Recording_0
                    == i,
        )
    }
}

/// Whether an acquisition result names an image the scheduler can use.
pub open spec fn acquire_accepted(s: SchedulerView, acquired: Result<u32, GpuError>, views: nat) -> bool {
    acquired matches Ok(i) && i < s.slots.len() && i < views
}

/// The state after an acquisition: on an accepted image `i`, slot `i` takes
/// the semaphore the acquisition signaled and gives its own to the next
/// acquisition; otherwise nothing changes.
pub open spec fn after_acquire(s: SchedulerView, acquired: Result<u32, GpuError>, views: nat) -> SchedulerView {
    if acquire_accepted(s, acquired, views) {
        let i = acquired->Ok_0 as int;
        SchedulerView {
            slots: s.slots.update(i, FrameSlot { acquire_semaphore: s.next_acquire, ..s.slots[i] }),
            next_acquire: s.slots[i].acquire_semaphore,
            phase: FramePhase::Acquired(i as usize),
            ..s
        }
    } else {
        s
    }
}

/// Whether the timeline wait came back with the last submission completed.
pub open spec fn wait_satisfied(s: SchedulerView, completed: Result<u64, GpuError>) -> bool {
    completed matches Ok(v) && v >= s.progress
}

pub open spec fn after_wait(s: SchedulerView, completed: Result<u64, GpuError>) -> SchedulerView {
    if s.phase is Acquired && wait_satisfied(s, completed) {
        SchedulerView { phase: FramePhase::Recording(s.phase->Acquired_0), ..s }
    } else {
        s
    }
}

pub open spec fn after_submit(s: SchedulerView) -> SchedulerView {
    if s.phase is Recording {
        SchedulerView {
            progress: s.progress + 1,
            phase: FramePhase::Submitted(s.phase->Recording_0),
            ..s
        }
    } else {
        s
    }
}

pub open spec fn after_present(s: SchedulerView) -> SchedulerView {
    if s.phase is Submitted {
        SchedulerView { phase: FramePhase::Idle, ..s }
    } else {
        s
    }
}

/// One step of the frame protocol as the scheduler sees it.
pub enum FrameEvent {
    /// An acquisition returned, with the number of views the swapchain had.
    Acquire(Result<u32, GpuError>, nat),
    /// The capacity wait returned.
    Wait(Result<u64, GpuError>),
    Submit,
    Present,
}

pub open spec fn step(s: SchedulerView, e: FrameEvent) -> SchedulerView {
    match e {
        FrameEvent::Acquire(acquired, views) => if s.phase is Idle {
            after_acquire(s, acquired, views)
        } else {
            s
        },
        FrameEvent::Wait(completed) => after_wait(s, completed),
        FrameEvent::Submit => after_submit(s),
        FrameEvent::Present => after_present(s),
    }
}

pub open spec fn run(s: SchedulerView, events: Seq<FrameEvent>) -> SchedulerView
    decreases events.len(),
{
    if events.len() == 0 {
        s
    } else {
        step(run(s, events.drop_last()), events.last())
    }
}

/// How many of the events were submissions that the scheduler carried out.
pub open spec fn submissions(s: SchedulerView, events: Seq<FrameEvent>) -> nat
    decreases events.len(),
{
    if events.len() == 0 {
        0
    } else {
        let before = run(s, events.drop_last());
        submissions(s, events.drop_last()) + if events.last() is Submit && before.phase is Recording {
            1nat
        } else {
            0nat
        }
    }
}

/// Binds per-frame resources to swapchain images and paces the host against
/// the GPU with a timeline semaphore.
pub struct FrameScheduler {
    slots: Vec<FrameSlot>,
    next_acquire_semaphore: u64,
    timeline_semaphore: u64,
    present_semaphore: u64,
    progress: u64,
    phase: FramePhase,
}

impl View for FrameScheduler {
    type V = SchedulerView;

    closed spec fn view(&self) -> SchedulerView {
        SchedulerView {
            slots: self.slots@,
            next_acquire: self.next_acquire_semaphore,
            timeline: self.timeline_semaphore,
            present: self.present_semaphore,
            progress: self.progress as nat,
            phase: self.phase,
        }
    }
}

impl FrameScheduler {
    /// A scheduler with one slot per swapchain image, no frame submitted yet.
    pub fn new(
        timeline_semaphore: u64,
        present_semaphore: u64,
        next_acquire_semaphore: u64,
        slots: Vec<FrameSlot>,
    ) -> (r: Self)
        ensures
            r@.wf(),
            r@.slots == slots@,
            r@.next_acquire == next_acquire_semaphore,
            r@.timeline == timeline_semaphore,
            r@.present == present_semaphore,
            r@.progress == 0,
            r@.phase == FramePhase::Idle,
    {
        FrameScheduler {
            slots,
            next_acquire_semaphore,
            timeline_semaphore,
            present_semaphore,
            progress: 0,
            phase: FramePhase::Idle,
        }
    }

    /// The semaphore the next image acquisition must signal.
    pub fn acquire_semaphore(&self) -> (r: u64)
        ensures
            r == self@.next_acquire,
    {
        self.next_acquire_semaphore
    }

    pub fn progress(&self) -> (r: u64)
        ensures
            r == self@.progress,
    {
        self.progress
    }

    pub fn phase(&self) -> (r: FramePhase)
        ensures
            r == self@.phase,
    {
        self.phase
    }

    pub fn slot_count(&self) -> (r: usize)
        ensures
            r == self@.slots.len(),
    {
        self.slots.len()
    }

    pub fn slot(&self, index: usize) -> (r: FrameSlot)
        requires
            index < self@.slots.len(),
        ensures
            r == self@.slots[index as int],
    {
        self.slots[index]
    }

    pub fn timeline_semaphore(&self) -> (r: u64)
        ensures
            r == self@.timeline,
    {
        self.timeline_semaphore
    }

    pub fn present_semaphore(&self) -> (r: u64)
        ensures
            r == self@.present,
    {
        self.present_semaphore
    }

    /// Takes the result of acquiring the next image with
    /// `acquire_semaphore()`. An image that has a slot and a view starts a
    /// frame: the slot and the scheduler swap acquire semaphores, and the
    /// frame must wait for the timeline to reach the last submitted value
    /// before its command buffer is reused. An acquisition error is handed
    /// back; an image without a slot or a view (a rebuild is pending, or the
    /// chain changed) gives `SwapchainOutOfDate`.
    pub fn begin_frame(&mut self, acquired: Result<u32, GpuError>, swapchain: &Swapchain) -> (r:
        Result<Frame, GpuError>)
        requires
            old(self)@.wf(),
            old(self)@.phase == FramePhase::Idle,
            swapchain@.wf(),
        ensures
            final(self)@.wf(),
            final(self)@ == after_acquire(old(self)@, acquired, swapchain@.views.len()),
            r is Ok <==> acquire_accepted(old(self)@, acquired, swapchain@.views.len()),
            acquired matches Err(e) ==> r == Err::<Frame, GpuError>(e),
            (acquired is Ok && !acquire_accepted(old(self)@, acquired, swapchain@.views.len()))
                ==> r == Err::<Frame, GpuError>(GpuError::SwapchainOutOfDate),
            r matches Ok(f) ==> {
                let i = f.index as int;
                &&& acquired == Ok::<u32, GpuError>(f.index)
                &&& f.image == swapchain@.images[i]
                &&& f.image_view == swapchain@.views[i]
                &&& f.command_buffer == old(self)@.slots[i].command_buffer
                &&& f.acquire_semaphore == old(self)@.next_acquire
                &&& f.capacity_wait == (TimelineWait {
                    semaphore: old(self)@.timeline,
                    value: old(self)@.progress as u64,
                })
            },
    {
        let index = match acquired {
            Ok(i) => i,
            Err(e) => {
                return Err(e);
            },
        };
        let i = index as usize;
        if i >= self.slots.len() || i >= swapchain_view_count(swapchain) {
            return Err(GpuError::SwapchainOutOfDate);
        }
        let slot = self.slots[i];
        let signaled = self.next_acquire_semaphore;
        self.slots[i] = FrameSlot { acquire_semaphore: signaled, ..slot };
        self.next_acquire_semaphore = slot.acquire_semaphore;
        self.phase = FramePhase::Acquired(i);
        proof {
            assert(self@ =~= after_acquire(old(self)@, acquired, swapchain@.views.len()));
        }
        Ok(
            Frame {
                index,
                image: swapchain.image(i),
                image_view: swapchain.image_view(i),
                command_buffer: slot.command_buffer,
                acquire_semaphore: signaled,
                capacity_wait: TimelineWait {
                    semaphore: self.timeline_semaphore,
                    value: self.progress,
                },
            },
        )
    }

    /// Takes the result of the capacity wait: the timeline value the host
    /// observed, or the wait's error. The frame's command buffer may be
    /// recorded only once the last submitted value is reached; an earlier
    /// value gives `Timeout`. On an error nothing changes.
    pub fn start_recording(&mut self, completed: Result<u64, GpuError>) -> (r: Result<(), GpuError>)
        requires
            old(self)@.wf(),
            old(self)@.phase is Acquired,
        ensures
            final(self)@.wf(),
            final(self)@ == after_wait(old(self)@, completed),
            r is Ok <==> wait_satisfied(old(self)@, completed),
            completed matches Err(e) ==> r == Err::<(), GpuError>(e),
            (completed is Ok && !wait_satisfied(old(self)@, completed)) ==> r == Err::<
                (),
                GpuError,
            >(GpuError::Timeout),
    {
        let value = match completed {
            Ok(v) => v,
            Err(e) => {
                return Err(e);
            },
        };
        if value < self.progress {
            return Err(GpuError::Timeout);
        }
        if let FramePhase::Acquired(i) = self.phase {
            self.phase = FramePhase::Recording(i);
        }
        Ok(())
    }

    /// Ends the recorded frame: the timeline moves on by exactly one, and the
    /// submission and present to perform are handed back.
    pub fn end_frame(&mut self) -> (r: SubmitInfo)
        requires
            old(self)@.wf(),
            old(self)@.phase is Recording,
            old(self)@.progress < u64::MAX,
        ensures
            final(self)@.wf(),
            final(self)@ == after_submit(old(self)@),
            final(self)@.progress == old(self)@.progress + 1,
            ({
                let i = old(self)@.phase->Recording_0 as int;
                r == SubmitInfo {
                    command_buffer: old(self)@.slots[i].command_buffer,
                    wait_semaphore: old(self)@.slots[i].acquire_semaphore,
                    timeline_semaphore: old(self)@.timeline,
                    signal_value: final(self)@.progress as u64,
                    present_semaphore: old(self)@.present,
                    image_index: i as u32,
                }
            }),
    {
        let i = match self.phase {
            FramePhase::Recording(i) => i,
            _ => 0,
        };
        self.progress = self.progress + 1;
        self.phase = FramePhase::Submitted(i);
        let slot = self.slots[i];
        SubmitInfo {
            command_buffer: slot.command_buffer,
            wait_semaphore: slot.acquire_semaphore,
            timeline_semaphore: self.timeline_semaphore,
            signal_value: self.progress,
            present_semaphore: self.present_semaphore,
            image_index: i as u32,
        }
    }

    /// The present of the submitted frame was issued: the scheduler is idle.
    pub fn finish_present(&mut self)
        requires
            old(self)@.wf(),
            old(self)@.phase is Submitted,
        ensures
            final(self)@.wf(),
            final(self)@ == after_present(old(self)@),
            final(self)@.phase == FramePhase::Idle,
    {
        self.phase = FramePhase::Idle;
    }

    /// Gives up the scheduler: the slots, and the semaphores it owns besides
    /// theirs (next acquisition, present, timeline), to destroy once the
    /// device is idle.
    pub fn destroy(self) -> (r: (Vec<FrameSlot>, u64, u64, u64))
        ensures
            r.0@ == self@.slots,
            r.1 == self@.next_acquire,
            r.2 == self@.present,
            r.3 == self@.timeline,
    {
        (self.slots, self.next_acquire_semaphore, self.present_semaphore, self.timeline_semaphore)
    }
}

fn swapchain_view_count(swapchain: &Swapchain) -> (r: usize)
    requires
        swapchain@.wf(),
    ensures
        r == swapchain@.views.len(),
{
    if swapchain.is_rebuilding() {
        0
    } else {
        swapchain.image_count()
    }
}

/// The timeline counter moves by exactly one per submission the scheduler
/// carries out, and by nothing else: after any sequence of protocol events
/// it equals its start value plus the number of submissions, and no single
/// step lowers it or raises it by more than one.
pub proof fn lemma_progress_counts_submissions(s: SchedulerView, events: Seq<FrameEvent>)
    ensures
        run(s, events).progress == s.progress + submissions(s, events),
        forall|e: FrameEvent|
            #![trigger step(run(s, events), e)]
            step(run(s, events), e).progress == run(s, events).progress || step(
                run(s, events),
                e,
            ).progress == run(s, events).progress + 1,
    decreases events.len(),
{
    if events.len() > 0 {
        lemma_progress_counts_submissions(s, events.drop_last());
    }
}

/// At every moment at most one frame slot has its command buffer being
/// recorded.
pub proof fn lemma_single_recording(s: SchedulerView)
    ensures
        s.recording_slots().finite(),
        s.recording_slots().len() <= 1,
{
    match s.phase {
        FramePhase::Recording(i) => {
            if i < s.slots.len() {
                assert(s.recording_slots() =~= set![i as int]);
            } else {
                assert(s.recording_slots() =~= Set::<int>::empty());
            }
        },
        _ => {
            assert(s.recording_slots() =~= Set::<int>::empty());
        },
    }
}

} // verus!
