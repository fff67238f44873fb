//! The per-frame submission protocol.
//!
//! A frame is four queue operations chained by three semaphores, followed
//! by a wait for the device to fall idle:
//!
//! 1. acquire the next presentable image, which signals `acquired`;
//! 2. submit the offscreen command buffer, which waits for `acquired` and
//!    signals `offscreen_done`;
//! 3. submit the draw command buffer of the acquired image, which waits for
//!    `offscreen_done` and signals `render_done`;
//! 4. present the image, which waits for `render_done`;
//! 5. wait until the queue is idle.
//!
//! The protocol is a state machine. The caller reports what happened, the
//! machine answers with the next operation to issue.
use vstd::prelude::*;
use crate::vk;

verus! {

/// Where a frame stands: what was issued last.
#[derive(Clone, Copy, PartialEq, Eq, Structural, Debug)]
pub enum FrameState {
    /// No frame is under way.
    Idle,
    /// The next image was asked for.
    Acquiring,
    /// The offscreen pass was submitted; the payload is the acquired image.
    OffscreenSubmitted(u32),
    /// The lighting pass was submitted; the payload is the acquired image.
    MainSubmitted(u32),
    /// The image was handed to the presentation engine.
    Presented,
}

/// What the caller reports to the machine.
#[derive(Clone, Copy, PartialEq, Eq, Structural, Debug)]
pub enum FrameEvent {
    /// A frame is to be rendered.
    Render,
    /// The swapchain handed out the image with this index.
    ImageAcquired(u32),
    /// The operation issued last was accepted by the queue.
    Completed,
}

/// One batch of a frame: a command buffer that waits for one semaphore at
/// the given stages and signals another.
#[derive(Clone, Copy, PartialEq, Eq, Structural, Debug)]
pub struct Submission {
    pub wait_semaphore: vk::Semaphore,
    pub wait_dst_stage_mask: u32,
    pub command_buffer: vk::CommandBuffer,
    pub signal_semaphore: vk::Semaphore,
}

/// What the machine asks the caller to issue.
#[derive(Clone, Copy, PartialEq, Eq, Structural, Debug)]
pub enum FrameAction {
    AcquireNextImage { timeout: u64, signal: vk::Semaphore },
    /// Submit the batch without a fence.
    QueueSubmit(Submission),
    QueuePresent { wait: vk::Semaphore, image_index: u32 },
    QueueWaitIdle,
}

/// The semaphore an operation waits for, if any.
pub open spec fn waits_for(action: FrameAction) -> Option<vk::Semaphore> {
    match action {
        FrameAction::AcquireNextImage { .. } => None,
        FrameAction::QueueSubmit(s) => Some(s.wait_semaphore),
        FrameAction::QueuePresent { wait, .. } => Some(wait),
        FrameAction::QueueWaitIdle => None,
    }
}

/// The semaphore an operation signals, if any.
pub open spec fn signals(action: FrameAction) -> Option<vk::Semaphore> {
    match action {
        FrameAction::AcquireNextImage { signal, .. } => Some(signal),
        FrameAction::QueueSubmit(s) => Some(s.signal_semaphore),
        FrameAction::QueuePresent { .. } => None,
        FrameAction::QueueWaitIdle => None,
    }
}

/// The semaphores that are signalled, or will be, and not yet waited for,
/// after `action` was issued with `pending` outstanding.
pub open spec fn pending_after(pending: Set<vk::Semaphore>, action: FrameAction) -> Set<
    vk::Semaphore,
> {
    let waited = match waits_for(action) {
        Some(s) => pending.remove(s),
        None => pending,
    };
    match signals(action) {
        Some(s) => waited.insert(s),
        None => waited,
    }
}

/// Whether `action` may be issued with `pending` outstanding: what it
/// waits for has a signal coming, so the wait ends, and what it signals is
/// not still waiting to be consumed, so no signal is lost.
pub open spec fn may_issue(pending: Set<vk::Semaphore>, action: FrameAction) -> bool {
    let after_wait = match waits_for(action) {
        Some(w) => pending.remove(w),
        None => pending,
    };
    &&& (waits_for(action) matches Some(w) ==> pending.contains(w))
    &&& (signals(action) matches Some(s) ==> !after_wait.contains(s))
}

/// Whether every operation of `actions`, issued in order starting with
/// `pending` outstanding, may be issued when its turn comes.
pub open spec fn well_ordered(pending: Set<vk::Semaphore>, actions: Seq<FrameAction>) -> bool
    decreases actions.len(),
{
    if actions.len() == 0 {
        true
    } else {
        &&& may_issue(pending, actions[0])
        &&& well_ordered(pending_after(pending, actions[0]), actions.subrange(1, actions.len() as int))
    }
}

/// The frame protocol of a renderer: its state, its three semaphores and
/// the command buffers it submits.
#[derive(Clone, PartialEq, Eq, Debug)]
pub struct FrameProtocol {
    pub state: FrameState,
    /// Signalled when the acquired image is ready to be drawn to.
    pub present_complete_semaphore: vk::Semaphore,
    /// Signalled when the offscreen pass has finished.
    pub offscreen_semaphore: vk::Semaphore,
    /// Signalled when the lighting pass has finished.
    pub rendering_complete_semaphore: vk::Semaphore,
    pub off_screen_command_buffer: vk::CommandBuffer,
    /// The draw command buffer of each swapchain image.
    pub draw_command_buffer: Vec<vk::CommandBuffer>,
}

/// The plain view of a frame protocol.
pub struct FrameProtocolView {
    pub state: FrameState,
    pub present_complete_semaphore: vk::Semaphore,
    pub offscreen_semaphore: vk::Semaphore,
    pub rendering_complete_semaphore: vk::Semaphore,
    pub off_screen_command_buffer: vk::CommandBuffer,
    pub draw_command_buffer: Seq<vk::CommandBuffer>,
}

impl FrameProtocolView {
    /// The three semaphores are three different semaphores, and an image
    /// that is being drawn has a draw command buffer.
    pub open spec fn wf(self) -> bool {
        &&& self.present_complete_semaphore != self.offscreen_semaphore
        &&& self.offscreen_semaphore != self.rendering_complete_semaphore
        &&& self.present_complete_semaphore != self.rendering_complete_semaphore
        &&& match self.state {
            FrameState::OffscreenSubmitted(image) => image < self.draw_command_buffer.len(),
            FrameState::MainSubmitted(image) => image < self.draw_command_buffer.len(),
            _ => true,
        }
    }

    pub open spec fn with_state(self, state: FrameState) -> FrameProtocolView {
        FrameProtocolView { state, ..self }
    }

    /// The state the machine moves to on `event`, and the operation it
    /// asks for. An event that does not fit the state changes nothing and
    /// asks for nothing; so does the acquisition of an image that has no
    /// draw command buffer.
    pub open spec fn step(self, event: FrameEvent) -> (FrameState, Option<FrameAction>) {
        match (self.state, event) {
            (FrameState::Idle, FrameEvent::Render) => (
                FrameState::Acquiring,
                Some(
                    FrameAction::AcquireNextImage {
                        timeout: u64::MAX,
                        signal: self.present_complete_semaphore,
                    },
                ),
            ),
            (FrameState::Acquiring, FrameEvent::ImageAcquired(image)) => {
                if image < self.draw_command_buffer.len() {
                    (
                        FrameState::OffscreenSubmitted(image),
                        Some(
                            FrameAction::QueueSubmit(
                                Submission {
                                    wait_semaphore: self.present_complete_semaphore,
                                    wait_dst_stage_mask:
                                        vk::PIPELINE_STAGE_COLOR_ATTACHMENT_OUTPUT_BIT,
                                    command_buffer: self.off_screen_command_buffer,
                                    signal_semaphore: self.offscreen_semaphore,
                                },
                            ),
                        ),
                    )
                } else {
                    (self.state, None)
                }
            },
            (FrameState::OffscreenSubmitted(image), FrameEvent::Completed) => {
                if image < self.draw_command_buffer.len() {
                    (
                        FrameState::MainSubmitted(image),
                        Some(
                            FrameAction::QueueSubmit(
                                Submission {
                                    wait_semaphore: self.offscreen_semaphore,
                                    wait_dst_stage_mask:
                                        vk::PIPELINE_STAGE_COLOR_ATTACHMENT_OUTPUT_BIT,
                                    command_buffer: self.draw_command_buffer[image as int],
                                    signal_semaphore: self.rendering_complete_semaphore,
                                },
                            ),
                        ),
                    )
                } else {
                    (self.state, None)
                }
            },
            (FrameState::MainSubmitted(image), FrameEvent::Completed) => (
                FrameState::Presented,
                Some(
                    FrameAction::QueuePresent {
                        wait: self.rendering_complete_semaphore,
                        image_index: image,
                    },
                ),
            ),
            (FrameState::Presented, FrameEvent::Completed) => (
                FrameState::Idle,
                Some(FrameAction::QueueWaitIdle),
            ),
            _ => (self.state, None),
        }
    }

    /// The semaphores that are outstanding in the machine's state.
    pub open spec fn pending(self) -> Set<vk::Semaphore> {
        match self.state {
            FrameState::Idle => Set::empty(),
            FrameState::Acquiring => set![self.present_complete_semaphore],
            FrameState::OffscreenSubmitted(_) => set![self.offscreen_semaphore],
            FrameState::MainSubmitted(_) => set![self.rendering_complete_semaphore],
            FrameState::Presented => Set::empty(),
        }
    }

    /// The operations the machine asks for when it is fed `events` in
    /// order.
    pub open spec fn trace(self, events: Seq<FrameEvent>) -> Seq<FrameAction>
        decreases events.len(),
    {
        if events.len() == 0 {
            Seq::empty()
        } else {
            let (state, action) = self.step(events[0]);
            let rest = self.with_state(state).trace(events.subrange(1, events.len() as int));
            match action {
                Some(a) => seq![a] + rest,
                None => rest,
            }
        }
    }

    /// The state the machine is in after it was fed `events` in order.
    pub open spec fn run(self, events: Seq<FrameEvent>) -> FrameState
        decreases events.len(),
    {
        if events.len() == 0 {
            self.state
        } else {
            let (state, action) = self.step(events[0]);
            self.with_state(state).run(events.subrange(1, events.len() as int))
        }
    }
}

impl View for FrameProtocol {
    type V = FrameProtocolView;

    open spec fn view(&self) -> FrameProtocolView {
        FrameProtocolView {
            state: self.state,
            present_complete_semaphore: self.present_complete_semaphore,
            offscreen_semaphore: self.offscreen_semaphore,
            rendering_complete_semaphore: self.rendering_complete_semaphore,
            off_screen_command_buffer: self.off_screen_command_buffer,
            draw_command_buffer: self.draw_command_buffer@,
        }
    }
}

/// Every step keeps the machine well formed, and the operation it asks
/// for may be issued: the semaphore it waits for was signalled by the
/// operation before it, and the semaphore it signals is free. The
/// semaphores outstanding afterwards are those of the new state.
pub proof fn lemma_step_is_ordered(p: FrameProtocolView, event: FrameEvent)
    requires
        p.wf(),
    ensures
        p.with_state(p.step(event).0).wf(),
        p.step(event).1 matches Some(action) ==> {
            &&& may_issue(p.pending(), action)
            &&& p.with_state(p.step(event).0).pending() =~= pending_after(p.pending(), action)
        },
        p.step(event).1 is None ==> p.step(event).0 == p.state,
{
}

/// Whatever the caller reports, and in whatever order, the operations the
/// machine asks for are well ordered: `acquired` is signalled before the
/// offscreen submission waits for it, `offscreen_done` before the main
/// submission waits for it, and `render_done` before presentation waits
/// for it; no semaphore is signalled twice without a wait in between.
pub proof fn lemma_trace_is_well_ordered(p: FrameProtocolView, events: Seq<FrameEvent>)
    requires
        p.wf(),
    ensures
        well_ordered(p.pending(), p.trace(events)),
    decreases events.len(),
{
    if events.len() > 0 {
        let (state, action) = p.step(events[0]);
        let next = p.with_state(state);
        let rest_events = events.subrange(1, events.len() as int);
        lemma_step_is_ordered(p, events[0]);
        lemma_trace_is_well_ordered(next, rest_events);
        match action {
            Some(a) => {
                let t = seq![a] + next.trace(rest_events);
                assert(t[0] == a);
                assert(t.subrange(1, t.len() as int) =~= next.trace(rest_events));
            },
            None => {
                assert(next == p);
            },
        }
    }
}

/// The five operations of the frame that acquires image `image`.
pub open spec fn frame_of(p: FrameProtocolView, image: u32) -> Seq<FrameAction> {
    seq![
        FrameAction::AcquireNextImage { timeout: u64::MAX, signal: p.present_complete_semaphore },
        FrameAction::QueueSubmit(
            Submission {
                wait_semaphore: p.present_complete_semaphore,
                wait_dst_stage_mask: vk::PIPELINE_STAGE_COLOR_ATTACHMENT_OUTPUT_BIT,
                command_buffer: p.off_screen_command_buffer,
                signal_semaphore: p.offscreen_semaphore,
            },
        ),
        FrameAction::QueueSubmit(
            Submission {
                wait_semaphore: p.offscreen_semaphore,
                wait_dst_stage_mask: vk::PIPELINE_STAGE_COLOR_ATTACHMENT_OUTPUT_BIT,
                command_buffer: p.draw_command_buffer[image as int],
                signal_semaphore: p.rendering_complete_semaphore,
            },
        ),
        FrameAction::QueuePresent { wait: p.rendering_complete_semaphore, image_index: image },
        FrameAction::QueueWaitIdle,
    ]
}

/// The events of an undisturbed frame that acquires image `image`.
pub open spec fn frame_events(image: u32) -> Seq<FrameEvent> {
    seq![
        FrameEvent::Render,
        FrameEvent::ImageAcquired(image),
        FrameEvent::Completed,
        FrameEvent::Completed,
        FrameEvent::Completed,
    ]
}

/// An undisturbed frame issues exactly the five operations of the
/// protocol, leaves no semaphore outstanding, and ends where it began, so
/// that the next frame can start.
pub proof fn lemma_frame_runs_to_idle(p: FrameProtocolView, image: u32)
    requires
        p.wf(),
        p.state == FrameState::Idle,
        image < p.draw_command_buffer.len(),
    ensures
        p.trace(frame_events(image)) == frame_of(p, image),
        p.run(frame_events(image)) == FrameState::Idle,
        p.with_state(p.run(frame_events(image))).pending() == Set::<vk::Semaphore>::empty(),
{
    let e0 = frame_events(image);
    let acquiring = p.with_state(FrameState::Acquiring);
    let e1 = e0.subrange(1, 5);
    let offscreen = p.with_state(FrameState::OffscreenSubmitted(image));
    let e2 = e1.subrange(1, 4);
    let submitted = p.with_state(FrameState::MainSubmitted(image));
    let e3 = e2.subrange(1, 3);
    let presented = p.with_state(FrameState::Presented);
    let e4 = e3.subrange(1, 2);
    let idle = p.with_state(FrameState::Idle);
    let e5 = e4.subrange(1, 1);
    assert(idle.trace(e5) =~= Seq::<FrameAction>::empty());
    assert(idle.run(e5) == FrameState::Idle);
    assert(presented.with_state(presented.step(e4[0]).0) == idle);
    assert(presented.trace(e4) =~= seq![frame_of(p, image)[4]]);
    assert(presented.run(e4) == FrameState::Idle);
    assert(submitted.with_state(submitted.step(e3[0]).0) == presented);
    assert(submitted.trace(e3) =~= seq![frame_of(p, image)[3], frame_of(p, image)[4]]);
    assert(submitted.run(e3) == FrameState::Idle);
    assert(offscreen.with_state(offscreen.step(e2[0]).0) == submitted);
    assert(offscreen.trace(e2) =~= frame_of(p, image).subrange(2, 5));
    assert(offscreen.run(e2) == FrameState::Idle);
    assert(acquiring.with_state(acquiring.step(e1[0]).0) == offscreen);
    assert(acquiring.trace(e1) =~= frame_of(p, image).subrange(1, 5));
    assert(acquiring.run(e1) == FrameState::Idle);
    assert(p.with_state(p.step(e0[0]).0) == acquiring);
    assert(p.trace(e0) =~= frame_of(p, image));
    assert(p == idle);
}

impl FrameProtocol {
    /// A protocol at rest. Nothing is returned unless the three semaphores
    /// are three different semaphores.
    pub fn new(
        present_complete_semaphore: vk::Semaphore,
        offscreen_semaphore: vk::Semaphore,
        rendering_complete_semaphore: vk::Semaphore,
        off_screen_command_buffer: vk::CommandBuffer,
        draw_command_buffer: Vec<vk::CommandBuffer>,
    ) -> (made: Option<FrameProtocol>)
        ensures
            made is Some <==> present_complete_semaphore != offscreen_semaphore
                && offscreen_semaphore != rendering_complete_semaphore
                && present_complete_semaphore != rendering_complete_semaphore,
            made matches Some(p) ==> p@.wf() && p@ == (FrameProtocolView {
                state: FrameState::Idle,
                present_complete_semaphore,
                offscreen_semaphore,
                rendering_complete_semaphore,
                off_screen_command_buffer,
                draw_command_buffer: draw_command_buffer@,
            }),
    {
        if present_complete_semaphore == offscreen_semaphore || offscreen_semaphore
            == rendering_complete_semaphore || present_complete_semaphore
            == rendering_complete_semaphore {
            return None;
        }
        Some(
            FrameProtocol {
                state: FrameState::Idle,
                present_complete_semaphore,
                offscreen_semaphore,
                rendering_complete_semaphore,
                off_screen_command_buffer,
                draw_command_buffer,
            },
        )
    }

    /// Feeds one event to the machine and returns the operation to issue
    /// next, if the event fits the state.
    pub fn advance(&mut self, event: FrameEvent) -> (action: Option<FrameAction>)
        ensures
            final(self)@ == old(self)@.with_state(old(self)@.step(event).0),
            action == old(self)@.step(event).1,
            old(self)@.wf() ==> final(self)@.wf(),
    {
        match (self.state, event) {
            (FrameState::Idle, FrameEvent::Render) => {
                self.state = FrameState::Acquiring;
                Some(
                    FrameAction::AcquireNextImage {
                        timeout: u64::MAX,
                        signal: self.present_complete_semaphore,
                    },
                )
            },
            (FrameState::Acquiring, FrameEvent::ImageAcquired(image)) => {
                if (image as usize) < self.draw_command_buffer.len() {
                    self.state = FrameState::OffscreenSubmitted(image);
                    Some(
                        FrameAction::QueueSubmit(
                            Submission {
                                wait_semaphore: self.present_complete_semaphore,
                                wait_dst_stage_mask: vk::PIPELINE_STAGE_COLOR_ATTACHMENT_OUTPUT_BIT,
                                command_buffer: self.off_screen_command_buffer,
                                signal_semaphore: self.offscreen_semaphore,
                            },
                        ),
                    )
                } else {
                    None
                }
            },
            (FrameState::OffscreenSubmitted(image), FrameEvent::Completed) => {
                if (image as usize) < self.draw_command_buffer.len() {
                    self.state = FrameState::MainSubmitted(image);
                    Some(
                        FrameAction::QueueSubmit(
                            Submission {
                                wait_semaphore: self.offscreen_semaphore,
                                wait_dst_stage_mask: vk::PIPELINE_STAGE_COLOR_ATTACHMENT_OUTPUT_BIT,
                                command_buffer: self.draw_command_buffer[image as usize],
                                signal_semaphore: self.rendering_complete_semaphore,
                            },
                        ),
                    )
                } else {
                    None
                }
            },
            (FrameState::MainSubmitted(image), FrameEvent::Completed) => {
                self.state = FrameState::Presented;
                Some(
                    FrameAction::QueuePresent {
                        wait: self.rendering_complete_semaphore,
                        image_index: image,
                    },
                )
            },
            (FrameState::Presented, FrameEvent::Completed) => {
                self.state = FrameState::Idle;
                Some(FrameAction::QueueWaitIdle)
            },
            _ => None,
        }
    }
}

} // verus!
