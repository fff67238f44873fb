use rustvulkan::frame::{FrameAction, FrameEvent, FrameProtocol, FrameState, Submission};
use rustvulkan::vk;

const ACQUIRED: vk::Semaphore = vk::Semaphore(1);
const OFFSCREEN_DONE: vk::Semaphore = vk::Semaphore(2);
const RENDER_DONE: vk::Semaphore = vk::Semaphore(3);
const OFFSCREEN: vk::CommandBuffer = vk::CommandBuffer(10);

fn protocol() -> FrameProtocol {
    FrameProtocol::new(
        ACQUIRED,
        OFFSCREEN_DONE,
        RENDER_DONE,
        OFFSCREEN,
        vec![vk::CommandBuffer(20), vk::CommandBuffer(21), vk::CommandBuffer(22)],
    )
    .unwrap()
}

/// A queue that only records what it is asked to wait for and to signal.
struct MockQueue {
    calls: Vec<(Vec<vk::Semaphore>, Vec<vk::Semaphore>)>,
    signalled: Vec<vk::Semaphore>,
}

impl MockQueue {
    fn new() -> Self {
        MockQueue { calls: Vec::new(), signalled: Vec::new() }
    }

    fn issue(&mut self, action: FrameAction) {
        let (waits, signals) = match action {
            FrameAction::AcquireNextImage { signal, .. } => (vec![], vec![signal]),
            FrameAction::QueueSubmit(s) => (vec![s.wait_semaphore], vec![s.signal_semaphore]),
            FrameAction::QueuePresent { wait, .. } => (vec![wait], vec![]),
            FrameAction::QueueWaitIdle => (vec![], vec![]),
        };
        for wait in &waits {
            let at = self.signalled.iter().position(|s| s == wait);
            assert!(at.is_some(), "wait for {:?} before it was signalled", wait);
            self.signalled.remove(at.unwrap());
        }
        for signal in &signals {
            assert!(!self.signalled.contains(signal), "{:?} signalled twice", signal);
            self.signalled.push(*signal);
        }
        self.calls.push((waits, signals));
    }
}

fn run_frame(p: &mut FrameProtocol, queue: &mut MockQueue, image: u32) -> Vec<FrameAction> {
    let mut actions = Vec::new();
    let events = [
        FrameEvent::Render,
        FrameEvent::ImageAcquired(image),
        FrameEvent::Completed,
        FrameEvent::Completed,
        FrameEvent::Completed,
    ];
    for event in events {
        let action = p.advance(event).unwrap();
        queue.issue(action);
        actions.push(action);
    }
    actions
}

#[test]
fn frame_issues_the_four_operations_and_the_wait_in_order() {
    let mut p = protocol();
    let mut queue = MockQueue::new();
    let actions = run_frame(&mut p, &mut queue, 1);
    let stage = vk::PIPELINE_STAGE_COLOR_ATTACHMENT_OUTPUT_BIT;
    assert_eq!(
        actions,
        vec![
            FrameAction::AcquireNextImage { timeout: u64::MAX, signal: ACQUIRED },
            FrameAction::QueueSubmit(Submission {
                wait_semaphore: ACQUIRED,
                wait_dst_stage_mask: stage,
                command_buffer: OFFSCREEN,
                signal_semaphore: OFFSCREEN_DONE,
            }),
            FrameAction::QueueSubmit(Submission {
                wait_semaphore: OFFSCREEN_DONE,
                wait_dst_stage_mask: stage,
                command_buffer: vk::CommandBuffer(21),
                signal_semaphore: RENDER_DONE,
            }),
            FrameAction::QueuePresent { wait: RENDER_DONE, image_index: 1 },
            FrameAction::QueueWaitIdle,
        ]
    );
    assert_eq!(p.state, FrameState::Idle);
}

#[test]
fn every_wait_follows_its_signal() {
    let mut p = protocol();
    let mut queue = MockQueue::new();
    run_frame(&mut p, &mut queue, 0);
    assert_eq!(
        queue.calls,
        vec![
            (vec![], vec![ACQUIRED]),
            (vec![ACQUIRED], vec![OFFSCREEN_DONE]),
            (vec![OFFSCREEN_DONE], vec![RENDER_DONE]),
            (vec![RENDER_DONE], vec![]),
            (vec![], vec![]),
        ]
    );
    assert!(queue.signalled.is_empty());
}

#[test]
fn frames_can_follow_one_another() {
    let mut p = protocol();
    let mut queue = MockQueue::new();
    for image in [0, 1, 2, 0, 2] {
        let actions = run_frame(&mut p, &mut queue, image);
        match actions[2] {
            FrameAction::QueueSubmit(s) => {
                assert_eq!(s.command_buffer, vk::CommandBuffer(20 + image as u64))
            }
            other => panic!("not a submission: {:?}", other),
        }
        assert!(queue.signalled.is_empty());
    }
    assert_eq!(queue.calls.len(), 25);
}

#[test]
fn states_follow_the_protocol() {
    let mut p = protocol();
    assert_eq!(p.state, FrameState::Idle);
    p.advance(FrameEvent::Render);
    assert_eq!(p.state, FrameState::Acquiring);
    p.advance(FrameEvent::ImageAcquired(2));
    assert_eq!(p.state, FrameState::OffscreenSubmitted(2));
    p.advance(FrameEvent::Completed);
    assert_eq!(p.state, FrameState::MainSubmitted(2));
    p.advance(FrameEvent::Completed);
    assert_eq!(p.state, FrameState::Presented);
    p.advance(FrameEvent::Completed);
    assert_eq!(p.state, FrameState::Idle);
}

#[test]
fn events_that_do_not_fit_change_nothing() {
    let mut p = protocol();
    assert_eq!(p.advance(FrameEvent::Completed), None);
    assert_eq!(p.advance(FrameEvent::ImageAcquired(0)), None);
    assert_eq!(p.state, FrameState::Idle);
    assert!(p.advance(FrameEvent::Render).is_some());
    assert_eq!(p.advance(FrameEvent::Render), None);
    assert_eq!(p.advance(FrameEvent::Completed), None);
    assert_eq!(p.state, FrameState::Acquiring);
    assert!(p.advance(FrameEvent::ImageAcquired(0)).is_some());
    assert_eq!(p.advance(FrameEvent::Render), None);
    assert_eq!(p.advance(FrameEvent::ImageAcquired(1)), None);
    assert_eq!(p.state, FrameState::OffscreenSubmitted(0));
}

#[test]
fn disturbed_frames_stay_well_ordered() {
    let mut p = protocol();
    let mut queue = MockQueue::new();
    let events = [
        FrameEvent::Completed,
        FrameEvent::Render,
        FrameEvent::Render,
        FrameEvent::ImageAcquired(7),
        FrameEvent::Completed,
        FrameEvent::ImageAcquired(2),
        FrameEvent::ImageAcquired(1),
        FrameEvent::Render,
        FrameEvent::Completed,
        FrameEvent::Completed,
        FrameEvent::Render,
        FrameEvent::Completed,
        FrameEvent::Completed,
        FrameEvent::Render,
        FrameEvent::ImageAcquired(0),
    ];
    for event in events {
        if let Some(action) = p.advance(event) {
            queue.issue(action);
        }
    }
    assert_eq!(queue.calls.len(), 7);
    assert_eq!(p.state, FrameState::OffscreenSubmitted(0));
}

#[test]
fn image_without_a_draw_buffer_is_refused() {
    let mut p = protocol();
    p.advance(FrameEvent::Render);
    assert_eq!(p.advance(FrameEvent::ImageAcquired(3)), None);
    assert_eq!(p.advance(FrameEvent::ImageAcquired(u32::MAX)), None);
    assert_eq!(p.state, FrameState::Acquiring);
    assert!(p.advance(FrameEvent::ImageAcquired(2)).is_some());
}

#[test]
fn semaphores_must_be_distinct() {
    let make = |a: u64, b: u64, c: u64| {
        FrameProtocol::new(vk::Semaphore(a), vk::Semaphore(b), vk::Semaphore(c), OFFSCREEN, vec![])
    };
    assert!(make(1, 1, 2).is_none());
    assert!(make(1, 2, 2).is_none());
    assert!(make(1, 2, 1).is_none());
    assert!(make(1, 1, 1).is_none());
    assert!(make(1, 2, 3).is_some());
}
