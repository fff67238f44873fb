use rustvulkan::vk;
use rustvulkan::vk_commands::{
    clear_values, copy_commands, record_off_screen, record_submit_commandbuffer, ClearValue,
    Command, CommandBufferAllocateInfo, CommandPoolCreateInfo, Pool, SubmitStep,
};

fn body() -> Vec<Command> {
    vec![
        Command::BindPipeline(vk::Pipeline(1)),
        Command::SetViewport { width: 4, height: 3 },
        Command::SetScissor(vk::Rect2D {
            offset: vk::Offset2D { x: 0, y: 0 },
            extent: vk::Extent2D { width: 4, height: 3 },
        }),
    ]
}

#[test]
fn one_shot_submission_is_fenced_and_waited_for() {
    let wait_mask = vec![vk::PIPELINE_STAGE_TOP_OF_PIPE_BIT];
    let waits = vec![vk::Semaphore(1)];
    let signals = vec![vk::Semaphore(2), vk::Semaphore(3)];
    let steps = record_submit_commandbuffer(vk::CommandBuffer(9), &wait_mask, &waits, &signals, &body());
    assert_eq!(steps.len(), 6);
    assert_eq!(
        steps[0],
        SubmitStep::ResetCommandBuffer {
            command_buffer: vk::CommandBuffer(9),
            flags: vk::COMMAND_BUFFER_RESET_RELEASE_RESOURCES_BIT,
        }
    );
    match &steps[1] {
        SubmitStep::Record(recording) => {
            assert_eq!(recording.command_buffer, vk::CommandBuffer(9));
            assert_eq!(recording.usage, vk::COMMAND_BUFFER_USAGE_ONE_TIME_SUBMIT_BIT);
            assert_eq!(recording.render_pass_begin, None);
            assert_eq!(recording.commands, body());
        }
        other => panic!("not a recording: {:?}", other),
    }
    assert_eq!(steps[2], SubmitStep::CreateFence);
    match &steps[3] {
        SubmitStep::QueueSubmit(info) => {
            assert_eq!(info.wait_semaphores, waits);
            assert_eq!(info.wait_dst_stage_mask, wait_mask);
            assert_eq!(info.command_buffer, vk::CommandBuffer(9));
            assert_eq!(info.signal_semaphores, signals);
        }
        other => panic!("not a submission: {:?}", other),
    }
    assert_eq!(steps[4], SubmitStep::WaitForFence { timeout: u64::MAX });
    assert_eq!(steps[5], SubmitStep::DestroyFence);
}

#[test]
fn persistent_recording_is_for_simultaneous_use() {
    let recording = record_off_screen(vk::CommandBuffer(4), &body());
    assert_eq!(recording.command_buffer, vk::CommandBuffer(4));
    assert_eq!(recording.usage, vk::COMMAND_BUFFER_USAGE_SIMULTANEOUS_USE_BIT);
    assert_eq!(recording.render_pass_begin, None);
    assert_eq!(recording.commands, body());
    assert!(record_off_screen(vk::CommandBuffer(4), &vec![]).commands.is_empty());
}

#[test]
fn clear_values_end_with_depth() {
    let zero = ClearValue::Color { r: 0, g: 0, b: 0, a: 0 };
    let depth = ClearValue::DepthStencil { depth: 1.0f32.to_bits(), stencil: 0 };
    assert_eq!(clear_values(0), vec![depth]);
    assert_eq!(clear_values(1), vec![zero, depth]);
    assert_eq!(clear_values(3), vec![zero, zero, zero, depth]);
}

#[test]
fn commands_are_copied_faithfully() {
    assert_eq!(copy_commands(&body()), body());
    assert_eq!(copy_commands(&vec![]), vec![]);
}

#[test]
fn pool_serves_the_queue_family_and_resets_buffers_singly() {
    assert_eq!(
        Pool::create_info(2),
        CommandPoolCreateInfo {
            flags: vk::COMMAND_POOL_CREATE_RESET_COMMAND_BUFFER_BIT,
            queue_family_index: 2,
        }
    );
}

#[test]
fn pool_allocates_three_fixed_buffers_and_the_draw_buffers() {
    let (fixed, draw) = Pool::allocate_infos(vk::CommandPool(1), 4);
    assert_eq!(fixed, CommandBufferAllocateInfo { command_pool: vk::CommandPool(1), command_buffer_count: 3 });
    assert_eq!(draw, CommandBufferAllocateInfo { command_pool: vk::CommandPool(1), command_buffer_count: 4 });
}

#[test]
fn pool_names_its_buffers() {
    let fixed = vec![vk::CommandBuffer(1), vk::CommandBuffer(2), vk::CommandBuffer(3)];
    let draw = vec![vk::CommandBuffer(4), vk::CommandBuffer(5)];
    let pool = Pool::assemble(vk::CommandPool(9), 2, &fixed, draw.clone()).unwrap();
    assert_eq!(pool.pool, vk::CommandPool(9));
    assert_eq!(pool.setup_command_buffer, vk::CommandBuffer(1));
    assert_eq!(pool.off_screen_command_buffer, vk::CommandBuffer(2));
    assert_eq!(pool.g_buffer_setup, vk::CommandBuffer(3));
    assert_eq!(pool.draw_command_buffer, draw);
    assert_eq!(pool.release(), vec![vk::Object::CommandPool(vk::CommandPool(9))]);
}

#[test]
fn pool_wants_as_many_buffers_as_it_asked_for() {
    let fixed = vec![vk::CommandBuffer(1), vk::CommandBuffer(2), vk::CommandBuffer(3)];
    let draw = vec![vk::CommandBuffer(4), vk::CommandBuffer(5)];
    assert!(Pool::assemble(vk::CommandPool(9), 3, &fixed, draw.clone()).is_none());
    assert!(Pool::assemble(vk::CommandPool(9), 1, &fixed, draw.clone()).is_none());
    assert!(Pool::assemble(vk::CommandPool(9), 2, &fixed[..2].to_vec(), draw.clone()).is_none());
    let mut four = fixed.clone();
    four.push(vk::CommandBuffer(6));
    assert!(Pool::assemble(vk::CommandPool(9), 2, &four, draw.clone()).is_none());
    assert!(Pool::assemble(vk::CommandPool(9), 0, &fixed, vec![]).is_some());
}
