use interop_frame::commands::{
    frame_recording, upload_recording, FrameRing, ACCESS_HOST_WRITE, ACCESS_MEMORY_READ,
    ACCESS_TRANSFER_READ, ACCESS_TRANSFER_WRITE, ACCESS_UNIFORM_READ, ACCESS_VERTEX_ATTRIBUTE_READ,
    IMAGE_LAYOUT_GENERAL, IMAGE_LAYOUT_PREINITIALIZED, STAGE_HOST, STAGE_TRANSFER,
    STAGE_VERTEX_SHADER,
};
use interop_frame::frame::{FrameAction, FrameEvent, FrameLoop, FramePhase};
use interop_frame::layout::buffer_layout;

/// Runs one full iteration from the message pump to the submission.
fn run_frame(l: &mut FrameLoop, index: u32) -> Vec<FrameAction> {
    vec![
        l.step(FrameEvent::MessagesDrained { quit: false }),
        l.step(FrameEvent::FenceStatus { code: 0 }),
        l.step(FrameEvent::HandshakeReady),
        l.step(FrameEvent::Presented),
        l.step(FrameEvent::TimerUpdated),
        l.step(FrameEvent::BackBufferIndex { index }),
        l.step(FrameEvent::Submitted),
    ]
}

#[test]
fn one_frame_goes_through_the_handshake() {
    let mut l = FrameLoop::new(2, false);
    assert_eq!(l.start(), FrameAction::PumpMessages);
    let actions = run_frame(&mut l, 1);
    assert_eq!(
        actions,
        vec![
            FrameAction::PollFence,
            FrameAction::AwaitHandshake,
            FrameAction::PresentAndSignal { fence_value: 1 },
            FrameAction::UpdateTimer { flush_size: None },
            FrameAction::ResetFenceAndQueryIndex,
            FrameAction::Submit { slot: 1 },
            FrameAction::PumpMessages,
        ]
    );
    assert_eq!(l.next_fence_value, 2);
    assert_eq!(l.phase, FramePhase::Pump);
}

#[test]
fn fence_value_advances_once_per_present() {
    let mut l = FrameLoop::new(2, false);
    run_frame(&mut l, 0);
    let actions = run_frame(&mut l, 1);
    assert_eq!(actions[2], FrameAction::PresentAndSignal { fence_value: 2 });
    assert_eq!(l.next_fence_value, 3);
}

#[test]
fn unsignaled_fence_skips_the_frame() {
    let mut l = FrameLoop::new(2, false);
    assert_eq!(l.step(FrameEvent::MessagesDrained { quit: false }), FrameAction::PollFence);
    // VK_NOT_READY
    assert_eq!(l.step(FrameEvent::FenceStatus { code: 1 }), FrameAction::PumpMessages);
    assert_eq!(l.phase, FramePhase::Pump);
    assert_eq!(l.next_fence_value, 1);
}

#[test]
fn held_waitable_blocks_present() {
    let mut l = FrameLoop::new(2, false);
    l.step(FrameEvent::MessagesDrained { quit: false });
    assert_eq!(l.step(FrameEvent::FenceStatus { code: 0 }), FrameAction::AwaitHandshake);
    // while the waitable is held the loop only waits: no present, no fence advance
    assert_eq!(l.phase, FramePhase::AwaitHandshake);
    assert_eq!(l.next_fence_value, 1);
    // an event out of turn does not lead to a present either
    let mut other = FrameLoop::new(2, false);
    other.step(FrameEvent::MessagesDrained { quit: false });
    other.step(FrameEvent::FenceStatus { code: 0 });
    assert_eq!(other.step(FrameEvent::Presented), FrameAction::Abort);
    assert_eq!(other.next_fence_value, 1);
    // upon release exactly one present
    assert_eq!(
        l.step(FrameEvent::HandshakeReady),
        FrameAction::PresentAndSignal { fence_value: 1 }
    );
    assert_eq!(l.step(FrameEvent::Presented), FrameAction::UpdateTimer { flush_size: None });
    assert_eq!(l.next_fence_value, 2);
    assert_eq!(l.step(FrameEvent::TimerUpdated), FrameAction::ResetFenceAndQueryIndex);
}

#[test]
fn non_coherent_staging_flushes_timer_word() {
    let mut l = FrameLoop::new(2, true);
    for k in 0..3u32 {
        let actions = run_frame(&mut l, k % 2);
        let flushes: Vec<&FrameAction> = actions
            .iter()
            .filter(|a| matches!(a, FrameAction::UpdateTimer { .. }))
            .collect();
        assert_eq!(flushes, vec![&FrameAction::UpdateTimer { flush_size: Some(4) }]);
    }
}

#[test]
fn quit_after_submit_shuts_down() {
    let mut l = FrameLoop::new(2, false);
    let actions = run_frame(&mut l, 0);
    assert_eq!(actions.iter().filter(|a| matches!(a, FrameAction::Submit { .. })).count(), 1);
    assert_eq!(l.step(FrameEvent::MessagesDrained { quit: true }), FrameAction::WaitDeviceIdle);
    assert_eq!(l.phase, FramePhase::Draining);
    assert_eq!(l.step(FrameEvent::DeviceIdle), FrameAction::AwaitPresentEvent);
    assert_eq!(l.step(FrameEvent::PresentEventSignaled), FrameAction::Teardown);
    assert!(l.is_stopped());
}

#[test]
fn quit_before_any_frame_shuts_down() {
    let mut l = FrameLoop::new(2, false);
    assert_eq!(l.step(FrameEvent::MessagesDrained { quit: true }), FrameAction::WaitDeviceIdle);
    // teardown waits for the device before the presentation event
    let mut early = FrameLoop::new(2, false);
    early.step(FrameEvent::MessagesDrained { quit: true });
    assert_eq!(early.step(FrameEvent::PresentEventSignaled), FrameAction::Abort);
    assert_eq!(l.step(FrameEvent::DeviceIdle), FrameAction::AwaitPresentEvent);
    assert_eq!(l.step(FrameEvent::PresentEventSignaled), FrameAction::Teardown);
    assert_eq!(l.phase, FramePhase::Stopped);
}

#[test]
fn back_buffer_index_out_of_range_aborts() {
    let mut l = FrameLoop::new(2, false);
    l.step(FrameEvent::MessagesDrained { quit: false });
    l.step(FrameEvent::FenceStatus { code: 0 });
    l.step(FrameEvent::HandshakeReady);
    l.step(FrameEvent::Presented);
    l.step(FrameEvent::TimerUpdated);
    assert_eq!(l.step(FrameEvent::BackBufferIndex { index: 2 }), FrameAction::Abort);
    assert!(l.is_stopped());
}

#[test]
fn event_out_of_turn_aborts() {
    let mut l = FrameLoop::new(2, false);
    assert_eq!(l.step(FrameEvent::Submitted), FrameAction::Abort);
    assert!(l.is_stopped());
    assert_eq!(l.step(FrameEvent::MessagesDrained { quit: false }), FrameAction::Abort);
}

#[test]
fn frame_recording_copies_timer_and_draws_triangle() {
    let layout = buffer_layout();
    let r = frame_recording(1, &layout);
    assert_eq!(r.framebuffer, 1);
    assert_eq!(r.copy_size, 4);
    assert_eq!(r.update_in.size, 4);
    assert_eq!(r.update_in.src_stages, STAGE_HOST | STAGE_VERTEX_SHADER);
    assert_eq!(r.update_in.dst_stages, STAGE_TRANSFER);
    assert_eq!(r.update_in.staging.src, ACCESS_HOST_WRITE);
    assert_eq!(r.update_in.staging.dst, ACCESS_TRANSFER_READ);
    assert_eq!(r.update_in.device.src, ACCESS_UNIFORM_READ);
    assert_eq!(r.update_in.device.dst, ACCESS_TRANSFER_WRITE);
    assert_eq!(r.update_out.staging.src, ACCESS_TRANSFER_READ);
    assert_eq!(r.update_out.staging.dst, ACCESS_HOST_WRITE);
    assert_eq!(r.update_out.device.src, ACCESS_TRANSFER_WRITE);
    assert_eq!(r.update_out.device.dst, ACCESS_UNIFORM_READ);
    assert_eq!(r.update_out.src_stages, STAGE_TRANSFER);
    assert_eq!((r.render_width, r.render_height), (640, 480));
    assert_eq!(r.vertex_offset, 16);
    assert_eq!((r.vertex_count, r.instance_count), (3, 1));
}

#[test]
fn ring_holds_one_recording_per_back_buffer() {
    let layout = buffer_layout();
    let ring = FrameRing::record(&layout);
    assert_eq!(ring.recording(0).framebuffer, 0);
    assert_eq!(ring.recording(1).framebuffer, 1);
    assert_eq!(ring.recording(1), ring.recording(1));
    assert_eq!(ring.recording(0), frame_recording(0, &layout));
}

#[test]
fn upload_copies_whole_buffer_and_moves_images_to_general() {
    let layout = buffer_layout();
    let u = upload_recording(&layout);
    assert_eq!(u.copy_size, 112);
    assert_eq!(u.upload_in.size, 112);
    assert_eq!(u.upload_in.device.src, 0);
    assert_eq!(u.upload_in.device.dst, ACCESS_TRANSFER_WRITE);
    assert_eq!(u.upload_out.device.dst, ACCESS_VERTEX_ATTRIBUTE_READ | ACCESS_UNIFORM_READ);
    assert_eq!(u.upload_out.staging.dst, ACCESS_HOST_WRITE);
    assert_eq!(u.image_access.src, 0);
    assert_eq!(u.image_access.dst, ACCESS_MEMORY_READ);
    assert_eq!(u.image_old_layout, IMAGE_LAYOUT_PREINITIALIZED);
    assert_eq!(u.image_new_layout, IMAGE_LAYOUT_GENERAL);
}
