use slang_viewer::frame::FrameSync;

#[test]
fn frame_start_uses_fence_and_acquire_semaphore() {
    let sync = FrameSync::new(5, vec![10, 11, 12], 7);
    let start = sync.start();
    assert_eq!((start.fence, start.acquire_signal), (7, 5));
}

#[test]
fn frame_finish_wires_semaphores_of_acquired_image() {
    let sync = FrameSync::new(5, vec![10, 11, 12], 7);
    let finish = sync.finish(2, 0x400);
    let s = finish.submission;
    assert_eq!((s.wait_semaphore, s.wait_stage, s.signal_semaphore, s.fence), (5, 0x400, 12, 7));
    assert_eq!(finish.presentation.wait_semaphore, 12);
    assert_eq!(finish.presentation.image_index, 2);
}

#[test]
fn each_image_has_its_own_semaphore() {
    let sync = FrameSync::new(1, vec![20, 21], 2);
    let a = sync.finish(0, 0x1000);
    let b = sync.finish(1, 0x1000);
    assert_ne!(a.submission.signal_semaphore, b.submission.signal_semaphore);
    assert_eq!(a.presentation.wait_semaphore, a.submission.signal_semaphore);
    assert_eq!(b.presentation.wait_semaphore, b.submission.signal_semaphore);
}
