use nechto::device::{select_physical_device, DeviceSelection, PhysicalDeviceInfo, QueueFamilySupport};
use nechto::error::{recovery_for, GpuError, Recovery, RecoveryTracker};
use nechto::frame::{FramePhase, FrameScheduler, FrameSlot, SubmitInfo, TimelineWait};
use nechto::swapchain::{clamp_extent, Extent2D, ImageView, SurfaceCapabilities, SurfaceFormat, Swapchain};

fn family(graphics: bool, compute: bool, present: bool) -> QueueFamilySupport {
    QueueFamilySupport { graphics, compute, present }
}

fn caps() -> SurfaceCapabilities {
    SurfaceCapabilities {
        min_image_extent: Extent2D { width: 1, height: 1 },
        max_image_extent: Extent2D { width: 4096, height: 4096 },
    }
}

fn format() -> SurfaceFormat {
    SurfaceFormat { format: 43, color_space: 0 }
}

/// A swapchain built once with two images.
fn built_swapchain() -> Swapchain {
    let mut chain = Swapchain::new(format());
    let plan = chain.resize(800, 600, caps()).unwrap();
    assert_eq!(plan.old_swapchain, 0);
    assert!(plan.retired_views.is_empty());
    chain.finish_resize(100, vec![11, 12], vec![21, 22]).unwrap();
    chain
}

fn scheduler() -> FrameScheduler {
    FrameScheduler::new(
        1,
        2,
        3,
        vec![
            FrameSlot { command_buffer: 50, acquire_semaphore: 60 },
            FrameSlot { command_buffer: 51, acquire_semaphore: 61 },
        ],
    )
}

#[test]
fn selects_second_device_when_only_it_qualifies() {
    let devices = vec![
        PhysicalDeviceInfo { queue_families: vec![family(true, true, false), family(false, true, true)] },
        PhysicalDeviceInfo { queue_families: vec![family(true, false, true), family(true, true, true)] },
    ];
    assert_eq!(
        select_physical_device(&devices),
        Ok(DeviceSelection { device_index: 1, queue_family_index: 1 })
    );
}

#[test]
fn selects_first_qualifying_device_and_its_last_family() {
    let devices = vec![
        PhysicalDeviceInfo { queue_families: vec![family(true, true, true), family(false, false, true), family(true, true, true)] },
        PhysicalDeviceInfo { queue_families: vec![family(true, true, true)] },
    ];
    assert_eq!(
        select_physical_device(&devices),
        Ok(DeviceSelection { device_index: 0, queue_family_index: 2 })
    );
}

#[test]
fn no_suitable_device() {
    let devices = vec![
        PhysicalDeviceInfo { queue_families: vec![] },
        PhysicalDeviceInfo { queue_families: vec![family(true, true, false)] },
    ];
    assert_eq!(select_physical_device(&devices), Err(GpuError::NoSuitableDevice));
    assert_eq!(select_physical_device(&vec![]), Err(GpuError::NoSuitableDevice));
}

#[test]
fn clamps_extent_to_surface_limits() {
    let c = SurfaceCapabilities {
        min_image_extent: Extent2D { width: 100, height: 100 },
        max_image_extent: Extent2D { width: 1920, height: 1080 },
    };
    assert_eq!(clamp_extent(Extent2D { width: 50, height: 5000 }, c), Extent2D { width: 100, height: 1080 });
    assert_eq!(clamp_extent(Extent2D { width: 640, height: 480 }, c), Extent2D { width: 640, height: 480 });
}

#[test]
fn zero_sized_resizes_change_nothing() {
    let mut chain = built_swapchain();
    for (w, h) in [(0, 600), (800, 0), (0, 0)] {
        assert!(chain.resize(w, h, caps()).is_none());
    }
    assert_eq!(chain.raw(), 100);
    assert_eq!(chain.image_count(), 2);
    assert_eq!(chain.image_view(0), ImageView { raw: 21, generation: 1 });
    assert_eq!(chain.image_view(1), ImageView { raw: 22, generation: 1 });
    assert_eq!(chain.extent(), Extent2D { width: 800, height: 600 });
    assert!(!chain.is_rebuilding());
}

#[test]
fn resize_retires_views_and_rebuild_replaces_every_view() {
    let mut chain = built_swapchain();
    let before = [chain.image_view(0), chain.image_view(1)];
    let plan = chain.resize(5000, 700, caps()).unwrap();
    assert_eq!(plan.extent, Extent2D { width: 4096, height: 700 });
    assert_eq!(plan.old_swapchain, 100);
    assert_eq!(plan.format, format());
    assert_eq!(plan.retired_views, before.to_vec());
    assert!(chain.is_rebuilding());
    // the driver may hand back the very same raw view handles
    chain.finish_resize(101, vec![11, 12], vec![21, 22]).unwrap();
    assert_eq!(chain.image_count(), 2);
    assert_eq!(chain.raw(), 101);
    assert_eq!(chain.extent(), Extent2D { width: 4096, height: 700 });
    for i in 0..2 {
        assert_ne!(chain.image_view(i), before[i]);
        assert_eq!(chain.image_view(i).generation, 2);
    }
}

#[test]
fn rebuild_with_other_image_count_is_refused() {
    let mut chain = built_swapchain();
    chain.resize(640, 480, caps()).unwrap();
    assert_eq!(chain.finish_resize(102, vec![1, 2, 3], vec![4, 5, 6]), Err(GpuError::CreationFailure));
    assert_eq!(chain.raw(), 102);
    assert_eq!(chain.image_count(), 0);
}

#[test]
fn first_build_needs_two_images_with_views() {
    let mut chain = Swapchain::new(format());
    chain.resize(10, 10, caps()).unwrap();
    assert_eq!(chain.finish_resize(7, vec![1], vec![2]), Err(GpuError::CreationFailure));
    let mut chain = Swapchain::new(format());
    chain.resize(10, 10, caps()).unwrap();
    assert_eq!(chain.finish_resize(7, vec![1, 2], vec![3]), Err(GpuError::CreationFailure));
}

#[test]
fn two_frames_end_to_end() {
    let chain = built_swapchain();
    let mut s = scheduler();
    assert_eq!(s.progress(), 0);

    // frame 1
    assert_eq!(s.acquire_semaphore(), 3);
    let frame = s.begin_frame(Ok(0), &chain).unwrap();
    assert_eq!(frame.index, 0);
    assert_eq!(frame.image, 11);
    assert_eq!(frame.image_view, ImageView { raw: 21, generation: 1 });
    assert_eq!(frame.command_buffer, 50);
    assert_eq!(frame.acquire_semaphore, 3);
    assert_eq!(frame.capacity_wait, TimelineWait { semaphore: 1, value: 0 });
    assert_eq!(s.acquire_semaphore(), 60);
    assert_eq!(s.start_recording(Ok(0)), Ok(()));
    assert_eq!(s.phase(), FramePhase::Recording(0));
    let submit = s.end_frame();
    assert_eq!(
        submit,
        SubmitInfo {
            command_buffer: 50,
            wait_semaphore: 3,
            timeline_semaphore: 1,
            signal_value: 1,
            present_semaphore: 2,
            image_index: 0,
        }
    );
    s.finish_present();
    assert_eq!(s.progress(), 1);

    // frame 2: reuse is held back until the host sees progress 1
    let frame = s.begin_frame(Ok(1), &chain).unwrap();
    assert_eq!(frame.capacity_wait, TimelineWait { semaphore: 1, value: 1 });
    assert_eq!(frame.acquire_semaphore, 60);
    assert_eq!(s.start_recording(Ok(0)), Err(GpuError::Timeout));
    assert_eq!(s.phase(), FramePhase::Acquired(1));
    assert_eq!(s.start_recording(Ok(1)), Ok(()));
    let submit = s.end_frame();
    assert_eq!(submit.signal_value, 2);
    assert_eq!(submit.command_buffer, 51);
    assert_eq!(submit.image_index, 1);
    s.finish_present();
    assert_eq!(s.progress(), 2);
    assert_eq!(s.phase(), FramePhase::Idle);
}

#[test]
fn acquire_errors_leave_scheduler_idle() {
    let chain = built_swapchain();
    let mut s = scheduler();
    assert_eq!(s.begin_frame(Err(GpuError::SwapchainOutOfDate), &chain), Err(GpuError::SwapchainOutOfDate));
    assert_eq!(s.begin_frame(Ok(2), &chain), Err(GpuError::SwapchainOutOfDate));
    assert_eq!(s.phase(), FramePhase::Idle);
    assert_eq!(s.acquire_semaphore(), 3);
}

#[test]
fn acquire_during_pending_rebuild_is_out_of_date() {
    let mut chain = built_swapchain();
    chain.resize(300, 300, caps()).unwrap();
    let mut s = scheduler();
    assert_eq!(s.begin_frame(Ok(0), &chain), Err(GpuError::SwapchainOutOfDate));
}

#[test]
fn wait_error_is_handed_back() {
    let chain = built_swapchain();
    let mut s = scheduler();
    s.begin_frame(Ok(0), &chain).unwrap();
    assert_eq!(s.start_recording(Err(GpuError::DeviceLost)), Err(GpuError::DeviceLost));
    assert_eq!(s.phase(), FramePhase::Acquired(0));
}

#[test]
fn semaphores_rotate_between_slots() {
    let chain = built_swapchain();
    let mut s = scheduler();
    for expected in [3, 60, 3] {
        let frame = s.begin_frame(Ok(0), &chain).unwrap();
        assert_eq!(frame.acquire_semaphore, expected);
        s.start_recording(Ok(s.progress())).unwrap();
        let submit = s.end_frame();
        assert_eq!(submit.wait_semaphore, expected);
        s.finish_present();
    }
    assert_eq!(s.progress(), 3);
}

#[test]
fn recovery_policy() {
    assert_eq!(recovery_for(GpuError::SwapchainOutOfDate, 0), Recovery::RebuildSwapchain);
    assert_eq!(recovery_for(GpuError::SwapchainSuboptimal, 0), Recovery::RebuildSwapchain);
    assert_eq!(recovery_for(GpuError::SwapchainOutOfDate, 1), Recovery::Fatal);
    assert_eq!(recovery_for(GpuError::DeviceLost, 0), Recovery::Fatal);
    assert_eq!(recovery_for(GpuError::Timeout, 0), Recovery::Fatal);
    assert_eq!(recovery_for(GpuError::CreationFailure, 0), Recovery::Fatal);
}

#[test]
fn only_one_slot_records_at_a_time() {
    let chain = built_swapchain();
    let mut s = scheduler();
    s.begin_frame(Ok(1), &chain).unwrap();
    assert_eq!(s.phase(), FramePhase::Acquired(1));
    s.start_recording(Ok(0)).unwrap();
    let recording: Vec<usize> = (0..s.slot_count())
        .filter(|&i| s.phase() == FramePhase::Recording(i))
        .collect();
    assert_eq!(recording, vec![1]);
    s.end_frame();
    assert_eq!(s.phase(), FramePhase::Submitted(1));
    s.finish_present();
    let recording = (0..s.slot_count()).filter(|&i| s.phase() == FramePhase::Recording(i)).count();
    assert_eq!(recording, 0);
}

#[test]
fn recovery_tracker_allows_one_rebuild_in_a_row() {
    let mut t = RecoveryTracker::new();
    assert_eq!(t.on_failure(GpuError::SwapchainOutOfDate), Recovery::RebuildSwapchain);
    assert_eq!(t.on_failure(GpuError::SwapchainSuboptimal), Recovery::Fatal);
    t.on_success();
    assert_eq!(t.on_failure(GpuError::SwapchainSuboptimal), Recovery::RebuildSwapchain);
    t.on_success();
    assert_eq!(t.on_failure(GpuError::DeviceLost), Recovery::Fatal);
}
