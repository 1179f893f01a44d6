use vk_lifecycle::{
    build, choose_extent, choose_image_count, choose_present_mode, choose_surface_format,
    first_family, plan_instance, select_accelerator, AcquireResult, Accelerator, AcceleratorKind,
    ApiVersion, ContextState, DeviceContext, DeviceError, Extent, FenceStatus, FrameError,
    FrameHandle, FrameScheduler, InstanceExtension, Lifecycle, LifecycleError, PresentError,
    PresentMode, PresentResult, QueueFamily, Selection, SurfaceCapabilities, SurfaceFormat,
    TeardownStep, DEFAULT_DEPTH, record, timeout_action, CommandRecording, TimeoutAction,
};

fn fam(graphics: bool, present: bool) -> QueueFamily {
    QueueFamily { graphics, present }
}

fn acc(kind: AcceleratorKind, fams: Vec<QueueFamily>) -> Accelerator {
    Accelerator { kind, queue_families: fams }
}

fn caps(min: u32, max: u32) -> SurfaceCapabilities {
    SurfaceCapabilities {
        min_image_count: min,
        max_image_count: max,
        min_extent: Extent { width: 1, height: 1 },
        max_extent: Extent { width: 4096, height: 4096 },
    }
}

fn srgb() -> SurfaceFormat {
    SurfaceFormat { format: 50, color_space: 0 }
}

fn one_gpu() -> Vec<Accelerator> {
    vec![acc(AcceleratorKind::Discrete, vec![fam(true, true)])]
}

fn ready_lifecycle(depth: usize) -> Lifecycle {
    let mut l = Lifecycle::create(true, &one_gpu(), depth).unwrap();
    let sc = l
        .rebuild(
            true,
            &caps(2, 3),
            &vec![srgb()],
            &vec![PresentMode::Fifo],
            3,
            Extent { width: 1024, height: 780 },
            FenceStatus::Signaled,
        )
        .unwrap();
    assert_eq!(sc.image_count, 3);
    l
}

#[test]
fn portability_enabled_from_threshold_on() {
    let p = plan_instance(true, ApiVersion::new(1, 3, 216));
    assert!(p.enumerate_portability);
    assert_eq!(
        p.extra_extensions,
        vec![InstanceExtension::GetPhysicalDeviceProperties2, InstanceExtension::PortabilityEnumeration]
    );
    assert!(plan_instance(true, ApiVersion::new(2, 0, 0)).enumerate_portability);
}

#[test]
fn portability_not_enabled_below_threshold_or_elsewhere() {
    let below = plan_instance(true, ApiVersion::new(1, 3, 215));
    assert!(!below.enumerate_portability);
    assert!(below.extra_extensions.is_empty());
    assert!(!plan_instance(true, ApiVersion::new(1, 2, 300)).enumerate_portability);
    let other = plan_instance(false, ApiVersion::new(1, 4, 0));
    assert!(!other.enumerate_portability);
    assert!(other.extra_extensions.is_empty());
}

#[test]
fn version_order_is_lexicographic() {
    assert!(ApiVersion::new(1, 3, 216).at_least(&ApiVersion::new(1, 3, 216)));
    assert!(ApiVersion::new(1, 4, 0).at_least(&ApiVersion::new(1, 3, 216)));
    assert!(!ApiVersion::new(0, 9, 999).at_least(&ApiVersion::new(1, 0, 0)));
}

#[test]
fn first_family_needs_graphics_and_present() {
    assert_eq!(first_family(&vec![fam(true, false), fam(false, true), fam(true, true)]), Some(2));
    assert_eq!(first_family(&vec![fam(true, false), fam(false, true)]), None);
    assert_eq!(first_family(&vec![]), None);
}

#[test]
fn discrete_preferred_over_integrated() {
    let accs = vec![
        acc(AcceleratorKind::Integrated, vec![fam(true, true)]),
        acc(AcceleratorKind::Discrete, vec![fam(true, false), fam(true, true)]),
        acc(AcceleratorKind::Discrete, vec![fam(true, true)]),
    ];
    assert_eq!(select_accelerator(&accs), Ok(Selection { accelerator: 1, queue_family: 1 }));
}

#[test]
fn accelerator_without_present_is_never_chosen() {
    let accs = vec![
        acc(AcceleratorKind::Discrete, vec![fam(true, false)]),
        acc(AcceleratorKind::Cpu, vec![fam(true, true)]),
    ];
    assert_eq!(select_accelerator(&accs), Ok(Selection { accelerator: 1, queue_family: 0 }));
    let none = vec![acc(AcceleratorKind::Discrete, vec![fam(true, false), fam(false, true)])];
    assert_eq!(select_accelerator(&none), Err(DeviceError::NoSuitableAccelerator));
    assert_eq!(select_accelerator(&vec![]), Err(DeviceError::NoSuitableAccelerator));
}

#[test]
fn context_initializes_once_and_shuts_down_once() {
    let mut ctx = DeviceContext::new();
    let sel = ctx.initialize(true, &one_gpu()).unwrap();
    assert_eq!(ctx.state(), ContextState::Ready(sel));
    assert_eq!(ctx.initialize(true, &one_gpu()), Err(DeviceError::AlreadyInitialized));
    assert_eq!(
        ctx.shutdown(),
        Ok(vec![TeardownStep::WaitIdle, TeardownStep::DestroyDevice, TeardownStep::DestroyInstance])
    );
    assert_eq!(ctx.state(), ContextState::ShutDown);
    assert_eq!(ctx.shutdown(), Err(DeviceError::DoubleDestroy));
}

#[test]
fn context_without_suitable_accelerator_stays_uninitialized() {
    let mut ctx = DeviceContext::new();
    let accs = vec![acc(AcceleratorKind::Integrated, vec![fam(false, true)])];
    assert_eq!(ctx.initialize(true, &accs), Err(DeviceError::NoSuitableAccelerator));
    assert_eq!(ctx.state(), ContextState::Uninitialized);
}

#[test]
fn surface_format_prefers_srgb_pair() {
    let other = SurfaceFormat { format: 44, color_space: 0 };
    assert_eq!(choose_surface_format(&vec![other, srgb()]), Some(srgb()));
    let wrong_space = SurfaceFormat { format: 50, color_space: 1 };
    assert_eq!(choose_surface_format(&vec![wrong_space, other]), Some(wrong_space));
    assert_eq!(choose_surface_format(&vec![]), None);
}

#[test]
fn present_mode_prefers_mailbox() {
    assert_eq!(choose_present_mode(&vec![PresentMode::Fifo, PresentMode::Mailbox]), PresentMode::Mailbox);
    assert_eq!(choose_present_mode(&vec![PresentMode::Immediate]), PresentMode::Fifo);
    assert_eq!(choose_present_mode(&vec![]), PresentMode::Fifo);
}

#[test]
fn image_count_is_clamped() {
    assert_eq!(choose_image_count(1, &caps(2, 8)), 2);
    assert_eq!(choose_image_count(10, &caps(2, 8)), 8);
    assert_eq!(choose_image_count(3, &caps(2, 8)), 3);
    assert_eq!(choose_image_count(100, &caps(2, 0)), 100);
    assert_eq!(choose_image_count(0, &caps(3, 0)), 3);
}

#[test]
fn image_count_within_bounds_for_every_request() {
    for min in 1..5u32 {
        for max in [0u32, min, min + 1, 8] {
            for desired in 0..12u32 {
                let n = choose_image_count(desired, &caps(min, max));
                assert!(n >= min);
                if max != 0 {
                    assert!(n <= max);
                }
            }
        }
    }
}

#[test]
fn extent_is_clamped_per_dimension() {
    let c = SurfaceCapabilities {
        min_image_count: 2,
        max_image_count: 3,
        min_extent: Extent { width: 100, height: 100 },
        max_extent: Extent { width: 800, height: 600 },
    };
    assert_eq!(choose_extent(Extent { width: 1024, height: 50 }, &c), Extent { width: 800, height: 100 });
    assert_eq!(choose_extent(Extent { width: 640, height: 480 }, &c), Extent { width: 640, height: 480 });
}

#[test]
fn build_refuses_lost_surface_zero_extent_and_no_format() {
    let e = Extent { width: 1024, height: 780 };
    let modes = vec![PresentMode::Mailbox];
    assert_eq!(build(false, &caps(2, 3), &vec![srgb()], &modes, 3, e), Err(PresentError::SurfaceLost));
    assert_eq!(
        build(true, &caps(2, 3), &vec![srgb()], &modes, 3, Extent { width: 0, height: 0 }),
        Err(PresentError::ZeroExtent)
    );
    assert_eq!(build(true, &caps(2, 3), &vec![], &modes, 3, e), Err(PresentError::FormatUnsupported));
    let sc = build(true, &caps(2, 3), &vec![srgb()], &modes, 5, e).unwrap();
    assert_eq!(sc.image_count, 3);
    assert_eq!(sc.extent, e);
    assert_eq!(sc.format, srgb());
    assert_eq!(sc.present_mode, PresentMode::Mailbox);
}

#[test]
fn scheduler_needs_a_slot_and_a_rebuild() {
    assert!(FrameScheduler::new(0).is_none());
    let mut s = FrameScheduler::new(DEFAULT_DEPTH).unwrap();
    assert_eq!(s.depth(), 2);
    assert!(s.is_out_of_date());
    assert_eq!(
        s.begin_frame(FenceStatus::Signaled, AcquireResult::Acquired(0)),
        Err(FrameError::SwapchainOutOfDate)
    );
}

#[test]
fn rebuild_then_n_frames_present_n_times() {
    let mut s = FrameScheduler::new(2).unwrap();
    assert_eq!(s.swapchain_rebuilt(FenceStatus::Signaled, 3), Ok(()));
    let mut presented = 0;
    for n in 0..7u32 {
        let slot = s.current_slot();
        assert_eq!(slot, (n % 2) as usize);
        assert_eq!(s.must_wait(), n >= 2);
        let h = s.begin_frame(FenceStatus::Signaled, AcquireResult::Acquired(n % 3)).unwrap();
        assert_eq!(h, FrameHandle { slot, image_index: n % 3 });
        if s.end_frame(h, PresentResult::Presented) == Ok(PresentResult::Presented) {
            presented += 1;
        }
    }
    assert_eq!(presented, 7);
}

#[test]
fn pending_slot_is_not_reused_when_fence_times_out() {
    let mut s = FrameScheduler::new(1).unwrap();
    s.swapchain_rebuilt(FenceStatus::Signaled, 2).unwrap();
    let h = s.begin_frame(FenceStatus::TimedOut, AcquireResult::Acquired(0)).unwrap();
    s.end_frame(h, PresentResult::Presented).unwrap();
    assert!(s.must_wait());
    assert_eq!(s.begin_frame(FenceStatus::TimedOut, AcquireResult::Acquired(1)), Err(FrameError::Timeout));
    assert!(s.must_wait());
    assert!(s.begin_frame(FenceStatus::Signaled, AcquireResult::Acquired(1)).is_ok());
}

#[test]
fn resize_before_rebuild_is_out_of_date() {
    let mut s = FrameScheduler::new(2).unwrap();
    s.swapchain_rebuilt(FenceStatus::Signaled, 3).unwrap();
    s.notify_resize();
    for _ in 0..3 {
        assert_eq!(
            s.begin_frame(FenceStatus::Signaled, AcquireResult::Acquired(0)),
            Err(FrameError::SwapchainOutOfDate)
        );
    }
    s.swapchain_rebuilt(FenceStatus::Signaled, 3).unwrap();
    assert!(s.begin_frame(FenceStatus::Signaled, AcquireResult::Acquired(0)).is_ok());
}

#[test]
fn acquire_outcomes() {
    let mut s = FrameScheduler::new(2).unwrap();
    s.swapchain_rebuilt(FenceStatus::Signaled, 3).unwrap();
    assert_eq!(s.begin_frame(FenceStatus::Signaled, AcquireResult::TimedOut), Err(FrameError::Timeout));
    assert!(!s.is_out_of_date());
    assert_eq!(
        s.begin_frame(FenceStatus::Signaled, AcquireResult::Suboptimal),
        Err(FrameError::SwapchainOutOfDate)
    );
    assert!(s.is_out_of_date());
    s.swapchain_rebuilt(FenceStatus::Signaled, 3).unwrap();
    assert_eq!(
        s.begin_frame(FenceStatus::Signaled, AcquireResult::Acquired(3)),
        Err(FrameError::SwapchainOutOfDate)
    );
    s.swapchain_rebuilt(FenceStatus::Signaled, 3).unwrap();
    assert_eq!(
        s.begin_frame(FenceStatus::Signaled, AcquireResult::OutOfDate),
        Err(FrameError::SwapchainOutOfDate)
    );
}

#[test]
fn frame_misuse_is_refused() {
    let mut s = FrameScheduler::new(2).unwrap();
    s.swapchain_rebuilt(FenceStatus::Signaled, 3).unwrap();
    let h = s.begin_frame(FenceStatus::Signaled, AcquireResult::Acquired(0)).unwrap();
    assert_eq!(s.begin_frame(FenceStatus::Signaled, AcquireResult::Acquired(1)), Err(FrameError::FrameInProgress));
    assert_eq!(s.swapchain_rebuilt(FenceStatus::Signaled, 3), Err(FrameError::FrameInProgress));
    let other = FrameHandle { slot: 1, image_index: 0 };
    assert_eq!(s.end_frame(other, PresentResult::Presented), Err(FrameError::NoFrameInProgress));
    assert_eq!(s.end_frame(h, PresentResult::Suboptimal), Ok(PresentResult::Suboptimal));
    assert!(s.is_out_of_date());
    assert_eq!(s.end_frame(h, PresentResult::Presented), Err(FrameError::NoFrameInProgress));
}

#[test]
fn shutdown_refuses_new_frames() {
    let mut s = FrameScheduler::new(2).unwrap();
    s.swapchain_rebuilt(FenceStatus::Signaled, 3).unwrap();
    let _h = s.begin_frame(FenceStatus::Signaled, AcquireResult::Acquired(0)).unwrap();
    assert_eq!(s.request_shutdown(FenceStatus::Signaled), Ok(()));
    assert!(s.is_shutting_down());
    assert_eq!(s.begin_frame(FenceStatus::Signaled, AcquireResult::Acquired(0)), Err(FrameError::ShuttingDown));
    assert_eq!(s.request_shutdown(FenceStatus::Signaled), Err(FrameError::ShuttingDown));
}

#[test]
fn lifecycle_create_errors() {
    assert_eq!(Lifecycle::create(true, &one_gpu(), 0).err(), Some(LifecycleError::ZeroDepth));
    let none = vec![acc(AcceleratorKind::Discrete, vec![fam(true, false)])];
    assert_eq!(
        Lifecycle::create(true, &none, 2).err(),
        Some(LifecycleError::Device(DeviceError::NoSuitableAccelerator))
    );
    let l = Lifecycle::create(true, &one_gpu(), 2).unwrap();
    assert!(l.swapchain().is_none());
    assert!(l.is_out_of_date());
}

#[test]
fn minimized_window_keeps_frames_out_of_date() {
    let mut l = ready_lifecycle(2);
    let h = l.begin_frame(FenceStatus::Signaled, AcquireResult::Acquired(0)).unwrap();
    assert_eq!(l.end_frame(h, PresentResult::Presented), Ok(PresentResult::Presented));
    l.resize();
    for _ in 0..3 {
        assert_eq!(
            l.rebuild(
                true,
                &caps(2, 3),
                &vec![srgb()],
                &vec![PresentMode::Fifo],
                3,
                Extent { width: 0, height: 0 },
                FenceStatus::Signaled,
            ),
            Err(LifecycleError::Present(PresentError::ZeroExtent))
        );
        assert_eq!(
            l.begin_frame(FenceStatus::Signaled, AcquireResult::Acquired(0)),
            Err(FrameError::SwapchainOutOfDate)
        );
    }
    let sc = l
        .rebuild(
            true,
            &caps(2, 3),
            &vec![srgb()],
            &vec![PresentMode::Fifo],
            3,
            Extent { width: 1024, height: 780 },
            FenceStatus::Signaled,
        )
        .unwrap();
    assert_eq!(sc.extent, Extent { width: 1024, height: 780 });
    assert!(l.begin_frame(FenceStatus::Signaled, AcquireResult::Acquired(1)).is_ok());
}

#[test]
fn lost_surface_is_fatal() {
    let mut l = ready_lifecycle(2);
    l.resize();
    let e = Extent { width: 800, height: 600 };
    assert_eq!(
        l.rebuild(false, &caps(2, 3), &vec![srgb()], &vec![], 3, e, FenceStatus::Signaled),
        Err(LifecycleError::Present(PresentError::SurfaceLost))
    );
    assert_eq!(
        l.rebuild(true, &caps(2, 3), &vec![srgb()], &vec![], 3, e, FenceStatus::Signaled),
        Err(LifecycleError::Present(PresentError::SurfaceLost))
    );
}

#[test]
fn drain_timeout_blocks_rebuild() {
    let mut l = ready_lifecycle(2);
    l.resize();
    let e = Extent { width: 800, height: 600 };
    assert_eq!(
        l.rebuild(true, &caps(2, 3), &vec![srgb()], &vec![], 3, e, FenceStatus::TimedOut),
        Err(LifecycleError::Frame(FrameError::Timeout))
    );
    assert!(l.is_out_of_date());
}

#[test]
fn destroy_once_then_double_destroy() {
    let mut l = ready_lifecycle(2);
    assert_eq!(
        l.destroy(FenceStatus::Signaled),
        Ok(vec![
            TeardownStep::WaitIdle,
            TeardownStep::DestroyFrameSlots,
            TeardownStep::DestroySwapchain,
            TeardownStep::DestroyDevice,
            TeardownStep::DestroyInstance,
        ])
    );
    assert!(l.swapchain().is_none());
    assert_eq!(l.destroy(FenceStatus::Signaled), Err(LifecycleError::Device(DeviceError::DoubleDestroy)));
    assert_eq!(
        l.begin_frame(FenceStatus::Signaled, AcquireResult::Acquired(0)),
        Err(FrameError::ShuttingDown)
    );
}

#[test]
fn destroy_without_swapchain() {
    let mut l = Lifecycle::create(true, &one_gpu(), 2).unwrap();
    assert_eq!(
        l.destroy(FenceStatus::TimedOut),
        Ok(vec![
            TeardownStep::WaitIdle,
            TeardownStep::DestroyFrameSlots,
            TeardownStep::DestroyDevice,
            TeardownStep::DestroyInstance,
        ])
    );
}

#[test]
fn timeout_retried_once_then_fatal() {
    assert_eq!(timeout_action(0), TimeoutAction::Retry);
    assert_eq!(timeout_action(1), TimeoutAction::Retry);
    assert_eq!(timeout_action(2), TimeoutAction::Fatal);
    assert_eq!(timeout_action(u32::MAX), TimeoutAction::Fatal);
}

#[test]
fn recording_targets_the_frame_image_and_is_empty() {
    let h = FrameHandle { slot: 1, image_index: 2 };
    assert_eq!(record(h), CommandRecording { slot: 1, image_index: 2, command_count: 0 });
}

#[test]
fn instance_creation_failure_is_reported() {
    let mut ctx = DeviceContext::new();
    assert_eq!(ctx.initialize(false, &one_gpu()), Err(DeviceError::InstanceCreationFailed));
    assert_eq!(ctx.state(), ContextState::Uninitialized);
    assert_eq!(
        Lifecycle::create(false, &one_gpu(), 2).err(),
        Some(LifecycleError::Device(DeviceError::InstanceCreationFailed))
    );
}
