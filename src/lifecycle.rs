use vstd::prelude::*;
use crate::device::{
    any_suitable, is_best, live_handles, Accelerator, ContextState, DeviceContext, DeviceError,
    TeardownStep,
};
use crate::scheduler::{
    all_idle, begin_spec, end_spec, model_wf, rebuilt_spec, resize_spec, shutdown_spec,
    AcquireResult, FenceStatus, FrameError, FrameHandle, FrameScheduler, PresentResult,
    SchedulerModel,
};
use crate::swapchain::{
    build, build_spec, is_zero, Extent, PresentError, PresentMode, SurfaceCapabilities,
    SurfaceFormat, SwapchainState,
};

verus! {

#[derive(Clone, Copy, Debug, PartialEq, Eq, Structural)]
pub enum LifecycleError {
    Device(DeviceError),
    Present(PresentError),
    Frame(FrameError),
    /// A frame scheduler needs at least one frame slot.
    ZeroDepth,
}

/// The whole lifecycle as a mathematical value.
pub struct LifecycleModel {
    pub context: ContextState,
    pub swapchain: Option<SwapchainState>,
    pub surface_lost: bool,
    pub scheduler: SchedulerModel,
}

pub open spec fn lifecycle_wf(l: LifecycleModel) -> bool {
    &&& model_wf(l.scheduler)
    &&& !(l.context is Uninitialized)
    &&& l.context is ShutDown ==> l.swapchain is None && l.scheduler.shutting_down
}

/// Rebuilding the swapchain: the presentation engine decides its shape, then
/// the scheduler takes it over. A lost surface stays lost.
pub open spec fn rebuild_spec(
    l: LifecycleModel,
    surface_alive: bool,
    caps: SurfaceCapabilities,
    formats: Seq<SurfaceFormat>,
    modes: Seq<PresentMode>,
    desired_count: u32,
    extent: Extent,
    drained: FenceStatus,
) -> (LifecycleModel, Result<SwapchainState, LifecycleError>) {
    if l.surface_lost {
        (l, Err(LifecycleError::Present(PresentError::SurfaceLost)))
    } else {
        match build_spec(surface_alive, caps, formats, modes, desired_count, extent) {
            Err(e) => (
                LifecycleModel { surface_lost: e == PresentError::SurfaceLost, ..l },
                Err(LifecycleError::Present(e)),
            ),
            Ok(sc) => {
                let (s2, r) = rebuilt_spec(l.scheduler, drained, sc.image_count);
                match r {
                    Ok(_) => (LifecycleModel { swapchain: Some(sc), scheduler: s2, ..l }, Ok(sc)),
                    Err(fe) => (LifecycleModel { scheduler: s2, ..l }, Err(LifecycleError::Frame(fe))),
                }
            },
        }
    }
}

/// The order in which everything is destroyed: wait for idle queues, then
/// the frame slots, the swapchain if there is one, the device, the instance.
pub open spec fn lifecycle_teardown(had_swapchain: bool) -> Seq<TeardownStep> {
    if had_swapchain {
        seq![
            TeardownStep::WaitIdle,
            TeardownStep::DestroyFrameSlots,
            TeardownStep::DestroySwapchain,
            TeardownStep::DestroyDevice,
            TeardownStep::DestroyInstance,
        ]
    } else {
        seq![
            TeardownStep::WaitIdle,
            TeardownStep::DestroyFrameSlots,
            TeardownStep::DestroyDevice,
            TeardownStep::DestroyInstance,
        ]
    }
}

pub open spec fn destroy_spec(l: LifecycleModel, drained: FenceStatus) -> (
    LifecycleModel,
    Result<Seq<TeardownStep>, LifecycleError>,
) {
    if l.context == ContextState::ShutDown {
        (l, Err(LifecycleError::Device(DeviceError::DoubleDestroy)))
    } else {
        (
            LifecycleModel {
                context: ContextState::ShutDown,
                swapchain: None,
                scheduler: shutdown_spec(l.scheduler, drained).0,
                ..l
            },
            Ok(lifecycle_teardown(l.swapchain is Some)),
        )
    }
}

/// Device context, presentation engine and frame scheduler, owned together.
#[derive(Debug)]
pub struct Lifecycle {
    context: DeviceContext,
    swapchain: Option<SwapchainState>,
    surface_lost: bool,
    scheduler: FrameScheduler,
}

impl View for Lifecycle {
    type V = LifecycleModel;

    closed spec fn view(&self) -> LifecycleModel {
        LifecycleModel {
            context: self.context.view_state(),
            swapchain: self.swapchain,
            surface_lost: self.surface_lost,
            scheduler: self.scheduler@,
        }
    }
}

impl Lifecycle {
    /// Initializes the device context (`instance_created` is whether the API
    /// instance could be created) on the best suitable accelerator and
    /// sets up `depth` frame slots. No swapchain exists yet: the first frame
    /// needs a rebuild.
    pub fn create(instance_created: bool, accs: &Vec<Accelerator>, depth: usize) -> (r: Result<
        Lifecycle,
        LifecycleError,
    >)
        ensures
            depth == 0 ==> r == Err::<Lifecycle, LifecycleError>(LifecycleError::ZeroDepth),
            depth > 0 && !instance_created ==> r == Err::<Lifecycle, LifecycleError>(
                LifecycleError::Device(DeviceError::InstanceCreationFailed),
            ),
            depth > 0 && instance_created && !any_suitable(accs@) ==> r == Err::<
                Lifecycle,
                LifecycleError,
            >(LifecycleError::Device(DeviceError::NoSuitableAccelerator)),
            depth > 0 && instance_created && any_suitable(accs@) ==> r is Ok,
            r matches Ok(l) ==> {
                &&& lifecycle_wf(l@)
                &&& l@.context matches ContextState::Ready(s) && is_best(accs@, s)
                &&& l@.swapchain is None
                &&& !l@.surface_lost
                &&& l@.scheduler.pending == all_idle(depth as nat)
                &&& l@.scheduler.current == 0
                &&& l@.scheduler.stale
                &&& !l@.scheduler.shutting_down
                &&& l@.scheduler.active is None
            },
    {
        let scheduler = match FrameScheduler::new(depth) {
            Some(s) => s,
            None => {
                return Err(LifecycleError::ZeroDepth);
            },
        };
        let mut context = DeviceContext::new();
        match context.initialize(instance_created, accs) {
            Ok(_) => {},
            Err(e) => {
                return Err(LifecycleError::Device(e));
            },
        }
        Ok(Lifecycle { context, swapchain: None, surface_lost: false, scheduler })
    }

    /// The swapchain frames draw to, if one was built.
    pub fn swapchain(&self) -> (r: Option<SwapchainState>)
        ensures
            r == self@.swapchain,
    {
        self.swapchain
    }

    /// The slot of the next frame, whose fence must be waited on when
    /// `must_wait` says so.
    pub fn current_slot(&self) -> (r: usize)
        ensures
            r == self@.scheduler.current,
    {
        self.scheduler.current_slot()
    }

    pub fn must_wait(&self) -> (r: bool)
        requires
            lifecycle_wf(self@),
        ensures
            r == self@.scheduler.pending[self@.scheduler.current],
    {
        self.scheduler.must_wait()
    }

    pub fn is_out_of_date(&self) -> (r: bool)
        ensures
            r == self@.scheduler.stale,
    {
        self.scheduler.is_out_of_date()
    }

    /// The surface was resized; frames are refused until a rebuild.
    pub fn resize(&mut self)
        requires
            lifecycle_wf(old(self)@),
        ensures
            lifecycle_wf(final(self)@),
            final(self)@ == (LifecycleModel { scheduler: resize_spec(old(self)@.scheduler), ..old(self)@ }),
    {
        self.scheduler.notify_resize();
    }

    /// Rebuilds the swapchain for the surface as it is now. `drained` is the
    /// outcome of waiting on every frame slot's fence, which must come before
    /// the old swap images are destroyed.
    pub fn rebuild(
        &mut self,
        surface_alive: bool,
        caps: &SurfaceCapabilities,
        formats: &Vec<SurfaceFormat>,
        modes: &Vec<PresentMode>,
        desired_count: u32,
        extent: Extent,
        drained: FenceStatus,
    ) -> (r: Result<SwapchainState, LifecycleError>)
        requires
            lifecycle_wf(old(self)@),
        ensures
            lifecycle_wf(final(self)@),
            (final(self)@, r) == rebuild_spec(
                old(self)@,
                surface_alive,
                *caps,
                formats@,
                modes@,
                desired_count,
                extent,
                drained,
            ),
    {
        if self.surface_lost {
            return Err(LifecycleError::Present(PresentError::SurfaceLost));
        }
        match build(surface_alive, caps, formats, modes, desired_count, extent) {
            Err(e) => {
                self.surface_lost = e == PresentError::SurfaceLost;
                Err(LifecycleError::Present(e))
            },
            Ok(sc) => match self.scheduler.swapchain_rebuilt(drained, sc.image_count) {
                Ok(_) => {
                    self.swapchain = Some(sc);
                    Ok(sc)
                },
                Err(fe) => Err(LifecycleError::Frame(fe)),
            },
        }
    }

    pub fn begin_frame(&mut self, fence: FenceStatus, acquire: AcquireResult) -> (r: Result<
        FrameHandle,
        FrameError,
    >)
        requires
            lifecycle_wf(old(self)@),
        ensures
            lifecycle_wf(final(self)@),
            (final(self)@.scheduler, r) == begin_spec(old(self)@.scheduler, fence, acquire),
            final(self)@ == (LifecycleModel { scheduler: final(self)@.scheduler, ..old(self)@ }),
    {
        self.scheduler.begin_frame(fence, acquire)
    }

    pub fn end_frame(&mut self, h: FrameHandle, present: PresentResult) -> (r: Result<
        PresentResult,
        FrameError,
    >)
        requires
            lifecycle_wf(old(self)@),
        ensures
            lifecycle_wf(final(self)@),
            (final(self)@.scheduler, r) == end_spec(old(self)@.scheduler, h, present),
            final(self)@ == (LifecycleModel { scheduler: final(self)@.scheduler, ..old(self)@ }),
    {
        self.scheduler.end_frame(h, present)
    }

    /// Stops frames and returns the teardown to run, in order. `drained` is
    /// the outcome of waiting on every frame slot's fence.
    pub fn destroy(&mut self, drained: FenceStatus) -> (r: Result<Vec<TeardownStep>, LifecycleError>)
        requires
            lifecycle_wf(old(self)@),
        ensures
            lifecycle_wf(final(self)@),
            final(self)@ == destroy_spec(old(self)@, drained).0,
            r matches Ok(steps) ==> destroy_spec(old(self)@, drained).1 == Ok::<
                Seq<TeardownStep>,
                LifecycleError,
            >(steps@),
            r matches Err(e) ==> destroy_spec(old(self)@, drained).1 == Err::<
                Seq<TeardownStep>,
                LifecycleError,
            >(e),
    {
        match self.context.state() {
            ContextState::ShutDown => {
                return Err(LifecycleError::Device(DeviceError::DoubleDestroy));
            },
            _ => {},
        }
        let _ = self.scheduler.request_shutdown(drained);
        let _ = self.context.shutdown();
        let had_swapchain = self.swapchain.is_some();
        self.swapchain = None;
        let mut steps: Vec<TeardownStep> = Vec::new();
        steps.push(TeardownStep::WaitIdle);
        steps.push(TeardownStep::DestroyFrameSlots);
        if had_swapchain {
            steps.push(TeardownStep::DestroySwapchain);
        }
        steps.push(TeardownStep::DestroyDevice);
        steps.push(TeardownStep::DestroyInstance);
        assert(steps@ =~= lifecycle_teardown(had_swapchain));
        Ok(steps)
    }
}

/// Destroying once leaves no GPU handle alive and no swapchain; destroying
/// again is refused as a double destroy and changes nothing.
pub proof fn lemma_destroy_once(l: LifecycleModel, first: FenceStatus, second: FenceStatus)
    requires
        lifecycle_wf(l),
    ensures
        destroy_spec(l, first).1 is Ok <==> l.context != ContextState::ShutDown,
        live_handles(destroy_spec(l, first).0.context) == 0,
        destroy_spec(l, first).0.swapchain is None,
        destroy_spec(destroy_spec(l, first).0, second) == (
            destroy_spec(l, first).0,
            Err::<Seq<TeardownStep>, LifecycleError>(
                LifecycleError::Device(DeviceError::DoubleDestroy),
            ),
        ),
{
}

/// While the surface has no area, a rebuild is refused and changes nothing,
/// and frames keep being refused as out of date; once the surface has an
/// area again (and offers a format), the rebuild succeeds and frames may
/// begin.
pub proof fn lemma_minimized_until_restored(
    l: LifecycleModel,
    caps: SurfaceCapabilities,
    formats: Seq<SurfaceFormat>,
    modes: Seq<PresentMode>,
    desired_count: u32,
    extent: Extent,
    drained: FenceStatus,
    fence: FenceStatus,
    acquire: AcquireResult,
)
    requires
        lifecycle_wf(l),
        !l.surface_lost,
        l.scheduler.stale,
        !l.scheduler.shutting_down,
        l.scheduler.active is None,
    ensures
        is_zero(extent) ==> rebuild_spec(l, true, caps, formats, modes, desired_count, extent, drained)
            == (l, Err::<SwapchainState, LifecycleError>(
            LifecycleError::Present(PresentError::ZeroExtent),
        )),
        is_zero(extent) ==> begin_spec(l.scheduler, fence, acquire) == (
            l.scheduler,
            Err::<FrameHandle, FrameError>(FrameError::SwapchainOutOfDate),
        ),
        !is_zero(extent) && formats.len() > 0 ==> {
            let (l2, r) = rebuild_spec(
                l,
                true,
                caps,
                formats,
                modes,
                desired_count,
                extent,
                FenceStatus::Signaled,
            );
            &&& r is Ok
            &&& !l2.scheduler.stale
            &&& l2.scheduler.active is None
            &&& !l2.scheduler.shutting_down
        },
{
}

} // verus!
