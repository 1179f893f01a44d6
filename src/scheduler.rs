use vstd::prelude::*;

verus! {

/// The outcome of waiting, with a bounded timeout, on one or more fences.
#[derive(Clone, Copy, Debug, PartialEq, Eq, Structural)]
pub enum FenceStatus {
    Signaled,
    TimedOut,
}

/// The outcome of asking the swapchain for its next image.
#[derive(Clone, Copy, Debug, PartialEq, Eq, Structural)]
pub enum AcquireResult {
    Acquired(u32),
    Suboptimal,
    OutOfDate,
    TimedOut,
}

/// The outcome of presenting an image.
#[derive(Clone, Copy, Debug, PartialEq, Eq, Structural)]
pub enum PresentResult {
    Presented,
    Suboptimal,
    OutOfDate,
}

#[derive(Clone, Copy, Debug, PartialEq, Eq, Structural)]
pub enum FrameError {
    /// The swapchain must be rebuilt before a frame can begin.
    SwapchainOutOfDate,
    /// A fence or the image acquisition did not finish in time.
    Timeout,
    /// Shutdown was requested; no frame begins any more.
    ShuttingDown,
    /// A frame has begun and has not ended yet.
    FrameInProgress,
    /// The handle is not that of the frame in progress.
    NoFrameInProgress,
}

/// The frame being recorded: the slot it uses and the image it draws to.
#[derive(Clone, Copy, Debug, PartialEq, Eq, Structural)]
pub struct FrameHandle {
    pub slot: usize,
    pub image_index: u32,
}

/// What to do after a fence or acquire wait timed out.
#[derive(Clone, Copy, Debug, PartialEq, Eq, Structural)]
pub enum TimeoutAction {
    /// Try the frame once more.
    Retry,
    /// The device is presumed lost: give up.
    Fatal,
}

/// A timeout is retried once; one that follows another is fatal.
pub fn timeout_action(consecutive_timeouts: u32) -> (r: TimeoutAction)
    ensures
        consecutive_timeouts <= 1 <==> r == TimeoutAction::Retry,
{
    if consecutive_timeouts <= 1 {
        TimeoutAction::Retry
    } else {
        TimeoutAction::Fatal
    }
}

/// The commands recorded for a frame, aimed at the frame's swap image. No
/// rendering is defined yet, so a recording holds no commands: it is begun
/// and ended around nothing and submitted as such.
#[derive(Clone, Copy, Debug, PartialEq, Eq, Structural)]
pub struct CommandRecording {
    pub slot: usize,
    pub image_index: u32,
    pub command_count: usize,
}

/// Records the commands of frame `h`.
pub fn record(h: FrameHandle) -> (r: CommandRecording)
    ensures
        r.slot == h.slot,
        r.image_index == h.image_index,
        r.command_count == 0,
{
    CommandRecording { slot: h.slot, image_index: h.image_index, command_count: 0 }
}

/// The scheduler as a mathematical value.
pub struct SchedulerModel {
    /// Per frame slot: work was submitted with the slot's fence and the fence
    /// has not been seen signaled since.
    pub pending: Seq<bool>,
    /// The slot the next frame uses.
    pub current: int,
    /// The number of images of the swapchain frames draw to.
    pub image_count: int,
    /// The swapchain no longer matches the surface.
    pub stale: bool,
    pub shutting_down: bool,
    pub active: Option<FrameHandle>,
}

pub open spec fn model_wf(s: SchedulerModel) -> bool {
    &&& 0 < s.pending.len() <= usize::MAX
    &&& 0 <= s.current < s.pending.len()
    &&& s.active matches Some(h) ==> h.slot == s.current && h.image_index < s.image_count
}

/// Ready to render: frames may begin without a rebuild.
pub open spec fn ready(s: SchedulerModel) -> bool {
    &&& model_wf(s)
    &&& !s.stale
    &&& !s.shutting_down
    &&& s.active is None
}

/// `beginFrame`: the new state and the result, given the outcome of waiting
/// on the slot's fence (only consulted when work is pending on it) and of
/// acquiring an image.
pub open spec fn begin_spec(s: SchedulerModel, fence: FenceStatus, acquire: AcquireResult) -> (
    SchedulerModel,
    Result<FrameHandle, FrameError>,
) {
    if s.shutting_down {
        (s, Err(FrameError::ShuttingDown))
    } else if s.active is Some {
        (s, Err(FrameError::FrameInProgress))
    } else if s.stale {
        (s, Err(FrameError::SwapchainOutOfDate))
    } else if s.pending[s.current] && fence == FenceStatus::TimedOut {
        (s, Err(FrameError::Timeout))
    } else {
        let s1 = SchedulerModel { pending: s.pending.update(s.current, false), ..s };
        match acquire {
            AcquireResult::Acquired(i) => if i < s.image_count {
                let h = FrameHandle { slot: s.current as usize, image_index: i };
                (SchedulerModel { active: Some(h), ..s1 }, Ok(h))
            } else {
                (SchedulerModel { stale: true, ..s1 }, Err(FrameError::SwapchainOutOfDate))
            },
            AcquireResult::TimedOut => (s1, Err(FrameError::Timeout)),
            _ => (SchedulerModel { stale: true, ..s1 }, Err(FrameError::SwapchainOutOfDate)),
        }
    }
}

/// `endFrame`: the frame was submitted with its slot's fence and presented;
/// the present result is handed back, and schedules a rebuild unless the
/// image was presented as is.
pub open spec fn end_spec(s: SchedulerModel, h: FrameHandle, present: PresentResult) -> (
    SchedulerModel,
    Result<PresentResult, FrameError>,
) {
    if s.active != Some(h) {
        (s, Err(FrameError::NoFrameInProgress))
    } else {
        (
            SchedulerModel {
                pending: s.pending.update(h.slot as int, true),
                current: next_slot(s),
                stale: s.stale || present != PresentResult::Presented,
                active: None,
                ..s
            },
            Ok(present),
        )
    }
}

/// The slot after the current one, round robin.
pub open spec fn next_slot(s: SchedulerModel) -> int {
    if s.current + 1 == s.pending.len() {
        0
    } else {
        s.current + 1
    }
}

pub open spec fn resize_spec(s: SchedulerModel) -> SchedulerModel {
    SchedulerModel { stale: true, ..s }
}

pub open spec fn all_idle(n: nat) -> Seq<bool> {
    Seq::new(n, |i: int| false)
}

/// The swapchain was rebuilt with `image_count` images, after waiting on
/// every slot's fence.
pub open spec fn rebuilt_spec(s: SchedulerModel, drained: FenceStatus, image_count: u32) -> (
    SchedulerModel,
    Result<(), FrameError>,
) {
    if s.shutting_down {
        (s, Err(FrameError::ShuttingDown))
    } else if s.active is Some {
        (s, Err(FrameError::FrameInProgress))
    } else if drained == FenceStatus::TimedOut {
        (s, Err(FrameError::Timeout))
    } else {
        (
            SchedulerModel {
                pending: all_idle(s.pending.len()),
                image_count: image_count as int,
                stale: false,
                ..s
            },
            Ok(()),
        )
    }
}

/// Shutdown abandons the frame in progress, waits on every slot's fence and
/// refuses new frames from then on.
pub open spec fn shutdown_spec(s: SchedulerModel, drained: FenceStatus) -> (
    SchedulerModel,
    Result<(), FrameError>,
) {
    if s.shutting_down {
        (s, Err(FrameError::ShuttingDown))
    } else if drained == FenceStatus::TimedOut {
        (SchedulerModel { shutting_down: true, active: None, ..s }, Err(FrameError::Timeout))
    } else {
        (
            SchedulerModel {
                pending: all_idle(s.pending.len()),
                shutting_down: true,
                active: None,
                ..s
            },
            Ok(()),
        )
    }
}

/// Owns the frame slots and their bookkeeping, and orders
/// acquire, record, submit and present.
#[derive(Debug)]
pub struct FrameScheduler {
    pending: Vec<bool>,
    current: usize,
    image_count: u32,
    stale: bool,
    shutting_down: bool,
    active: Option<FrameHandle>,
}

impl View for FrameScheduler {
    type V = SchedulerModel;

    closed spec fn view(&self) -> SchedulerModel {
        SchedulerModel {
            pending: self.pending@,
            current: self.current as int,
            image_count: self.image_count as int,
            stale: self.stale,
            shutting_down: self.shutting_down,
            active: self.active,
        }
    }
}

/// The in-flight depth used when none is given.
pub const DEFAULT_DEPTH: usize = 2;

impl FrameScheduler {
    /// A scheduler with `depth` frame slots, none of them in use, and no
    /// swapchain yet: frames begin only after the first rebuild.
    pub fn new(depth: usize) -> (r: Option<FrameScheduler>)
        ensures
            r is None <==> depth == 0,
            r matches Some(s) ==> {
                &&& model_wf(s@)
                &&& s@.pending == all_idle(depth as nat)
                &&& s@.current == 0
                &&& s@.image_count == 0
                &&& s@.stale
                &&& !s@.shutting_down
                &&& s@.active is None
            },
    {
        if depth == 0 {
            return None;
        }
        let mut pending: Vec<bool> = Vec::new();
        let mut i: usize = 0;
        while i < depth
            invariant
                i <= depth,
                pending@ == all_idle(i as nat),
            decreases depth - i,
        {
            pending.push(false);
            i = i + 1;
            proof {
                assert(pending@ =~= all_idle(i as nat));
            }
        }
        Some(
            FrameScheduler {
                pending,
                current: 0,
                image_count: 0,
                stale: true,
                shutting_down: false,
                active: None,
            },
        )
    }

    pub fn depth(&self) -> (r: usize)
        ensures
            r == self@.pending.len(),
    {
        self.pending.len()
    }

    /// The slot the next frame uses, whose fence `begin_frame` waits on.
    pub fn current_slot(&self) -> (r: usize)
        ensures
            r == self@.current,
    {
        self.current
    }

    /// Whether work is pending on the next frame's slot, so that its fence
    /// must be waited on before the frame begins.
    pub fn must_wait(&self) -> (r: bool)
        requires
            model_wf(self@),
        ensures
            r == self@.pending[self@.current],
    {
        self.pending[self.current]
    }

    pub fn is_out_of_date(&self) -> (r: bool)
        ensures
            r == self@.stale,
    {
        self.stale
    }

    pub fn is_shutting_down(&self) -> (r: bool)
        ensures
            r == self@.shutting_down,
    {
        self.shutting_down
    }

    fn clear_pending(&mut self)
        requires
            old(self)@.pending.len() > 0,
        ensures
            final(self)@ == (SchedulerModel {
                pending: all_idle(old(self)@.pending.len()),
                ..old(self)@
            }),
    {
        let n = self.pending.len();
        let mut i: usize = 0;
        while i < n
            invariant
                n == self.pending@.len(),
                n == old(self)@.pending.len(),
                i <= n,
                forall|j: int| 0 <= j < i ==> !self.pending@[j],
                self.current == old(self).current,
                self.image_count == old(self).image_count,
                self.stale == old(self).stale,
                self.shutting_down == old(self).shutting_down,
                self.active == old(self).active,
            decreases n - i,
        {
            self.pending.set(i, false);
            i = i + 1;
        }
        proof {
            assert(self.pending@ =~= all_idle(n as nat));
        }
    }

    /// Begins a frame. `fence` is the outcome of waiting on the current
    /// slot's fence, `acquire` that of acquiring the next image with the
    /// slot's image-available signal.
    pub fn begin_frame(&mut self, fence: FenceStatus, acquire: AcquireResult) -> (r: Result<
        FrameHandle,
        FrameError,
    >)
        requires
            model_wf(old(self)@),
        ensures
            model_wf(final(self)@),
            (final(self)@, r) == begin_spec(old(self)@, fence, acquire),
    {
        if self.shutting_down {
            return Err(FrameError::ShuttingDown);
        }
        if self.active.is_some() {
            return Err(FrameError::FrameInProgress);
        }
        if self.stale {
            return Err(FrameError::SwapchainOutOfDate);
        }
        if self.pending[self.current] && fence == FenceStatus::TimedOut {
            return Err(FrameError::Timeout);
        }
        self.pending.set(self.current, false);
        match acquire {
            AcquireResult::Acquired(i) => {
                if i < self.image_count {
                    let h = FrameHandle { slot: self.current, image_index: i };
                    self.active = Some(h);
                    Ok(h)
                } else {
                    self.stale = true;
                    Err(FrameError::SwapchainOutOfDate)
                }
            },
            AcquireResult::TimedOut => Err(FrameError::Timeout),
            _ => {
                self.stale = true;
                Err(FrameError::SwapchainOutOfDate)
            },
        }
    }

    /// Ends the frame `h`: its command buffer was submitted with the slot's
    /// fence and the image presented with outcome `present`, which is
    /// reported back.
    pub fn end_frame(&mut self, h: FrameHandle, present: PresentResult) -> (r: Result<
        PresentResult,
        FrameError,
    >)
        requires
            model_wf(old(self)@),
        ensures
            model_wf(final(self)@),
            (final(self)@, r) == end_spec(old(self)@, h, present),
    {
        match self.active {
            Some(a) => {
                if a != h {
                    return Err(FrameError::NoFrameInProgress);
                }
            },
            None => {
                return Err(FrameError::NoFrameInProgress);
            },
        }
        self.pending.set(h.slot, true);
        self.current = if self.current == self.pending.len() - 1 {
            0
        } else {
            self.current + 1
        };
        if present != PresentResult::Presented {
            self.stale = true;
        }
        self.active = None;
        Ok(present)
    }

    /// The window was resized: the swapchain has to be rebuilt.
    pub fn notify_resize(&mut self)
        requires
            model_wf(old(self)@),
        ensures
            model_wf(final(self)@),
            final(self)@ == resize_spec(old(self)@),
    {
        self.stale = true;
    }

    /// Records that the swapchain was rebuilt with `image_count` images;
    /// `drained` is the outcome of waiting on every slot's fence first.
    pub fn swapchain_rebuilt(&mut self, drained: FenceStatus, image_count: u32) -> (r: Result<
        (),
        FrameError,
    >)
        requires
            model_wf(old(self)@),
        ensures
            model_wf(final(self)@),
            (final(self)@, r) == rebuilt_spec(old(self)@, drained, image_count),
    {
        if self.shutting_down {
            return Err(FrameError::ShuttingDown);
        }
        if self.active.is_some() {
            return Err(FrameError::FrameInProgress);
        }
        if drained == FenceStatus::TimedOut {
            return Err(FrameError::Timeout);
        }
        self.clear_pending();
        self.image_count = image_count;
        self.stale = false;
        Ok(())
    }

    /// Stops the scheduler; `drained` is the outcome of waiting on every
    /// slot's fence after abandoning the frame in progress.
    pub fn request_shutdown(&mut self, drained: FenceStatus) -> (r: Result<(), FrameError>)
        requires
            model_wf(old(self)@),
        ensures
            model_wf(final(self)@),
            (final(self)@, r) == shutdown_spec(old(self)@, drained),
    {
        if self.shutting_down {
            return Err(FrameError::ShuttingDown);
        }
        self.shutting_down = true;
        self.active = None;
        if drained == FenceStatus::TimedOut {
            return Err(FrameError::Timeout);
        }
        self.clear_pending();
        Ok(())
    }
}

/// The number of successful presentations when, for each entry of `images`,
/// a frame begins (its fence signaled in time, that image acquired) and ends
/// with the image presented.
pub open spec fn presentations(s: SchedulerModel, images: Seq<u32>) -> nat
    decreases images.len(),
{
    if images.len() == 0 {
        0
    } else {
        let (s1, b) = begin_spec(s, FenceStatus::Signaled, AcquireResult::Acquired(images[0]));
        match b {
            Ok(h) => {
                let (s2, e) = end_spec(s1, h, PresentResult::Presented);
                (if e is Ok {
                    1nat
                } else {
                    0nat
                }) + presentations(s2, images.drop_first())
            },
            Err(_) => presentations(s1, images.drop_first()),
        }
    }
}

proof fn lemma_frames_from_ready(s: SchedulerModel, images: Seq<u32>)
    requires
        ready(s),
        forall|k: int| 0 <= k < images.len() ==> (#[trigger] images[k] as int) < s.image_count,
    ensures
        presentations(s, images) == images.len(),
    decreases images.len(),
{
    if images.len() > 0 {
        let (s1, b) = begin_spec(s, FenceStatus::Signaled, AcquireResult::Acquired(images[0]));
        assert(images[0] < s.image_count);
        let h = b->Ok_0;
        let (s2, e) = end_spec(s1, h, PresentResult::Presented);
        let rest = images.drop_first();
        assert forall|k: int| 0 <= k < rest.len() implies (#[trigger] rest[k] as int)
            < s2.image_count by {
            assert(rest[k] == images[k + 1]);
        }
        lemma_frames_from_ready(s2, rest);
    }
}

/// After a successful rebuild, beginning and ending N frames, each with its
/// fence signaled in time, an image of the new swapchain acquired and the
/// image presented, yields exactly N presentations.
pub proof fn lemma_rebuild_then_frames(s: SchedulerModel, image_count: u32, images: Seq<u32>)
    requires
        model_wf(s),
        !s.shutting_down,
        s.active is None,
        forall|k: int| 0 <= k < images.len() ==> #[trigger] images[k] < image_count,
    ensures
        rebuilt_spec(s, FenceStatus::Signaled, image_count).1 is Ok,
        presentations(rebuilt_spec(s, FenceStatus::Signaled, image_count).0, images)
            == images.len(),
{
    lemma_frames_from_ready(rebuilt_spec(s, FenceStatus::Signaled, image_count).0, images);
}

/// A frame slot on which work is pending is never given to a new frame
/// unless its fence was seen signaled.
pub proof fn lemma_slot_reuse_waits_for_fence(
    s: SchedulerModel,
    fence: FenceStatus,
    acquire: AcquireResult,
)
    requires
        model_wf(s),
    ensures
        begin_spec(s, fence, acquire).1 matches Ok(h) ==> h.slot == s.current && (
        s.pending[s.current] ==> fence == FenceStatus::Signaled),
{
}

/// After a resize and before a rebuild, beginning a frame reports that the
/// swapchain is out of date and changes nothing, whatever the fence and the
/// acquisition would have said.
pub proof fn lemma_resize_then_begin(s: SchedulerModel, fence: FenceStatus, acquire: AcquireResult)
    requires
        model_wf(s),
        !s.shutting_down,
        s.active is None,
    ensures
        begin_spec(resize_spec(s), fence, acquire) == (
            resize_spec(s),
            Err::<FrameHandle, FrameError>(FrameError::SwapchainOutOfDate),
        ),
{
}

} // verus!
