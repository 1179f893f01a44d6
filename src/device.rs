use vstd::prelude::*;

verus! {

/// The class of an accelerator, as the API reports it.
#[derive(Clone, Copy, Debug, PartialEq, Eq, Structural)]
pub enum AcceleratorKind {
    Discrete,
    Integrated,
    Virtual,
    Cpu,
    Other,
}

/// What one queue family of an accelerator can do; `present` is measured
/// against the surface that will be drawn to.
#[derive(Clone, Copy, Debug, PartialEq, Eq, Structural)]
pub struct QueueFamily {
    pub graphics: bool,
    pub present: bool,
}

/// The immutable description of one available accelerator.
#[derive(Clone, Debug)]
pub struct Accelerator {
    pub kind: AcceleratorKind,
    pub queue_families: Vec<QueueFamily>,
}

/// The accelerator and queue family chosen at startup.
#[derive(Clone, Copy, Debug, PartialEq, Eq, Structural)]
pub struct Selection {
    pub accelerator: usize,
    pub queue_family: usize,
}

#[derive(Clone, Copy, Debug, PartialEq, Eq, Structural)]
pub enum DeviceError {
    NoSuitableAccelerator,
    InstanceCreationFailed,
    AlreadyInitialized,
    DoubleDestroy,
}

/// One step of tearing the device context down, in the order it must run.
#[derive(Clone, Copy, Debug, PartialEq, Eq, Structural)]
pub enum TeardownStep {
    /// Wait until every queue has finished its submitted work.
    WaitIdle,
    /// Destroy the frame slots' command buffers, signals and fences.
    DestroyFrameSlots,
    /// Destroy the swap images' views and the swapchain.
    DestroySwapchain,
    DestroyDevice,
    DestroyInstance,
}

pub open spec fn family_ok(f: QueueFamily) -> bool {
    f.graphics && f.present
}

/// Discrete accelerators are preferred over integrated ones, and those over
/// any other kind.
pub open spec fn kind_score(k: AcceleratorKind) -> int {
    match k {
        AcceleratorKind::Discrete => 2,
        AcceleratorKind::Integrated => 1,
        _ => 0,
    }
}

pub open spec fn has_family(fams: Seq<QueueFamily>) -> bool {
    exists|i: int| 0 <= i < fams.len() && family_ok(#[trigger] fams[i])
}

/// The index of the first family that supports both graphics and present.
pub open spec fn is_first_family(fams: Seq<QueueFamily>, i: int) -> bool {
    &&& 0 <= i < fams.len()
    &&& family_ok(fams[i])
    &&& forall|j: int| 0 <= j < i ==> !family_ok(#[trigger] fams[j])
}

pub open spec fn suitable(a: Accelerator) -> bool {
    has_family(a.queue_families@)
}

/// `s` picks the first suitable accelerator of the highest score, and its
/// first family with graphics and present support.
pub open spec fn is_best(accs: Seq<Accelerator>, s: Selection) -> bool {
    &&& 0 <= s.accelerator < accs.len()
    &&& suitable(accs[s.accelerator as int])
    &&& is_first_family(accs[s.accelerator as int].queue_families@, s.queue_family as int)
    &&& forall|j: int|
        0 <= j < accs.len() && suitable(#[trigger] accs[j]) ==> kind_score(accs[j].kind)
            <= kind_score(accs[s.accelerator as int].kind)
    &&& forall|j: int|
        0 <= j < s.accelerator && suitable(#[trigger] accs[j]) ==> kind_score(accs[j].kind)
            < kind_score(accs[s.accelerator as int].kind)
}

/// The family that a selection names supports graphics and presentation.
pub proof fn lemma_selection_presents(accs: Seq<Accelerator>, s: Selection)
    requires
        is_best(accs, s),
    ensures
        accs[s.accelerator as int].queue_families@[s.queue_family as int].graphics,
        accs[s.accelerator as int].queue_families@[s.queue_family as int].present,
{
}

pub open spec fn any_suitable(accs: Seq<Accelerator>) -> bool {
    exists|j: int| 0 <= j < accs.len() && suitable(#[trigger] accs[j])
}

fn score(k: AcceleratorKind) -> (r: u8)
    ensures
        r as int == kind_score(k),
{
    match k {
        AcceleratorKind::Discrete => 2,
        AcceleratorKind::Integrated => 1,
        _ => 0,
    }
}

/// The index of the first queue family with graphics and present support.
pub fn first_family(fams: &Vec<QueueFamily>) -> (r: Option<usize>)
    ensures
        r.is_none() <==> !has_family(fams@),
        r matches Some(i) ==> is_first_family(fams@, i as int),
{
    let mut i: usize = 0;
    while i < fams.len()
        invariant
            i <= fams@.len(),
            forall|j: int| 0 <= j < i ==> !family_ok(#[trigger] fams@[j]),
        decreases fams@.len() - i,
    {
        if fams[i].graphics && fams[i].present {
            return Some(i);
        }
        i = i + 1;
    }
    None
}

/// Picks the accelerator to create the device on: only those with a queue
/// family that supports both graphics and presentation qualify, and among
/// them the best kind wins, the earliest on a tie.
pub fn select_accelerator(accs: &Vec<Accelerator>) -> (r: Result<Selection, DeviceError>)
    ensures
        r.is_err() <==> !any_suitable(accs@),
        r matches Err(e) ==> e == DeviceError::NoSuitableAccelerator,
        r matches Ok(s) ==> is_best(accs@, s),
{
    let mut best: Option<Selection> = None;
    let mut best_score: u8 = 0;
    let mut i: usize = 0;
    while i < accs.len()
        invariant
            i <= accs@.len(),
            best is None ==> forall|j: int| 0 <= j < i ==> !suitable(#[trigger] accs@[j]),
            best matches Some(s) ==> {
                &&& s.accelerator < i
                &&& suitable(accs@[s.accelerator as int])
                &&& is_first_family(accs@[s.accelerator as int].queue_families@, s.queue_family as int)
                &&& best_score as int == kind_score(accs@[s.accelerator as int].kind)
                &&& forall|j: int|
                    0 <= j < i && suitable(#[trigger] accs@[j]) ==> kind_score(accs@[j].kind)
                        <= best_score
                &&& forall|j: int|
                    0 <= j < s.accelerator && suitable(#[trigger] accs@[j]) ==> kind_score(
                        accs@[j].kind,
                    ) < best_score
            },
        decreases accs@.len() - i,
    {
        match first_family(&accs[i].queue_families) {
            Some(f) => {
                let sc = score(accs[i].kind);
                let better = match best {
                    None => true,
                    Some(_) => sc > best_score,
                };
                if better {
                    best = Some(Selection { accelerator: i, queue_family: f });
                    best_score = sc;
                }
            },
            None => {},
        }
        i = i + 1;
    }
    match best {
        Some(s) => Ok(s),
        None => Err(DeviceError::NoSuitableAccelerator),
    }
}

/// Where the device context stands in its life.
#[derive(Clone, Copy, Debug, PartialEq, Eq, Structural)]
pub enum ContextState {
    Uninitialized,
    /// Instance and device are alive, created on this selection.
    Ready(Selection),
    ShutDown,
}

/// Owns the instance and the logical device. Nothing else destroys them.
#[derive(Debug)]
pub struct DeviceContext {
    state: ContextState,
}

/// The GPU handles the device context keeps alive in a state: the instance
/// and the device while ready, none otherwise.
pub open spec fn live_handles(s: ContextState) -> nat {
    match s {
        ContextState::Ready(_) => 2,
        _ => 0,
    }
}

pub open spec fn teardown_order() -> Seq<TeardownStep> {
    seq![TeardownStep::WaitIdle, TeardownStep::DestroyDevice, TeardownStep::DestroyInstance]
}

/// Shutting the context down from state `s`: the state after, and the
/// teardown steps to run or the error.
pub open spec fn shutdown_spec(s: ContextState) -> (ContextState, Result<Seq<TeardownStep>, DeviceError>) {
    match s {
        ContextState::ShutDown => (s, Err(DeviceError::DoubleDestroy)),
        ContextState::Uninitialized => (ContextState::ShutDown, Ok(Seq::empty())),
        ContextState::Ready(_) => (ContextState::ShutDown, Ok(teardown_order())),
    }
}

/// Shutting down once leaves no GPU handle of the context alive; shutting
/// down a second time is refused as a double destroy.
pub proof fn lemma_shutdown_once(s: ContextState)
    ensures
        live_handles(shutdown_spec(s).0) == 0,
        shutdown_spec(shutdown_spec(s).0).1 == Err::<Seq<TeardownStep>, DeviceError>(
            DeviceError::DoubleDestroy,
        ),
        shutdown_spec(shutdown_spec(s).0).0 == shutdown_spec(s).0,
{
}

impl DeviceContext {
    pub closed spec fn view_state(&self) -> ContextState {
        self.state
    }

    pub fn new() -> (r: DeviceContext)
        ensures
            r.view_state() == ContextState::Uninitialized,
    {
        DeviceContext { state: ContextState::Uninitialized }
    }

    pub fn state(&self) -> (r: ContextState)
        ensures
            r == self.view_state(),
    {
        self.state
    }

    /// Initializes the context: `instance_created` is whether creating the
    /// API instance succeeded; then the accelerator and queue family the
    /// device is created on are selected. A context initializes once.
    pub fn initialize(&mut self, instance_created: bool, accs: &Vec<Accelerator>) -> (r: Result<
        Selection,
        DeviceError,
    >)
        ensures
            old(self).view_state() != ContextState::Uninitialized ==> r == Err::<
                Selection,
                DeviceError,
            >(DeviceError::AlreadyInitialized),
            old(self).view_state() == ContextState::Uninitialized && !instance_created ==> r
                == Err::<Selection, DeviceError>(DeviceError::InstanceCreationFailed),
            old(self).view_state() == ContextState::Uninitialized && instance_created
                && !any_suitable(accs@) ==> r == Err::<Selection, DeviceError>(
                DeviceError::NoSuitableAccelerator,
            ),
            old(self).view_state() == ContextState::Uninitialized && instance_created
                && any_suitable(accs@) ==> r is Ok,
            r is Err ==> final(self).view_state() == old(self).view_state(),
            r matches Ok(s) ==> is_best(accs@, s) && final(self).view_state()
                == ContextState::Ready(s),
    {
        match self.state {
            ContextState::Uninitialized => {},
            _ => {
                return Err(DeviceError::AlreadyInitialized);
            },
        }
        if !instance_created {
            return Err(DeviceError::InstanceCreationFailed);
        }
        let sel = select_accelerator(accs);
        match sel {
            Ok(s) => {
                self.state = ContextState::Ready(s);
                Ok(s)
            },
            Err(e) => Err(e),
        }
    }

    /// Ends the context: the steps to run, in order, are waiting for idle
    /// queues, then destroying the device, then the instance. A second call
    /// is refused.
    pub fn shutdown(&mut self) -> (r: Result<Vec<TeardownStep>, DeviceError>)
        ensures
            final(self).view_state() == shutdown_spec(old(self).view_state()).0,
            r matches Ok(steps) ==> shutdown_spec(old(self).view_state()).1 == Ok::<
                Seq<TeardownStep>,
                DeviceError,
            >(steps@),
            r matches Err(e) ==> shutdown_spec(old(self).view_state()).1 == Err::<
                Seq<TeardownStep>,
                DeviceError,
            >(e),
    {
        match self.state {
            ContextState::ShutDown => Err(DeviceError::DoubleDestroy),
            ContextState::Uninitialized => {
                self.state = ContextState::ShutDown;
                let steps: Vec<TeardownStep> = Vec::new();
                assert(steps@ =~= Seq::<TeardownStep>::empty());
                Ok(steps)
            },
            ContextState::Ready(_) => {
                self.state = ContextState::ShutDown;
                let mut steps: Vec<TeardownStep> = Vec::new();
                steps.push(TeardownStep::WaitIdle);
                steps.push(TeardownStep::DestroyDevice);
                steps.push(TeardownStep::DestroyInstance);
                assert(steps@ =~= teardown_order());
                Ok(steps)
            },
        }
    }
}

} // verus!
