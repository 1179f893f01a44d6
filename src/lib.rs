//! Frame lifecycle and GPU-object ownership core of a real-time renderer.
//!
//! Every decision the renderer makes (which instance extensions to enable,
//! which accelerator and queue family to use, how to shape the swapchain,
//! when a frame slot may be reused, in which order objects are destroyed)
//! is made here, from plain values, and verified. The graphics API calls
//! themselves are issued by the driving program, which hands the outcome of
//! each call back to these state machines.

pub mod device;
pub mod instance;
pub mod lifecycle;
pub mod scheduler;
pub mod swapchain;

pub use instance::{plan_instance, ApiVersion, InstanceExtension, InstancePlan};
pub use device::{
    first_family, select_accelerator, Accelerator, AcceleratorKind, ContextState, DeviceContext,
    DeviceError, QueueFamily, Selection, TeardownStep,
};
pub use swapchain::{
    build, choose_extent, choose_image_count, choose_present_mode, choose_surface_format, Extent,
    PresentError, PresentMode, SurfaceCapabilities, SurfaceFormat, SwapchainState,
};
pub use scheduler::{
    record, timeout_action, AcquireResult, CommandRecording, FenceStatus, FrameError, FrameHandle,
    FrameScheduler, PresentResult, TimeoutAction, DEFAULT_DEPTH,
};
pub use lifecycle::{Lifecycle, LifecycleError};
