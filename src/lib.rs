//! Surface lifecycle, frame-error recovery and frame recording for a window
//! whose contents are cleared to a fixed color on every frame.
//!
//! The library decides; the caller performs. Each transition returns the
//! action that the caller carries out against the GPU layer.

pub mod context;
pub mod driver;
pub mod frame;
pub mod surface;

pub use context::{
    adapter_request, device_request, start, AdapterRequest, Backends, DeviceRequest,
    PowerPreference, StartupError,
};
pub use driver::{
    classify, AcquireError, Action, Driver, FrameStatus, LoopEvent, TransientKind, WindowInput,
};
pub use frame::{
    clear_color, clear_pass_ops, frame_plan, FrameStep, LoadOp, PassOps, Rgba, CHANNEL_FULL,
};
pub use surface::{Extent, PresentMode, SurfaceConfig, SurfaceState, TextureUsage};
