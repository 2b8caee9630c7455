use vstd::prelude::*;

use crate::driver::Driver;
use crate::surface::{config_for, Extent, SurfaceState};

verus! {

/// Which graphics backends the GPU instance may use.
#[derive(Clone, Copy, Debug, PartialEq, Eq, Structural)]
pub enum Backends {
    /// Every backend the platform offers.
    All,
    /// Only the backends with first-class support.
    Primary,
}

#[derive(Clone, Copy, Debug, PartialEq, Eq, Structural)]
pub enum PowerPreference {
    LowPower,
    HighPerformance,
}

/// What an adapter must offer to be chosen.
#[derive(Clone, Copy, Debug, PartialEq, Eq, Structural)]
pub struct AdapterRequest {
    pub backends: Backends,
    pub power_preference: PowerPreference,
    /// Whether the adapter must be able to present to the window's surface.
    pub compatible_with_surface: bool,
    /// Whether a software adapter may be taken.
    pub force_fallback_adapter: bool,
}

/// What the logical device is asked for.
#[derive(Clone, Copy, Debug, PartialEq, Eq, Structural)]
pub struct DeviceRequest {
    /// Whether any optional feature is asked for.
    pub extra_features: bool,
    /// Whether the default limits are asked for.
    pub default_limits: bool,
}

pub open spec fn spec_adapter_request() -> AdapterRequest {
    AdapterRequest {
        backends: Backends::All,
        power_preference: PowerPreference::HighPerformance,
        compatible_with_surface: true,
        force_fallback_adapter: false,
    }
}

/// Every backend, a high-performance adapter that can present to the window,
/// no software fallback.
pub fn adapter_request() -> (r: AdapterRequest)
    ensures
        r == spec_adapter_request(),
{
    AdapterRequest {
        backends: Backends::All,
        power_preference: PowerPreference::HighPerformance,
        compatible_with_surface: true,
        force_fallback_adapter: false,
    }
}

/// The default feature and limit sets.
pub fn device_request() -> (r: DeviceRequest)
    ensures
        r == (DeviceRequest { extra_features: false, default_limits: true }),
{
    DeviceRequest { extra_features: false, default_limits: true }
}

/// Why the process cannot start rendering. None of these is retried.
#[derive(Clone, Copy, Debug, PartialEq, Eq, Structural)]
pub enum StartupError {
    /// No adapter met the request.
    NoAdapter,
    /// The adapter gave no logical device.
    NoDevice,
    /// The surface named no format it prefers on the adapter.
    NoSurfaceFormat,
    /// The window has no drawable area to configure the surface with.
    NoDrawableArea,
}

/// Ends startup once an adapter and a device were had: from the surface's
/// preferred format and the window's size, the loop that drives the surface,
/// whose configuration the caller then applies.
pub fn start<F>(preferred_format: Option<F>, window_size: Extent) -> (r: Result<
    Driver<F>,
    StartupError,
>)
    ensures
        preferred_format is None ==> r == Err::<Driver<F>, StartupError>(
            StartupError::NoSurfaceFormat,
        ),
        preferred_format is Some && !window_size.has_area() ==> r == Err::<Driver<F>, StartupError>(
            StartupError::NoDrawableArea,
        ),
        r is Ok <==> preferred_format is Some && window_size.has_area(),
        r matches Ok(d) ==> {
            &&& d.wf()
            &&& d.spec_running()
            &&& d.spec_surface().spec_size() == window_size
            &&& d.spec_surface().spec_config() == config_for(preferred_format->0, window_size)
        },
{
    match preferred_format {
        None => Err(StartupError::NoSurfaceFormat),
        Some(format) => match SurfaceState::initialize(format, window_size) {
            Some(surface) => Ok(Driver::new(surface)),
            None => Err(StartupError::NoDrawableArea),
        },
    }
}

} // verus!
