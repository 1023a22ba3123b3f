use vstd::prelude::*;
use crate::geometry::PhysicalSize;

verus! {

/// Where the program runs. Chosen when the program is built, not while
/// it runs.
#[derive(Clone, Copy, Debug, PartialEq, Eq, Structural)]
pub enum HostEnvironment {
    /// An operating system's own window.
    Native,
    /// A canvas inside a browser page.
    Browser,
}

/// Which GPUs are searched for an adapter.
#[derive(Clone, Copy, Debug, PartialEq, Eq, Structural)]
pub enum Backends {
    All,
    Primary,
    Secondary,
}

/// Which adapter is preferred where several fit.
#[derive(Clone, Copy, Debug, PartialEq, Eq, Structural)]
pub enum PowerPreference {
    LowPower,
    HighPerformance,
}

/// The optional capabilities asked of a device.
#[derive(Clone, Copy, Debug, PartialEq, Eq, Structural)]
pub enum FeatureSet {
    /// None beyond what every device has.
    Empty,
    All,
}

/// The resource limits asked of a device.
#[derive(Clone, Copy, Debug, PartialEq, Eq, Structural)]
pub enum LimitsProfile {
    /// The defaults of desktop hardware.
    Full,
    /// The reduced limits that a browser's GPU interface can meet.
    BrowserCompatible,
}

/// What is asked of the GPU before the first frame.
#[derive(Clone, Copy, Debug, PartialEq, Eq, Structural)]
pub struct ContextRequest {
    pub backends: Backends,
    pub power_preference: PowerPreference,
    pub compatible_with_surface: bool,
    pub force_fallback_adapter: bool,
    pub features: FeatureSet,
    pub limits: LimitsProfile,
}

impl ContextRequest {
    /// Every backend is searched for the fastest real adapter that can
    /// present to the window's surface; the device gets no optional
    /// feature, and the limits that fit the host.
    pub open spec fn for_host_spec(host: HostEnvironment) -> ContextRequest {
        ContextRequest {
            backends: Backends::All,
            power_preference: PowerPreference::HighPerformance,
            compatible_with_surface: true,
            force_fallback_adapter: false,
            features: FeatureSet::Empty,
            limits: match host {
                HostEnvironment::Native => LimitsProfile::Full,
                HostEnvironment::Browser => LimitsProfile::BrowserCompatible,
            },
        }
    }

    pub fn for_host(host: HostEnvironment) -> (request: ContextRequest)
        ensures
            request == ContextRequest::for_host_spec(host),
    {
        let limits = match host {
            HostEnvironment::Native => LimitsProfile::Full,
            HostEnvironment::Browser => LimitsProfile::BrowserCompatible,
        };
        ContextRequest {
            backends: Backends::All,
            power_preference: PowerPreference::HighPerformance,
            compatible_with_surface: true,
            force_fallback_adapter: false,
            features: FeatureSet::Empty,
            limits,
        }
    }
}

/// The size that the window is given before anything is drawn: 450 by
/// 400 in a browser, where the canvas has no size of its own; the
/// window system's choice elsewhere.
pub open spec fn preset_window_size_spec(host: HostEnvironment) -> Option<PhysicalSize> {
    match host {
        HostEnvironment::Native => None,
        HostEnvironment::Browser => Some(PhysicalSize { width: 450, height: 400 }),
    }
}

pub fn preset_window_size(host: HostEnvironment) -> (size: Option<PhysicalSize>)
    ensures
        size == preset_window_size_spec(host),
{
    match host {
        HostEnvironment::Native => None,
        HostEnvironment::Browser => Some(PhysicalSize { width: 450, height: 400 }),
    }
}

} // verus!
