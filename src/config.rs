//! Configuration of the rendering backend.
use vstd::prelude::*;
use crate::device_queue::{Device, Queue};

verus! {

/// Which GPU adapter to prefer.
#[derive(Clone, Copy, Debug, PartialEq, Eq, Structural)]
pub enum PowerPreference {
    HighPerformance,
    LowPower,
}

/// Settings of the native GPU backend.
#[derive(Clone, Copy, Debug, PartialEq, Eq, Structural)]
pub struct WgpuConfig {
    pub shader_validation: bool,
}

impl Default for WgpuConfig {
    fn default() -> (r: WgpuConfig)
        ensures
            r.shader_validation,
    {
        WgpuConfig { shader_validation: true }
    }
}

/// The backend to render with.
#[derive(Clone, Copy, Debug, PartialEq, Eq, Structural)]
pub enum BackendConfig {
    /// The native GPU backend.
    Wgpu(WgpuConfig),
    /// No GPU: every object is a placeholder and every upload is dropped.
    Headless,
}

impl Default for BackendConfig {
    fn default() -> (r: BackendConfig)
        ensures
            r == BackendConfig::Wgpu(WgpuConfig { shader_validation: true }),
    {
        BackendConfig::Wgpu(WgpuConfig::default())
    }
}

/// Settings of the render plugin.
#[derive(Clone, Copy, Debug, PartialEq, Eq, Structural)]
pub struct RenderPluginConfig {
    pub power_preference: Option<PowerPreference>,
    pub backend: BackendConfig,
}

impl Default for RenderPluginConfig {
    fn default() -> (r: RenderPluginConfig)
        ensures
            r.power_preference is None,
            r.backend == BackendConfig::Wgpu(WgpuConfig { shader_validation: true }),
    {
        RenderPluginConfig { power_preference: None, backend: BackendConfig::default() }
    }
}

/// Sets up the rendering backend of an application.
#[derive(Clone, Copy, Debug, Default)]
pub struct RenderPlugin;

impl RenderPlugin {
    /// The adapter to ask for: high performance unless low power is asked.
    pub fn adapter_power_preference(config: &RenderPluginConfig) -> (r: PowerPreference)
        ensures
            r == (if config.power_preference == Some(PowerPreference::LowPower) {
                PowerPreference::LowPower
            } else {
                PowerPreference::HighPerformance
            }),
    {
        match config.power_preference {
            Some(PowerPreference::LowPower) => PowerPreference::LowPower,
            Some(PowerPreference::HighPerformance) | None => PowerPreference::HighPerformance,
        }
    }

    /// The device and queue of a headless configuration; `None` for the
    /// native GPU backend, whose adapter must be requested from the system.
    pub fn headless_device_and_queue(config: &RenderPluginConfig) -> (r: Option<(Device, Queue)>)
        ensures
            r is Some <==> config.backend == BackendConfig::Headless,
            r matches Some(p) ==> p.0 == Device::Headless && p.1 == Queue::Headless,
    {
        match config.backend {
            BackendConfig::Headless => Some((Device::Headless, Queue::Headless)),
            BackendConfig::Wgpu(_) => None,
        }
    }
}

} // verus!
