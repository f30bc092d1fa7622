//! Error taxonomy of the engine.
//!
//! Failures fall into three kinds that are surfaced to the caller: a missing
//! capability discovered at startup, resource exhaustion, and fatal device
//! errors. Swapchain staleness is recoverable and never surfaced as an error.

use vstd::prelude::*;

verus! {

/// A capability the device or surface must offer; named in startup errors so
/// that initialization failures are descriptive.
#[derive(Clone, Copy, Debug, PartialEq, Eq, Structural)]
pub enum Capability {
    /// A queue family that can run graphics commands.
    GraphicsQueue,
    /// A queue family that can present to the surface.
    PresentQueue,
    /// The requested validation layer.
    ValidationLayer,
    /// The device extensions the engine requires.
    DeviceExtensions,
    /// At least one supported surface format.
    SurfaceFormat,
    /// At least one supported presentation mode.
    PresentMode,
    /// A depth attachment format with the needed features.
    DepthFormat,
    /// Any physical device that passes the suitability check.
    SuitableDevice,
}

/// An error surfaced by the engine to its caller.
#[derive(Clone, Copy, Debug, PartialEq, Eq, Structural)]
pub enum EngineError {
    /// A required capability is absent; reported at startup, before any
    /// resource is created.
    MissingCapability { what: Capability },
    /// No memory type satisfies the requested usage and visibility class.
    UnsupportedMemoryType,
    /// Allocation failed on the device.
    OutOfDeviceMemory,
    /// The device was lost or an API call failed fatally; no retry.
    DeviceLost,
}

/// A device unsuitable for the engine, with the reason it was rejected.
#[derive(Clone, Copy, Debug, PartialEq, Eq, Structural)]
pub struct SuitabilityError(pub Capability);

impl EngineError {
    /// A short description, usable where a displayable message is needed.
    pub fn message(&self) -> String {
        match self {
            EngineError::MissingCapability { what } => {
                match what {
                    Capability::GraphicsQueue => "missing graphics queue family".to_string(),
                    Capability::PresentQueue => "missing presentation queue family".to_string(),
                    Capability::ValidationLayer => "validation layer requested but not supported".to_string(),
                    Capability::DeviceExtensions => "missing required device extensions".to_string(),
                    Capability::SurfaceFormat => "no supported surface format".to_string(),
                    Capability::PresentMode => "no supported presentation mode".to_string(),
                    Capability::DepthFormat => "no supported depth format".to_string(),
                    Capability::SuitableDevice => "failed to find suitable physical device".to_string(),
                }
            },
            EngineError::UnsupportedMemoryType => "no suitable memory type".to_string(),
            EngineError::OutOfDeviceMemory => "out of device memory".to_string(),
            EngineError::DeviceLost => "device lost".to_string(),
        }
    }
}

} // verus!
