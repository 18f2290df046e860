//! The ways in which bringing up the renderer can fail.
//!
//! Every failure is fatal: no stage is retried and no degraded mode exists.
//! A failure surfaces only after the resources acquired so far have been
//! released in teardown order.

use vstd::prelude::*;

verus! {

/// A fatal outcome of the acquisition pipeline or of one of the channels
/// between the window host and the renderer.
#[derive(Clone, Copy, Debug, PartialEq, Eq, Structural)]
pub enum SetupError {
    /// The driver rejected the instance parameters.
    InstanceCreationFailure,
    /// No enumerated physical device satisfies the version, queue and
    /// extension criteria. An empty device list is reported this way too.
    DeviceNotFound,
    /// The graphics queue family of the selected device cannot present to
    /// the surface.
    PresentationUnsupported,
    /// The driver rejected the logical device.
    LogicalDeviceCreationFailure,
    /// The driver rejected the surface.
    SurfaceCreationFailure,
    /// The driver rejected the swapchain.
    SwapchainCreationFailure,
    /// The other end of a channel went away before its required send or
    /// receive.
    HandshakeBroken,
}

impl SetupError {
    /// The name of the stage at which the failure arose.
    pub open spec fn spec_stage_name(self) -> Seq<char> {
        match self {
            SetupError::InstanceCreationFailure => "instance"@,
            SetupError::DeviceNotFound => "physical device"@,
            SetupError::PresentationUnsupported => "logical device"@,
            SetupError::LogicalDeviceCreationFailure => "logical device"@,
            SetupError::SurfaceCreationFailure => "surface"@,
            SetupError::SwapchainCreationFailure => "swapchain"@,
            SetupError::HandshakeBroken => "handshake"@,
        }
    }

    /// What went wrong, in words for the operator.
    pub open spec fn spec_cause(self) -> Seq<char> {
        match self {
            SetupError::InstanceCreationFailure => "the driver rejected the instance parameters"@,
            SetupError::DeviceNotFound => "no physical device meets the version, queue and extension requirements"@,
            SetupError::PresentationUnsupported => "the graphics queue family cannot present to the surface"@,
            SetupError::LogicalDeviceCreationFailure => "the driver rejected the logical device"@,
            SetupError::SurfaceCreationFailure => "the driver rejected the surface"@,
            SetupError::SwapchainCreationFailure => "the driver rejected the swapchain"@,
            SetupError::HandshakeBroken => "the other end of a channel went away"@,
        }
    }

    /// The diagnostic line: the stage, a colon and a space, then the cause.
    pub open spec fn spec_message(self) -> Seq<char> {
        self.spec_stage_name() + ": "@ + self.spec_cause()
    }

    pub fn stage_name(&self) -> (name: &'static str)
        ensures
            name@ == self.spec_stage_name(),
    {
        match self {
            SetupError::InstanceCreationFailure => "instance",
            SetupError::DeviceNotFound => "physical device",
            SetupError::PresentationUnsupported => "logical device",
            SetupError::LogicalDeviceCreationFailure => "logical device",
            SetupError::SurfaceCreationFailure => "surface",
            SetupError::SwapchainCreationFailure => "swapchain",
            SetupError::HandshakeBroken => "handshake",
        }
    }

    pub fn cause(&self) -> (text: &'static str)
        ensures
            text@ == self.spec_cause(),
    {
        match self {
            SetupError::InstanceCreationFailure => "the driver rejected the instance parameters",
            SetupError::DeviceNotFound => "no physical device meets the version, queue and extension requirements",
            SetupError::PresentationUnsupported => "the graphics queue family cannot present to the surface",
            SetupError::LogicalDeviceCreationFailure => "the driver rejected the logical device",
            SetupError::SurfaceCreationFailure => "the driver rejected the surface",
            SetupError::SwapchainCreationFailure => "the driver rejected the swapchain",
            SetupError::HandshakeBroken => "the other end of a channel went away",
        }
    }

    /// The diagnostic message shown to the operator.
    pub fn message(&self) -> (line: String)
        ensures
            line@ == self.spec_message(),
    {
        let mut line = String::from_str(self.stage_name());
        line.append(": ");
        line.append(self.cause());
        line
    }
}

} // verus!
