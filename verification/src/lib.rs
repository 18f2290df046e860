//! Bootstrap of a GPU-backed renderer: the decisions taken while a window
//! host and a renderer thread shake hands, while the chain of graphics
//! resources is acquired, and while it is torn down again.
//!
//! The calls into the driver, the event loop and the threads are the
//! caller's. The library decides: which device is selected, how the
//! swapchain is configured, in which order the stages run and in which
//! order their resources are destroyed, and when the control loop ends.

pub mod app;
pub mod debug;
pub mod device;
pub mod error;
pub mod features;
pub mod instance;
pub mod setup;
pub mod signal;
pub mod swapchain;
pub mod text;
pub mod utils;
pub mod version;
pub mod vulkan;
pub mod window;

pub use app::{App, WindowSettings};
pub use debug::VkDebug;
pub use error::SetupError;
pub use setup::{VulkanSetup, WindowCommunication};
pub use signal::AppState;
pub use utils::RawWindowingHandles;
pub use version::AppVersion;
pub use vulkan::Core;
pub use window::AppWindow;
