//! Decision logic of a small Vulkan renderer: identifier allocation, memory
//! type and queue family selection, surface and swapchain configuration,
//! frame pacing across swapchain images, and window event handling.
//!
//! Everything that talks to the GPU driver or to the windowing system lives
//! in the application crate; this library receives the values those calls
//! return and decides what to do with them.

pub mod devicememory;
pub mod id;
pub mod lowlevelrenderer;
pub mod renderingcontext;
pub mod shader;
pub mod stagingbuffer;
pub mod surface;
pub mod swapchain;
pub mod vertexbuffer;

pub use id::{MyId, MyIdGenerator};
pub use lowlevelrenderer::{MyFrameScheduler, FrameSchedule, SubmitPlan, FRAME_COUNT};
