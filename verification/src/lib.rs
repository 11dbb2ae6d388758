//! A verified core for a renderer of four-dimensional scenes.
//!
//! The library models the renderer's exact algebra and control logic over
//! integer scalars: 4-vector and 5x5 homogeneous matrix math, the camera
//! state driven by input events, the frame-in-flight synchronization
//! protocol, the presentation-chain rebuild rules, and the buffer manager's
//! size and mapping rules. The device-facing shell around it converts these
//! plain values to and from its own floating-point and GPU types.

pub mod input;
pub mod math4;
pub mod buffer;
pub mod cam_math;
pub mod camera4;
pub mod camera_proj3;
pub mod camera_proj4;
pub mod entities;
pub mod fps;
pub mod frame;
pub mod mat4;
pub mod mat5;
pub mod swapchain;

pub use buffer::BufferModel;
pub use camera4::Camera4;
pub use camera_proj3::CameraProj3;
pub use entities::{Vertex, Vertex3, Simplex, Hypercube, Cube, Triangle};
pub use fps::FPScalculator;
pub use camera_proj4::{CameraProj4, UniformBufferObject};
pub use frame::{FrameLoop, FenceDevice, FrameStep};
pub use swapchain::{PresentChain, ChainResource};
pub use input::CameraEvent;
pub use math4::Vec4;
pub use mat4::Mat4;
pub use mat5::{Mat5, Vec5};
