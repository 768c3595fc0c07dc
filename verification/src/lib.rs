//! Object culling and draw submission for the opaque pass of a real-time
//! renderer.
//!
//! A frame hands this crate a camera and the list of scene objects. The crate
//! decides which objects are visible, groups the visible ones into one
//! instanced draw per mesh and material, and records the depth prepass and the
//! lit opaque pass as command streams. Culling runs either on the host or on
//! the device; both strategies sit behind [`mode::ModeData`] and describe the
//! same set of draws.
//!
//! The crate never talks to a graphics device. Resources are named by
//! handles, and the recorded commands are plain values that the embedding
//! renderer replays on its device.

pub mod handles;
pub mod mode;
pub mod frustum;
pub mod recorder;
pub mod resources;
pub mod culling;
pub mod opaque;
