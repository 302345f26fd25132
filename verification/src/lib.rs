//! Surface lifecycle and GPU presentation core for a compositor-driven
//! wallpaper client.
//!
//! The library models one on-screen drawable as a [`session::SurfaceSession`]:
//! a state machine that consumes compositor events (configure, frame-done,
//! closed) and answers with the ordered list of requests the caller must
//! perform against the display server and the GPU. The scene to present is a
//! [`scene::SceneContent`]; encoding it into draw commands and pacing an
//! animated scene are part of the verified core. The unverified shell around
//! the library owns the actual protocol connection and GPU device and carries
//! each emitted action out.

pub mod gpu;
pub mod modes;
pub mod pixels;
pub mod scene;
pub mod session;
