//! Connection and content modes a client can ask for.

use vstd::prelude::*;

verus! {

/// How the client reaches the display server. Only the shell connection is
/// carried out today; shared memory and raw sockets are declared for callers
/// that probe for them.
#[derive(Clone, Copy, PartialEq, Eq, Structural, Debug)]
pub enum ConnectionMode {
    Shell,
    Shm,
    Socket,
}

/// The kind of content a session presents.
#[derive(Clone, Copy, PartialEq, Eq, Structural, Debug)]
pub enum RenderType {
    Plain,
    Image,
    Gif,
    Project2D,
    Project3D,
}

/// The role a drawable surface takes on screen: one of the shell layers, or
/// an ordinary top-level window.
#[derive(Clone, Copy, PartialEq, Eq, Structural, Debug)]
pub enum SurfaceRole {
    Background,
    Bottom,
    Top,
    Overlay,
    Window,
}

/// Whether a connection mode can actually be established. Only the shell
/// path is implemented; asking for the others must be rejected up front
/// rather than part-way through a handshake.
pub fn connection_supported(mode: ConnectionMode) -> (r: bool)
    ensures
        r == (mode is Shell),
{
    match mode {
        ConnectionMode::Shell => true,
        ConnectionMode::Shm => false,
        ConnectionMode::Socket => false,
    }
}

} // verus!
