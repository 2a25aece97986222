//! What the layer surface's events mean for the session.

use vstd::prelude::*;

verus! {

/// An event of the layer surface, as far as the session reads it.
#[derive(Clone, Copy, Debug, PartialEq, Eq, Structural)]
pub enum LayerSurfaceEvent {
    /// The service proposes a layout and waits for its serial to be
    /// acknowledged.
    Configure { serial: u32, width: u32, height: u32 },
    /// The service closed the surface.
    Closed,
}

/// State of the session's event handling: whether the surface's layout has
/// been acknowledged, and whether the service has closed the surface.
#[derive(Clone, Copy, Debug, PartialEq, Eq, Structural)]
pub struct AppState {
    pub configured: bool,
    pub closed: bool,
}

impl AppState {
    /// The state before any event: not configured, not closed.
    pub fn new() -> (r: AppState)
        ensures
            r == (AppState { configured: false, closed: false }),
    {
        AppState { configured: false, closed: false }
    }

    /// Takes one event of the layer surface. For a configure event the
    /// surface counts as configured from now on, and the serial to
    /// acknowledge is returned. A close is recorded and nothing is
    /// acknowledged.
    pub fn event(&mut self, event: LayerSurfaceEvent) -> (ack: Option<u32>)
        ensures
            match event {
                LayerSurfaceEvent::Configure { serial, .. } => {
                    &&& ack == Some(serial)
                    &&& *final(self) == (AppState { configured: true, ..*old(self) })
                },
                LayerSurfaceEvent::Closed => {
                    &&& ack is None
                    &&& *final(self) == (AppState { closed: true, ..*old(self) })
                },
            },
    {
        match event {
            LayerSurfaceEvent::Configure { serial, .. } => {
                self.configured = true;
                Some(serial)
            },
            LayerSurfaceEvent::Closed => {
                self.closed = true;
                None
            },
        }
    }

    /// Whether the first frame may be attached: the layout was acknowledged
    /// and the surface is still there.
    pub fn ready(&self) -> (r: bool)
        ensures
            r == (self.configured && !self.closed),
    {
        self.configured && !self.closed
    }
}

} // verus!
