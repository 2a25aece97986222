//! The overlay session's side of the compositing protocol, without the wire.
//!
//! The session holds at most one surface. It says how a new surface is to be
//! set up, refuses a frame until the surface's layout has been acknowledged,
//! and lays each frame out for the shared-memory pool.

use vstd::prelude::*;
use crate::cache::{buffer_layout, byte_len, BufferLayout};
use crate::dispatch::{AppState, LayerSurfaceEvent};
use crate::placement::Placement;

verus! {

/// Exclusive zone of a surface that reserves no space and is not moved out of
/// the way of surfaces that do.
pub const NO_EXCLUSIVE_ZONE: i32 = -1;

/// How a new overlay surface is set up before its first commit.
#[derive(Clone, Copy, Debug, PartialEq, Eq, Structural)]
pub struct SurfaceSetup {
    pub width: u32,
    pub height: u32,
    pub anchor_top: bool,
    pub anchor_left: bool,
    pub margin_top: i32,
    pub margin_left: i32,
    /// Whether the surface takes keyboard focus: never.
    pub keyboard_interactive: bool,
    pub exclusive_zone: i32,
    /// Whether the input region is left as it is; `false` sets an empty one,
    /// so that clicks and touches pass through.
    pub accepts_input: bool,
}

/// One frame as the shared-memory pool and the surface take it.
#[derive(Clone, Copy, Debug, PartialEq, Eq, Structural)]
pub struct FramePlan {
    pub width: i32,
    pub height: i32,
    pub layout: BufferLayout,
    /// Whether to wait for the service's answer after the commit.
    pub wait: bool,
}

/// Why the session refused a call.
#[derive(Clone, Copy, Debug, PartialEq, Eq, Structural)]
pub enum SessionError {
    /// A surface exists already.
    SurfaceExists,
    /// No surface exists.
    NoSurface,
    /// The surface's layout has not been acknowledged yet.
    NotConfigured,
    /// The service closed the surface.
    SurfaceClosed,
    /// The surface's buffer would not fit the pool's signed 32-bit sizes.
    TooLarge,
    /// The pixel buffer is not as long as the surface needs.
    WrongLength,
}

/// The surface of the cycle that runs.
#[derive(Clone, Copy, Debug, PartialEq, Eq, Structural)]
pub struct SurfaceInstance {
    pub width: u32,
    pub height: u32,
    pub state: AppState,
}

/// The session: open for the whole run, with at most one surface.
#[derive(Clone, Copy, Debug, PartialEq, Eq, Structural)]
pub struct OverlaySession {
    pub surface: Option<SurfaceInstance>,
}

/// Whether a `width` by `height` buffer fits the pool.
pub open spec fn fits_pool(width: u32, height: u32) -> bool {
    4 * width <= i32::MAX && height <= i32::MAX && byte_len(width, height) <= i32::MAX
}

/// The setup of a `width` by `height` overlay at `placement`: topmost, never
/// focused, reserving no space, transparent to input.
pub open spec fn setup_for(width: u32, height: u32, placement: Placement) -> SurfaceSetup {
    match placement {
        Placement::Centered => SurfaceSetup {
            width,
            height,
            anchor_top: false,
            anchor_left: false,
            margin_top: 0,
            margin_left: 0,
            keyboard_interactive: false,
            exclusive_zone: NO_EXCLUSIVE_ZONE,
            accepts_input: false,
        },
        Placement::TopLeft { margin_left, margin_top } => SurfaceSetup {
            width,
            height,
            anchor_top: true,
            anchor_left: true,
            margin_top,
            margin_left,
            keyboard_interactive: false,
            exclusive_zone: NO_EXCLUSIVE_ZONE,
            accepts_input: false,
        },
    }
}

/// The frame of a `width` by `height` surface that fits the pool.
pub open spec fn plan_for(width: u32, height: u32, wait: bool) -> FramePlan {
    FramePlan {
        width: width as i32,
        height: height as i32,
        layout: BufferLayout {
            stride: (4 * width) as i32,
            size: byte_len(width, height) as i32,
        },
        wait,
    }
}

impl OverlaySession {
    /// The session's answer to `begin_cycle`.
    pub open spec fn begin_result(
        self,
        width: u32,
        height: u32,
        placement: Placement,
    ) -> Result<SurfaceSetup, SessionError> {
        if self.surface is Some {
            Err(SessionError::SurfaceExists)
        } else if !fits_pool(width, height) {
            Err(SessionError::TooLarge)
        } else {
            Ok(setup_for(width, height, placement))
        }
    }

    /// The session's answer to `upload`.
    pub open spec fn upload_result(self, len: int, wait: bool) -> Result<FramePlan, SessionError> {
        match self.surface {
            None => Err(SessionError::NoSurface),
            Some(s) => if s.state.closed {
                Err(SessionError::SurfaceClosed)
            } else if !s.state.configured {
                Err(SessionError::NotConfigured)
            } else if !fits_pool(s.width, s.height) {
                Err(SessionError::TooLarge)
            } else if len != byte_len(s.width, s.height) {
                Err(SessionError::WrongLength)
            } else {
                Ok(plan_for(s.width, s.height, wait))
            },
        }
    }

    /// A session without a surface.
    pub fn open() -> (r: OverlaySession)
        ensures
            r == (OverlaySession { surface: None }),
    {
        OverlaySession { surface: None }
    }

    /// Whether a surface exists.
    pub fn has_surface(&self) -> (r: bool)
        ensures
            r == self.surface is Some,
    {
        self.surface.is_some()
    }

    /// Starts a cycle: where no surface exists and the buffer fits the pool,
    /// a surface of that size exists afterwards, not yet configured, and its
    /// setup is returned. Otherwise nothing changes.
    pub fn begin_cycle(
        &mut self,
        width: u32,
        height: u32,
        placement: Placement,
    ) -> (r: Result<SurfaceSetup, SessionError>)
        ensures
            r == old(self).begin_result(width, height, placement),
            final(self).surface == if r is Ok {
                Some(
                    SurfaceInstance {
                        width,
                        height,
                        state: AppState { configured: false, closed: false },
                    },
                )
            } else {
                old(self).surface
            },
    {
        if self.surface.is_some() {
            return Err(SessionError::SurfaceExists);
        }
        if height > 0x7FFF_FFFF || buffer_layout(width, height).is_none() {
            return Err(SessionError::TooLarge);
        }
        self.surface = Some(SurfaceInstance { width, height, state: AppState::new() });
        let setup = match placement {
            Placement::Centered => SurfaceSetup {
                width,
                height,
                anchor_top: false,
                anchor_left: false,
                margin_top: 0,
                margin_left: 0,
                keyboard_interactive: false,
                exclusive_zone: NO_EXCLUSIVE_ZONE,
                accepts_input: false,
            },
            Placement::TopLeft { margin_left, margin_top } => SurfaceSetup {
                width,
                height,
                anchor_top: true,
                anchor_left: true,
                margin_top,
                margin_left,
                keyboard_interactive: false,
                exclusive_zone: NO_EXCLUSIVE_ZONE,
                accepts_input: false,
            },
        };
        Ok(setup)
    }

    /// Hands an event of the layer surface to the surface's state. Returns
    /// the serial to acknowledge, if the event asks for one. Without a
    /// surface nothing happens.
    pub fn event(&mut self, event: LayerSurfaceEvent) -> (ack: Option<u32>)
        ensures
            match old(self).surface {
                None => ack is None && *final(self) == *old(self),
                Some(s) => match event {
                    LayerSurfaceEvent::Configure { serial, .. } => {
                        &&& ack == Some(serial)
                        &&& final(self).surface == Some(
                            SurfaceInstance {
                                state: AppState { configured: true, ..s.state },
                                ..s
                            },
                        )
                    },
                    LayerSurfaceEvent::Closed => {
                        &&& ack is None
                        &&& final(self).surface == Some(
                            SurfaceInstance { state: AppState { closed: true, ..s.state }, ..s },
                        )
                    },
                },
            },
    {
        match self.surface {
            None => None,
            Some(instance) => {
                let mut state = instance.state;
                let ack = state.event(event);
                self.surface = Some(
                    SurfaceInstance { width: instance.width, height: instance.height, state },
                );
                ack
            },
        }
    }

    /// Lays out a frame of `len` bytes for the surface. A frame is accepted
    /// only once the surface's layout has been acknowledged, while the surface
    /// is not closed, and where `len` is the surface's size in bytes.
    pub fn upload(&self, len: usize, wait: bool) -> (r: Result<FramePlan, SessionError>)
        ensures
            r == self.upload_result(len as int, wait),
            r is Ok ==> self.surface is Some && self.surface->0.state.configured
                && !self.surface->0.state.closed,
    {
        match self.surface {
            None => Err(SessionError::NoSurface),
            Some(instance) => {
                if instance.state.closed {
                    return Err(SessionError::SurfaceClosed);
                }
                if !instance.state.ready() {
                    return Err(SessionError::NotConfigured);
                }
                if instance.height > 0x7FFF_FFFF {
                    return Err(SessionError::TooLarge);
                }
                match buffer_layout(instance.width, instance.height) {
                    None => Err(SessionError::TooLarge),
                    Some(layout) => {
                        if len as u128 != layout.size as u128 {
                            Err(SessionError::WrongLength)
                        } else {
                            Ok(
                                FramePlan {
                                    width: instance.width as i32,
                                    height: instance.height as i32,
                                    layout,
                                    wait,
                                },
                            )
                        }
                    },
                }
            },
        }
    }

    /// Ends the cycle: no surface exists afterwards. Returns whether one
    /// existed.
    pub fn end_cycle(&mut self) -> (r: bool)
        ensures
            r == old(self).surface is Some,
            final(self).surface is None,
    {
        let had = self.surface.is_some();
        self.surface = None;
        had
    }
}

} // verus!
