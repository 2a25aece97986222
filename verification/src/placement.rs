//! Where the overlay goes: centred on the active window, or on the screen
//! when no window is known.

use vstd::prelude::*;

verus! {

/// A window's rectangle in screen pixels.
#[derive(Clone, Copy, Debug, PartialEq, Eq, Structural)]
pub struct Rect {
    pub x: i32,
    pub y: i32,
    pub width: u32,
    pub height: u32,
}

/// How the overlay surface is anchored.
#[derive(Clone, Copy, Debug, PartialEq, Eq, Structural)]
pub enum Placement {
    /// No anchor: the compositor centres the surface on the screen.
    Centered,
    /// Anchored to the top-left corner of the screen, with these margins.
    TopLeft { margin_left: i32, margin_top: i32 },
}

/// The offset that puts something of length `size` in the middle of the span
/// that starts at `origin` and is `extent` long.
pub open spec fn centered_margin(origin: int, extent: int, size: int) -> int {
    origin + (extent - size) / 2
}

/// Whether an integer fits a signed 32-bit margin.
pub open spec fn fits_margin(v: int) -> bool {
    i32::MIN <= v <= i32::MAX
}

/// The placement of a `width` by `height` overlay over `window`: centred on
/// the window when there is one and both margins fit, else centred on the
/// screen.
pub open spec fn placement_for(window: Option<Rect>, width: u32, height: u32) -> Placement {
    match window {
        None => Placement::Centered,
        Some(r) => {
            let left = centered_margin(r.x as int, r.width as int, width as int);
            let top = centered_margin(r.y as int, r.height as int, height as int);
            if fits_margin(left) && fits_margin(top) {
                Placement::TopLeft { margin_left: left as i32, margin_top: top as i32 }
            } else {
                Placement::Centered
            }
        },
    }
}

/// With the centred margin, the middle of the overlay is the middle of the
/// span, up to the half pixel that an odd difference leaves.
pub proof fn lemma_centered_margin_aligns(origin: int, extent: int, size: int)
    ensures
        0 <= (2 * origin + extent) - (2 * centered_margin(origin, extent, size) + size) <= 1,
        (extent - size) % 2 == 0 ==> 2 * origin + extent == 2 * centered_margin(
            origin,
            extent,
            size,
        ) + size,
{
}

fn margin(origin: i32, extent: u32, size: u32) -> (r: i64)
    ensures
        r == centered_margin(origin as int, extent as int, size as int),
{
    let diff: i64 = extent as i64 - size as i64;
    let half: i64 = if diff >= 0 {
        diff / 2
    } else {
        -((1 - diff) / 2)
    };
    origin as i64 + half
}

/// Chooses the placement of a `width` by `height` overlay from the active
/// window's rectangle, if the query gave one.
pub fn place_overlay(window: Option<Rect>, width: u32, height: u32) -> (r: Placement)
    ensures
        r == placement_for(window, width, height),
        window is None ==> r == Placement::Centered,
{
    match window {
        None => Placement::Centered,
        Some(rect) => {
            let left: i64 = margin(rect.x, rect.width, width);
            let top: i64 = margin(rect.y, rect.height, height);
            if -0x8000_0000 <= left && left <= 0x7FFF_FFFF && -0x8000_0000 <= top && top
                <= 0x7FFF_FFFF {
                Placement::TopLeft { margin_left: left as i32, margin_top: top as i32 }
            } else {
                Placement::Centered
            }
        },
    }
}

} // verus!
