//! Popup geometry: where a fixed-size modal sits inside the available
//! area, clamped when the terminal is smaller than the modal.

use vstd::prelude::*;

verus! {

/// A rectangle of terminal cells.
#[derive(Debug, Clone, Copy, PartialEq, Eq, Structural)]
pub struct Rect {
    pub x: u16,
    pub y: u16,
    pub width: u16,
    pub height: u16,
}

/// A `width` by `height` rectangle centered in `r`, shrunk to fit.
pub fn centered_rect_abs(width: u16, height: u16, r: Rect) -> (c: Rect)
    ensures
        c.x as int == (if r.width >= width {
            (r.width - width) / 2
        } else {
            0
        }),
        c.y as int == (if r.height >= height {
            (r.height - height) / 2
        } else {
            0
        }),
        c.width == (if width <= r.width {
            width
        } else {
            r.width
        }),
        c.height == (if height <= r.height {
            height
        } else {
            r.height
        }),
{
    let offset_x = if r.width >= width {
        (r.width - width) / 2
    } else {
        0
    };
    let offset_y = if r.height >= height {
        (r.height - height) / 2
    } else {
        0
    };
    let w = if width <= r.width {
        width
    } else {
        r.width
    };
    let h = if height <= r.height {
        height
    } else {
        r.height
    };
    Rect { x: offset_x, y: offset_y, width: w, height: h }
}

} // verus!
