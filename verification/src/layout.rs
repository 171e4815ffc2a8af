//! The frame layout: one screen split top-to-bottom into a fixed-height
//! header band, a flexible body band, and a fixed-height footer band, with a
//! uniform margin around the whole composition.
//!
//! No band reaches outside the area assigned to it; on a screen tall enough
//! for all three the body keeps at least its minimum height.

use vstd::prelude::*;

verus! {

/// The uniform margin around the composition, in cells.
pub const MARGIN: u16 = 2;

/// The fixed height of the header band (the tab strip).
pub const HEADER_HEIGHT: u16 = 3;

/// The fixed height of the footer band.
pub const FOOTER_HEIGHT: u16 = 3;

/// The least height the body band is owed when the screen allows it.
pub const MIN_BODY_HEIGHT: u16 = 2;

/// One rectangular region of the screen, in cells.
#[derive(PartialEq, Eq, Structural, Clone, Copy, Debug)]
pub struct Region {
    pub x: u16,
    pub y: u16,
    pub width: u16,
    pub height: u16,
}

/// What is left of an extent after the margin is taken off both sides.
pub open spec fn inner_extent(total: int) -> int {
    if total >= 2 * MARGIN {
        total - 2 * MARGIN
    } else {
        0
    }
}

/// The header's share of an inner height: its fixed height, clipped when the
/// screen is shorter than that.
pub open spec fn header_share(ih: int) -> int {
    if ih >= HEADER_HEIGHT {
        HEADER_HEIGHT as int
    } else {
        ih
    }
}

/// The footer's share of an inner height: its fixed height, clipped to what
/// the header leaves over.
pub open spec fn footer_share(ih: int) -> int {
    if ih - header_share(ih) >= FOOTER_HEIGHT {
        FOOTER_HEIGHT as int
    } else {
        ih - header_share(ih)
    }
}

/// The body's share of an inner height: whatever the header and the footer
/// leave over.
pub open spec fn body_share(ih: int) -> int {
    ih - header_share(ih) - footer_share(ih)
}

/// Split a `width` by `height` screen into the header, body and footer
/// bands, in that order from the top: a margin all round, then the three
/// bands stacked without gap or overlap. When the screen is too short the
/// header is served first, then the footer, then the body.
pub fn layout_regions(width: u16, height: u16) -> (r: (Region, Region, Region))
    ensures
        r.0.x == r.1.x && r.1.x == r.2.x,
        r.0.width == r.1.width && r.1.width == r.2.width,
        r.0.width as int == inner_extent(width as int),
        r.0.x as int == (if width as int >= 2 * MARGIN {
            MARGIN as int
        } else {
            0
        }),
        r.0.y as int == (if height as int >= 2 * MARGIN {
            MARGIN as int
        } else {
            0
        }),
        r.1.y == r.0.y + r.0.height,
        r.2.y == r.1.y + r.1.height,
        r.0.height as int == header_share(inner_extent(height as int)),
        r.1.height as int == body_share(inner_extent(height as int)),
        r.2.height as int == footer_share(inner_extent(height as int)),
        r.0.height + r.1.height + r.2.height == inner_extent(height as int),
        r.2.y + r.2.height <= height,
        height >= 2 * MARGIN + HEADER_HEIGHT + MIN_BODY_HEIGHT + FOOTER_HEIGHT ==> {
            &&& r.0.height == HEADER_HEIGHT
            &&& r.2.height == FOOTER_HEIGHT
            &&& r.1.height >= MIN_BODY_HEIGHT
        },
{
    let x: u16 = if width >= 2 * MARGIN {
        MARGIN
    } else {
        0
    };
    let y: u16 = if height >= 2 * MARGIN {
        MARGIN
    } else {
        0
    };
    let iw: u16 = if width >= 2 * MARGIN {
        width - 2 * MARGIN
    } else {
        0
    };
    let ih: u16 = if height >= 2 * MARGIN {
        height - 2 * MARGIN
    } else {
        0
    };
    let hh: u16 = if ih >= HEADER_HEIGHT {
        HEADER_HEIGHT
    } else {
        ih
    };
    let fh: u16 = if ih - hh >= FOOTER_HEIGHT {
        FOOTER_HEIGHT
    } else {
        ih - hh
    };
    let bh: u16 = ih - hh - fh;
    let header = Region { x, y, width: iw, height: hh };
    let body = Region { x, y: y + hh, width: iw, height: bh };
    let footer = Region { x, y: y + hh + bh, width: iw, height: fh };
    (header, body, footer)
}

} // verus!
