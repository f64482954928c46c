//! What the wizard shows: the event log and the geometry of its frame.

pub mod log_block;
pub mod rainbow_border;
pub mod smart_text;

use vstd::prelude::*;

verus! {

/// A rectangle of terminal cells: its top left corner and its size.
#[derive(Debug, Copy, Clone, PartialEq, Eq, Structural)]
pub struct Rect {
    pub x: u16,
    pub y: u16,
    pub width: u16,
    pub height: u16,
}

/// The size that `tui::layout::Rect::new` gives a rectangle whose area would
/// not fit in sixteen bits.
pub uninterp spec fn clipped_size(width: u16, height: u16) -> (u16, u16);

/// The rectangle that `tui::layout::Rect::new` makes of a corner and a size.
pub open spec fn sized_rect(x: u16, y: u16, width: u16, height: u16) -> Rect {
    if width * height <= u16::MAX {
        Rect { x, y, width, height }
    } else {
        Rect { x, y, width: clipped_size(width, height).0, height: clipped_size(width, height).1 }
    }
}

/// `tui::layout::Rect::new` keeps the corner. It keeps the size too while the
/// area fits in sixteen bits; a larger one it scales down, by floating point
/// arithmetic that is not restated here.
#[verifier::external_body]
pub(crate) fn new_rect(x: u16, y: u16, width: u16, height: u16) -> (rect: Rect)
    ensures
        rect.x == x,
        rect.y == y,
        width * height <= u16::MAX ==> rect.width == width && rect.height == height,
        width * height > u16::MAX ==> (rect.width, rect.height) == clipped_size(width, height),
{
    let made = tui::layout::Rect::new(x, y, width, height);
    Rect { x: made.x, y: made.y, width: made.width, height: made.height }
}

/// The rectangle of the size asked for, cut down to what `parent_size` can
/// hold, placed so that it is centred in a parent whose corner is the origin.
pub open spec fn centered(parent_size: Rect, width: u16, height: u16) -> Rect {
    let w = if width > parent_size.width {
        parent_size.width
    } else {
        width
    };
    let h = if height > parent_size.height {
        parent_size.height
    } else {
        height
    };
    sized_rect(
        (parent_size.width / 2 - w / 2) as u16,
        (parent_size.height / 2 - h / 2) as u16,
        w,
        h,
    )
}

pub fn center_rect(parent_size: Rect, width: u16, height: u16) -> (rect: Rect)
    ensures
        rect == centered(parent_size, width, height),
{
    let mut width = width;
    let mut height = height;
    if width > parent_size.width {
        width = parent_size.width;
    }
    if height > parent_size.height {
        height = parent_size.height;
    }
    let x = parent_size.width / 2 - width / 2;
    let y = parent_size.height / 2 - height / 2;
    new_rect(x, y, width, height)
}

/// Where nothing is clipped, the centred rectangle has the size asked for,
/// cut down to the parent's, and lies inside the parent's extent.
pub proof fn lemma_centered_fits(parent_size: Rect, width: u16, height: u16)
    requires
        parent_size.width * parent_size.height <= u16::MAX,
    ensures
        centered(parent_size, width, height).width == if width > parent_size.width {
            parent_size.width
        } else {
            width
        },
        centered(parent_size, width, height).height == if height > parent_size.height {
            parent_size.height
        } else {
            height
        },
        centered(parent_size, width, height).x + centered(parent_size, width, height).width
            <= parent_size.width,
        centered(parent_size, width, height).y + centered(parent_size, width, height).height
            <= parent_size.height,
{
    let w: int = if width > parent_size.width {
        parent_size.width as int
    } else {
        width as int
    };
    let h: int = if height > parent_size.height {
        parent_size.height as int
    } else {
        height as int
    };
    assert(w * h <= parent_size.width * parent_size.height) by (nonlinear_arith)
        requires
            0 <= w <= parent_size.width,
            0 <= h <= parent_size.height,
    ;
}

} // verus!
