//! The coloured border around a screen.

use vstd::prelude::*;

use crate::widgets::{center_rect, centered, Rect};

verus! {

/// Columns that the border takes from the width of its area, both sides
/// together.
pub const BORDER_COLUMNS: u16 = 4;

/// Rows that the border takes from the height of its area, top and bottom
/// together.
pub const BORDER_ROWS: u16 = 2;

/// A border that fills its area with colour and leaves the middle dark.
#[derive(Debug, Copy, Clone, PartialEq, Eq, Structural)]
pub struct RainbowBorderWidget {
    pub edge_animated: bool,
    pub ticks: u64,
}

/// How the border is coloured.
#[derive(Debug, Copy, Clone, PartialEq, Eq, Structural)]
pub enum Backdrop {
    /// Colours that move with the count of ticks.
    Animated { ticks: u64 },
    /// Colours that stand still.
    Still,
}

/// The part of `area` that the border leaves dark: two columns and one row in
/// from each edge, centred.
pub open spec fn border_inner(area: Rect) -> Rect {
    centered(area, (area.width - BORDER_COLUMNS) as u16, (area.height - BORDER_ROWS) as u16)
}

impl RainbowBorderWidget {
    /// The part of `area` inside the border.
    pub fn inner(&self, area: Rect) -> (inner: Rect)
        requires
            area.width >= BORDER_COLUMNS,
            area.height >= BORDER_ROWS,
        ensures
            inner == border_inner(area),
    {
        center_rect(area, area.width - BORDER_COLUMNS, area.height - BORDER_ROWS)
    }

    /// How the border is coloured: moving if the edge is animated, still if
    /// not.
    pub fn backdrop(&self) -> (backdrop: Backdrop)
        ensures
            backdrop == if self.edge_animated {
                Backdrop::Animated { ticks: self.ticks }
            } else {
                Backdrop::Still
            },
    {
        if self.edge_animated {
            Backdrop::Animated { ticks: self.ticks }
        } else {
            Backdrop::Still
        }
    }
}

} // verus!
