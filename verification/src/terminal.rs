use vstd::prelude::*;
use crate::editor::Position;

verus! {

/// Width and height of the usable terminal viewport in character cells,
/// queried once when the device is taken over and immutable afterwards.
#[derive(Clone, Copy, Debug, PartialEq, Eq, Structural)]
pub struct Size {
    pub width: u16,
    pub height: u16,
}

/// The 1-based coordinate the cursor-positioning escape sequence expects
/// for a zero-based logical coordinate: one more than the logical value,
/// saturating at the largest representable value, never wrapping.
pub open spec fn one_based(v: int) -> int {
    if v + 1 > u16::MAX { u16::MAX as int } else { v + 1 }
}

/// Translates a logical cursor position (zero-based document coordinate
/// space) into the physical terminal coordinate space (1-based, as the
/// escape-sequence protocol expects), saturating on each axis.
pub fn terminal_coords(p: &Position) -> (c: (u16, u16))
    ensures
        c.0 == one_based(p.x as int),
        c.1 == one_based(p.y as int),
{
    let x: u16 = if p.x >= u16::MAX as usize {
        u16::MAX
    } else {
        (p.x + 1) as u16
    };
    let y: u16 = if p.y >= u16::MAX as usize {
        u16::MAX
    } else {
        (p.y + 1) as u16
    };
    (x, y)
}

} // verus!
