//! Where in the conversation the mouse points.

use vstd::prelude::*;

verus! {

/// A rectangle of the screen, in cells.
#[derive(Debug, PartialEq, Eq, Structural, Clone, Copy)]
pub struct Rect {
    pub x: u16,
    pub y: u16,
    pub width: u16,
    pub height: u16,
}

impl Default for Rect {
    /// The empty rectangle at the origin.
    fn default() -> (r: Rect)
        ensures
            r == (Rect { x: 0, y: 0, width: 0, height: 0 }),
    {
        Rect { x: 0, y: 0, width: 0, height: 0 }
    }
}

/// Whether a row lies within the rows of an area.
pub open spec fn row_in_area(layout_area: Rect, mouse_y: u16) -> bool {
    layout_area.y <= mouse_y < layout_area.y + layout_area.height
}

/// The line and the column of the text under the mouse, counted from the
/// area's corner; `None` where the mouse is above or below the area.
pub open spec fn text_coordinates(layout_area: Rect, mouse_x: u16, mouse_y: u16) -> Option<
    (usize, usize),
> {
    if row_in_area(layout_area, mouse_y) {
        Some(((mouse_y - layout_area.y) as usize, (mouse_x - layout_area.x) as usize))
    } else {
        None
    }
}

/// The line and the column of the text under the mouse. The area must end
/// on the screen, and the mouse must not stand left of it.
pub fn get_text_coordinates(layout_area: Rect, mouse_x: u16, mouse_y: u16) -> (r: Option<
    (usize, usize),
>)
    requires
        layout_area.y + layout_area.height <= u16::MAX,
        layout_area.x <= mouse_x,
    ensures
        r == text_coordinates(layout_area, mouse_x, mouse_y),
{
    if mouse_y >= layout_area.y && mouse_y < layout_area.y + layout_area.height {
        let line_index = (mouse_y - layout_area.y) as usize;
        let char_index = (mouse_x - layout_area.x) as usize;
        Some((line_index, char_index))
    } else {
        None
    }
}

/// Whether the mouse stands where [`get_text_coordinates`] can be asked.
pub fn can_locate(layout_area: Rect, mouse_x: u16) -> (b: bool)
    ensures
        b == (layout_area.y + layout_area.height <= u16::MAX && layout_area.x <= mouse_x),
{
    let end: u32 = layout_area.y as u32 + layout_area.height as u32;
    end <= 0xffff && layout_area.x <= mouse_x
}

} // verus!
