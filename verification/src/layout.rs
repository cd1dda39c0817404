//! Hit testing for mouse input: which drawn region a click lands in and
//! which list row it selects.  The regions are remembered by the renderer
//! as plain cell rectangles.

use vstd::prelude::*;

verus! {

/// A drawn region of the screen, in terminal cells.
#[derive(Debug, Clone, Copy, PartialEq, Eq, Structural)]
pub struct Region {
    pub x: u16,
    pub y: u16,
    pub width: u16,
    pub height: u16,
}

/// The regions a frame was laid out into, as far as they were drawn.
#[derive(Debug, Clone, Copy, Default)]
pub struct LayoutRegions {
    pub library_list: Option<Region>,
    pub chapters: Option<Region>,
    pub controls: Option<Region>,
    pub progress_bar: Option<Region>,
    pub info_panel: Option<Region>,
}

/// Whether a cell lies inside a region.
pub open spec fn spec_point_in_region(x: int, y: int, r: Region) -> bool {
    r.x <= x < r.x + r.width && r.y <= y < r.y + r.height
}

/// Whether the cell at column `x`, row `y` lies inside the region.
pub fn point_in_region(x: u16, y: u16, region: &Region) -> (r: bool)
    ensures
        r == spec_point_in_region(x as int, y as int, *region),
{
    x >= region.x && (x as u32) < (region.x as u32) + (region.width as u32) && y >= region.y && (
    y as u32) < (region.y as u32) + (region.height as u32)
}

/// The list row a click on row `y` selects inside a bordered region: the
/// row under the top border, counting from zero, and nothing on the
/// borders themselves.
pub fn clicked_row(y: u16, region: &Region) -> (r: Option<usize>)
    ensures
        r matches Some(i) ==> region.y < y && (y as int) < region.y + region.height - 1 && i == y
            - region.y - 1,
        r is None ==> !(region.y < y && (y as int) < region.y + region.height - 1),
{
    if y > region.y && (y as u32) + 1 < (region.y as u32) + (region.height as u32) {
        Some((y - region.y - 1) as usize)
    } else {
        None
    }
}

/// The list row a click selects, limited to rows that hold an entry.
pub fn clicked_index(y: u16, region: &Region, len: usize) -> (r: Option<usize>)
    ensures
        r matches Some(i) ==> i < len && region.y < y && (y as int) < region.y + region.height - 1
            && i == y - region.y - 1,
        r is None ==> !(region.y < y && (y as int) < region.y + region.height - 1 && (y as int)
            - region.y - 1 < len),
{
    match clicked_row(y, region) {
        Some(i) => {
            if i < len {
                Some(i)
            } else {
                None
            }
        },
        None => None,
    }
}

} // verus!
