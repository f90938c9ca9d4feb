use vstd::prelude::*;
use ratatui::layout::{Constraint, Direction, Layout, Rect};

verus! {

/// A rectangle of the terminal: left column, top row, width and height.
pub struct Area {
    pub x: u16,
    pub y: u16,
    pub width: u16,
    pub height: u16,
}

/// The middle part of `area` when the layout solver of `ratatui` splits it
/// in three by the percentages `outer`, `middle`, `outer`, which add up to
/// at most 100: top to bottom when `vertical`, else left to right. Rectangles are given as
/// `(x, y, width, height)`.
pub uninterp spec fn percent_split_middle(
    vertical: bool,
    area: (u16, u16, u16, u16),
    outer: u16,
    middle: u16,
) -> (u16, u16, u16, u16);

/// The rectangle of an area as a tuple.
pub open spec fn area_tuple(a: Area) -> (u16, u16, u16, u16) {
    (a.x, a.y, a.width, a.height)
}

/// `ratatui::layout::Layout::split` with three percentage constraints
/// `outer`, `middle`, `outer` that together take at most the whole area;
/// the middle rectangle is returned. There the solver's optimum is unique
/// and its values are rounded, so the result depends on the arguments
/// alone. When the percentages add up to more than the area, several
/// splits cost the same and the one the solver stops at can differ from
/// call to call, so such constraints are not accepted here.
#[verifier::external_body]
fn split_middle(vertical: bool, area: &Area, outer: u16, middle: u16) -> (res: Area)
    requires
        2 * outer + middle <= 100,
    ensures
        area_tuple(res) == percent_split_middle(vertical, area_tuple(*area), outer, middle),
{
    let direction = if vertical { Direction::Vertical } else { Direction::Horizontal };
    let rect = Rect { x: area.x, y: area.y, width: area.width, height: area.height };
    let parts = Layout::default().direction(direction).constraints([
        Constraint::Percentage(outer),
        Constraint::Percentage(middle),
        Constraint::Percentage(outer),
    ]).split(rect);
    Area { x: parts[1].x, y: parts[1].y, width: parts[1].width, height: parts[1].height }
}

/// A rectangle of `percent_x` by `percent_y` percent of `r`, centred in it:
/// `r` is cut in three rows and the middle row in three columns, each time
/// with equal margins.
pub fn centered_rect(percent_x: u16, percent_y: u16, r: &Area) -> (res: Area)
    requires
        percent_x <= 100,
        percent_y <= 100,
    ensures
        area_tuple(res) == percent_split_middle(
            false,
            percent_split_middle(true, area_tuple(*r), ((100 - percent_y) / 2) as u16, percent_y),
            ((100 - percent_x) / 2) as u16,
            percent_x,
        ),
{
    let row = split_middle(true, r, (100 - percent_y) / 2, percent_y);
    split_middle(false, &row, (100 - percent_x) / 2, percent_x)
}

} // verus!
