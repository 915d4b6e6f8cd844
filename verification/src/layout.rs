//! Placement of the entry form on the screen.
use ratatui::layout::{Constraint, Direction, Layout, Rect};
use vstd::prelude::*;

verus! {

/// A rectangle of terminal cells.
#[derive(Clone, Copy, Debug, PartialEq, Eq, Structural)]
pub struct Area {
    pub x: u16,
    pub y: u16,
    pub width: u16,
    pub height: u16,
}

/// Name for the middle rectangle that `Layout::split` gives when it cuts
/// `(x, y, width, height)` vertically (or horizontally) into three parts of
/// `first`, `middle` and `last` percent.
pub uninterp spec fn ratatui_percent_middle(
    x: int,
    y: int,
    width: int,
    height: int,
    vertical: bool,
    first: int,
    middle: int,
    last: int,
) -> (int, int, int, int);

/// `Layout::split` with three `Constraint::Percentage` parts, keeping the
/// middle part.  Where the solver puts it is left to the name
/// `ratatui_percent_middle`; claimed beyond it is what the solver's required
/// constraints give every part: it keeps the area's extent across the cut
/// and lies inside the area along it.
#[verifier::external_body]
fn percent_middle(area: Area, vertical: bool, first: u16, middle: u16, last: u16) -> (r: Area)
    ensures
        vertical ==> r.x == area.x && r.width == area.width && area.y <= r.y && r.y + r.height
            <= area.y + area.height,
        !vertical ==> r.y == area.y && r.height == area.height && area.x <= r.x && r.x + r.width
            <= area.x + area.width,
        (r.x as int, r.y as int, r.width as int, r.height as int) == ratatui_percent_middle(
            area.x as int,
            area.y as int,
            area.width as int,
            area.height as int,
            vertical,
            first as int,
            middle as int,
            last as int,
        ),
{
    let direction = if vertical { Direction::Vertical } else { Direction::Horizontal };
    let chunks = Layout::default()
        .direction(direction)
        .constraints([Constraint::Percentage(first), Constraint::Percentage(middle), Constraint::Percentage(last)])
        .split(Rect { x: area.x, y: area.y, width: area.width, height: area.height });
    Area { x: chunks[1].x, y: chunks[1].y, width: chunks[1].width, height: chunks[1].height }
}

/// The rectangle of `percent_x` by `percent_y` percent centred in `r`: the
/// middle of a vertical three-way cut, then of a horizontal one, with equal
/// margins on both sides.  The result lies inside `r`.
pub fn centered_rect(percent_x: u16, percent_y: u16, r: Area) -> (c: Area)
    requires
        percent_x <= 100,
        percent_y <= 100,
    ensures
        r.x <= c.x && c.x + c.width <= r.x + r.width,
        r.y <= c.y && c.y + c.height <= r.y + r.height,
        ({
            let my = (100 - percent_y) / 2;
            let mx = (100 - percent_x) / 2;
            let row = ratatui_percent_middle(
                r.x as int,
                r.y as int,
                r.width as int,
                r.height as int,
                true,
                my as int,
                percent_y as int,
                my as int,
            );
            (c.x as int, c.y as int, c.width as int, c.height as int) == ratatui_percent_middle(
                row.0,
                row.1,
                row.2,
                row.3,
                false,
                mx as int,
                percent_x as int,
                mx as int,
            )
        }),
{
    let my = (100 - percent_y) / 2;
    let row = percent_middle(r, true, my, percent_y, my);
    let mx = (100 - percent_x) / 2;
    percent_middle(row, false, mx, percent_x, mx)
}

} // verus!
