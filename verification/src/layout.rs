use ratatui::layout::{Constraint, Direction, Layout, Rect};
use vstd::prelude::*;

verus! {

/// A screen rectangle as `(x, y, width, height)`.
pub type Area = (u16, u16, u16, u16);

/// `inner` lies within `outer`.
pub open spec fn within(inner: Area, outer: Area) -> bool {
    &&& inner.0 >= outer.0
    &&& inner.1 >= outer.1
    &&& inner.0 + inner.2 <= outer.0 + outer.2
    &&& inner.1 + inner.3 <= outer.1 + outer.3
}

/// What ratatui's layout solver makes of an area split into three parts of
/// the given percentages, stacked top to bottom (`vertical`) or side by side.
pub uninterp spec fn percent_thirds(
    area: (u16, u16, u16, u16),
    vertical: bool,
    first: u16,
    middle: u16,
    last: u16,
) -> ((u16, u16, u16, u16), (u16, u16, u16, u16), (u16, u16, u16, u16));

/// Calls ratatui's `Layout::areas::<3>`, for a layout in the given direction
/// with three percentage constraints, on `Rect::new(..)` of the area.
/// Trusted: the three areas are the named solver result for these arguments
/// (the number of areas equals the number of constraints, so `areas` does
/// not panic), and each lies within the area: the solver bounds every
/// segment by the area's start and end, the other side is copied from the
/// area, and `Rect::new` only shrinks a size that would overflow.
#[verifier::external_body]
fn split_percentages(area: Area, vertical: bool, first: u16, middle: u16, last: u16) -> (r: (Area, Area, Area))
    ensures
        r == percent_thirds(area, vertical, first, middle, last),
        within(r.0, area),
        within(r.1, area),
        within(r.2, area),
{
    let direction = if vertical { Direction::Vertical } else { Direction::Horizontal };
    let [a, b, c] = Layout::new(
        direction,
        [Constraint::Percentage(first), Constraint::Percentage(middle), Constraint::Percentage(last)],
    ).areas::<3>(Rect::new(area.0, area.1, area.2, area.3));
    ((a.x, a.y, a.width, a.height), (b.x, b.y, b.width, b.height), (c.x, c.y, c.width, c.height))
}

/// The area centred in `r` that takes `percent_y` percent of its height and
/// then `percent_x` percent of that band's width, the rest shared equally
/// (rounded down) on both sides.
pub open spec fn centered_area(percent_x: u16, percent_y: u16, r: Area) -> Area {
    let margin_y = ((100 - percent_y) / 2) as u16;
    let margin_x = ((100 - percent_x) / 2) as u16;
    let band = percent_thirds(r, true, margin_y, percent_y, margin_y).1;
    percent_thirds(band, false, margin_x, percent_x, margin_x).1
}

/// A popup area centred in `r` (see [`centered_area`]); it lies within `r`.
pub fn centered_rect(percent_x: u16, percent_y: u16, r: Area) -> (c: Area)
    requires
        percent_x <= 100,
        percent_y <= 100,
    ensures
        c == centered_area(percent_x, percent_y, r),
        within(c, r),
{
    let margin_y = (100 - percent_y) / 2;
    let margin_x = (100 - percent_x) / 2;
    let rows = split_percentages(r, true, margin_y, percent_y, margin_y);
    let columns = split_percentages(rows.1, false, margin_x, percent_x, margin_x);
    columns.1
}

} // verus!
