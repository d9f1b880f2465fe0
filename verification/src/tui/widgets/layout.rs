// Rectangles of the terminal, and the centred popup areas that the dialogs are drawn in.
use vstd::prelude::*;

verus! {

/// A rectangle of the terminal, in cells.
#[derive(Clone, Copy, Debug, PartialEq, Eq, Structural)]
pub struct Area {
    pub x: u16,
    pub y: u16,
    pub width: u16,
    pub height: u16,
}

/// Whether `part` lies within `area`.
pub open spec fn within(part: Area, area: Area) -> bool {
    &&& area.x <= part.x
    &&& part.x + part.width <= area.x + area.width
    &&& area.y <= part.y
    &&& part.y + part.height <= area.y + area.height
}

/// Whether `part` is a slice of `area` along the vertical axis (a band of rows as wide as
/// the area) or the horizontal one (a band of columns as high as it).
pub open spec fn slice_of(vertical: bool, part: Area, area: Area) -> bool {
    &&& within(part, area)
    &&& vertical ==> part.x == area.x && part.width == area.width
    &&& !vertical ==> part.y == area.y && part.height == area.height
}

/// `ratatui::layout::Layout::split` with one `Constraint::Percentage` per percentage, in
/// the given direction: one part per percentage, each a slice of the area. Which slices the
/// solver picks is left unsaid: where several splits are equally good, its choice follows
/// the order of a randomly seeded hash map, so it may differ from one run to the next. That
/// every part lies within the area follows from the solver's required constraints (each
/// boundary between the area's start and end) and the rounding of the boundaries to cells.
#[verifier::external_body]
fn split_by_percent(vertical: bool, percents: &Vec<u16>, area: Area) -> (r: Vec<Area>)
    ensures
        r@.len() == percents@.len(),
        forall|i: int| 0 <= i < r@.len() ==> slice_of(vertical, #[trigger] r@[i], area),
{
    let direction = if vertical { ratatui::layout::Direction::Vertical } else { ratatui::layout::Direction::Horizontal };
    let rect = ratatui::layout::Rect { x: area.x, y: area.y, width: area.width, height: area.height };
    let constraints = percents.iter().map(|p| ratatui::layout::Constraint::Percentage(*p));
    let parts = ratatui::layout::Layout::default().direction(direction).constraints(constraints).split(rect);
    parts.iter().map(|p| Area { x: p.x, y: p.y, width: p.width, height: p.height }).collect()
}

/// The area of a popup `percent_x` wide and `percent_y` high in the middle of `area`: the
/// middle of three rows (the outer two sharing what is left), then the middle of three
/// columns of it, as the layout solver places them. It always lies within `area`.
pub fn centered_rect(percent_x: u16, percent_y: u16, area: Area) -> (r: Area)
    requires
        percent_x <= 100,
        percent_y <= 100,
    ensures
        within(r, area),
{
    let vy = (100 - percent_y) / 2;
    let row_parts = vec![vy, percent_y, vy];
    let rows = split_by_percent(true, &row_parts, area);
    let vx = (100 - percent_x) / 2;
    let col_parts = vec![vx, percent_x, vx];
    let middle = rows[1];
    assert(slice_of(true, rows@[1], area));
    let cols = split_by_percent(false, &col_parts, middle);
    assert(slice_of(false, cols@[1], middle));
    cols[1]
}

} // verus!
