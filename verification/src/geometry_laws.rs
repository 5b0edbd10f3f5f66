//! What areas, points and ranges are, in numbers of columns and rows.

use crate::event::MouseEvent;
use crate::geometry::{
    event_point, fitted_rect, range_between, shared_rect, Rect, SelectionPoint, SelectionRange,
};
use vstd::prelude::*;

verus! {

/// A cell lies in a rectangle exactly if its column and row are none before the first and fewer past
/// it than the size says. The last column and row that a `u16` counts lie in no rectangle.
pub proof fn law_cells_of_a_rectangle(area: Rect, column: u16, row: u16)
    ensures
        area.contains(column, row) <==> {
            &&& column != u16::MAX && row != u16::MAX
            &&& 0 <= column - area.x < area.width
            &&& 0 <= row - area.y < area.height
        },
{
}

/// The edges of a rectangle are its position and, cut to what a `u16` counts, its position moved by
/// its size.
pub proof fn law_edges_of_a_rectangle(area: Rect)
    ensures
        area.left() == area.x,
        area.top() == area.y,
        area.x + area.width <= u16::MAX ==> area.right() == area.x + area.width,
        area.x + area.width > u16::MAX ==> area.right() == u16::MAX,
        area.y + area.height <= u16::MAX ==> area.bottom() == area.y + area.height,
        area.y + area.height > u16::MAX ==> area.bottom() == u16::MAX,
        area.is_empty() <==> area.width == 0 || area.height == 0,
{
}

/// A row crosses a rectangle exactly if the rectangle has a width and the row is one of its rows, and
/// a rectangle has a cell exactly if its first cell lies in it.
pub proof fn law_rows_of_a_rectangle(area: Rect, row: u16)
    ensures
        area.has_row(row) <==> area.width != 0 && row != u16::MAX && 0 <= row - area.y < area.height,
        area.has_cells() <==> area.contains(area.x, area.y),
{
}

/// A fitted rectangle has the position and the size asked for, but for a size that would take a far
/// edge past `u16::MAX`, which takes it just there.
pub proof fn law_fitted_rectangle(x: u16, y: u16, width: int, height: int)
    requires
        0 <= width,
        0 <= height,
    ensures
        ({
            let fitted = fitted_rect(x, y, width, height);
            &&& fitted.x == x && fitted.y == y
            &&& x + width <= u16::MAX ==> fitted.width == width
            &&& x + width > u16::MAX ==> x + fitted.width == u16::MAX
            &&& y + height <= u16::MAX ==> fitted.height == height
            &&& y + height > u16::MAX ==> y + fitted.height == u16::MAX
        }),
{
}

/// Rectangles that share no cell share a rectangle without size at the origin; others share one with
/// a size, which does not reach past `u16::MAX`.
pub proof fn law_size_of_a_shared_area(a: Rect, b: Rect)
    ensures
        (exists|column: u16, row: u16| #[trigger]
            a.contains(column, row) && b.contains(column, row)) <==> !shared_rect(a, b).is_empty(),
        shared_rect(a, b).x + shared_rect(a, b).width <= u16::MAX,
        shared_rect(a, b).y + shared_rect(a, b).height <= u16::MAX,
        shared_rect(a, b).is_empty() ==> shared_rect(a, b) == (Rect {
            x: 0,
            y: 0,
            width: 0,
            height: 0,
        }),
{
    let shared = shared_rect(a, b);
    if !shared.is_empty() {
        assert(a.contains(shared.x, shared.y) && b.contains(shared.x, shared.y));
    }
}

/// The point of an event is at its row and column.
pub proof fn law_point_of_an_event(event: MouseEvent)
    ensures
        event_point(event).row == event.row,
        event_point(event).column == event.column,
{
}

/// Cells come in reading order: by row, and in a row by column.
pub proof fn law_reading_order(a: SelectionPoint, b: SelectionPoint)
    ensures
        a.at_or_before(b) <==> a.row * 0x1_0000 + a.column <= b.row * 0x1_0000 + b.column,
{
}

/// The range between two points has these as its ends, the one that is read first as its start, and
/// holds exactly the cells that are read from the one to the other.
pub proof fn law_range_between_points(a: SelectionPoint, b: SelectionPoint, column: u16, row: u16)
    ensures
        ({
            let range = range_between(a, b);
            let cell = row * 0x1_0000 + column;
            let at_a = a.row * 0x1_0000 + a.column;
            let at_b = b.row * 0x1_0000 + b.column;
            &&& (range.start == a && range.end == b && at_a <= at_b) || (range.start == b
                && range.end == a && at_b <= at_a)
            &&& range.selects(column, row) <==> at_a <= cell <= at_b || at_b <= cell <= at_a
        }),
{
}

/// A range holds exactly the cells that are read from its start to its end.
pub proof fn law_cells_of_a_range(range: SelectionRange, column: u16, row: u16)
    ensures
        range.selects(column, row) <==> range.start.row * 0x1_0000 + range.start.column <= row
            * 0x1_0000 + column <= range.end.row * 0x1_0000 + range.end.column,
{
}

/// The selected columns of a row in an area are a run of columns, all of them and none but them
/// selected in that area; there is no run only if none is.
pub proof fn law_run_of_selected_columns(range: SelectionRange, row: u16, area: Rect)
    ensures
        match range.columns(row, area) {
            Some((first, end)) => {
                &&& area.left() <= first < end <= area.right()
                &&& forall|column: u16|
                    first <= column < end <==> area.left() <= column < area.right()
                        && #[trigger] range.selects(column, row)
            },
            None => forall|column: u16|
                area.left() <= column < area.right() ==> !#[trigger] range.selects(column, row),
        },
{
}

} // verus!
