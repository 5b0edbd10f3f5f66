//! Screen areas, points in them, and ranges of cells in reading order.

use crate::event::MouseEvent;
use vstd::prelude::*;

verus! {

/// A rectangle of screen cells.
///
/// Its right and bottom edges are exclusive and never lie past `u16::MAX`, whatever its size says.
#[derive(Debug, Clone, Copy, PartialEq, Eq, Structural)]
pub struct Rect {
    pub x: u16,
    pub y: u16,
    pub width: u16,
    pub height: u16,
}

/// A rectangle at a column and row whose size is cut so that both far edges fit in `u16`.
pub open spec fn fitted_rect(x: u16, y: u16, width: int, height: int) -> Rect {
    Rect {
        x,
        y,
        width: (if x + width > u16::MAX { u16::MAX - x } else { width }) as u16,
        height: (if y + height > u16::MAX { u16::MAX - y } else { height }) as u16,
    }
}

impl Rect {
    /// Whether the cell at a column and row lies in the rectangle.
    pub open spec fn contains(self, column: u16, row: u16) -> bool {
        &&& self.left() <= column < self.right()
        &&& self.top() <= row < self.bottom()
    }

    /// Whether a row crosses the rectangle, which it does only if the rectangle has a width.
    pub open spec fn has_row(self, row: u16) -> bool {
        self.width > 0 && self.top() <= row < self.bottom()
    }

    /// Whether any cell lies in the rectangle.
    pub open spec fn has_cells(self) -> bool {
        self.left() < self.right() && self.top() < self.bottom()
    }

    /// A rectangle whose size is cut so that both far edges fit in `u16`.
    pub fn new(x: u16, y: u16, width: u16, height: u16) -> (r: Rect)
        ensures
            r == fitted_rect(x, y, width as int, height as int),
    {
        let max_width: u16 = u16::MAX - x;
        let max_height: u16 = u16::MAX - y;
        Rect {
            x,
            y,
            width: if width > max_width { max_width } else { width },
            height: if height > max_height { max_height } else { height },
        }
    }

    /// Whether the rectangle has no width or no height.
    #[verifier::allow_in_spec]
    pub fn is_empty(self) -> bool
        returns
            self.width == 0 || self.height == 0,
    {
        self.width == 0 || self.height == 0
    }

    /// The first column.
    #[verifier::allow_in_spec]
    pub fn left(self) -> u16
        returns
            self.x,
    {
        self.x
    }

    /// The column after the last one, at most `u16::MAX`.
    #[verifier::allow_in_spec]
    pub fn right(self) -> u16
        returns
            self.x.saturating_add(self.width),
    {
        self.x.saturating_add(self.width)
    }

    /// The first row.
    #[verifier::allow_in_spec]
    pub fn top(self) -> u16
        returns
            self.y,
    {
        self.y
    }

    /// The row after the last one, at most `u16::MAX`.
    #[verifier::allow_in_spec]
    pub fn bottom(self) -> u16
        returns
            self.y.saturating_add(self.height),
    {
        self.y.saturating_add(self.height)
    }
}

/// A cell of the screen.
#[derive(Debug, Clone, Copy, PartialEq, Eq, Structural)]
pub struct SelectionPoint {
    pub row: u16,
    pub column: u16,
}

impl SelectionPoint {
    /// Whether a cell comes before another one in reading order, or is the same cell.
    pub open spec fn at_or_before(self, other: SelectionPoint) -> bool {
        self.row < other.row || (self.row == other.row && self.column <= other.column)
    }
}

/// The cells from `start` to `end` in reading order, both included.
#[derive(Debug, Clone, Copy, PartialEq, Eq, Structural)]
pub struct SelectionRange {
    pub start: SelectionPoint,
    pub end: SelectionPoint,
}

/// The range between two points, whichever of them comes first.
pub open spec fn range_between(anchor: SelectionPoint, current: SelectionPoint) -> SelectionRange {
    if anchor.at_or_before(current) {
        SelectionRange { start: anchor, end: current }
    } else {
        SelectionRange { start: current, end: anchor }
    }
}

impl SelectionRange {
    /// Whether a cell lies in the range.
    pub open spec fn selects(self, column: u16, row: u16) -> bool {
        let cell = SelectionPoint { row, column };
        self.start.at_or_before(cell) && cell.at_or_before(self.end)
    }

    /// The first selected column of a row inside an area.
    pub open spec fn first_column(self, row: u16, area: Rect) -> int {
        if row == self.start.row && self.start.column > area.left() {
            self.start.column as int
        } else {
            area.left() as int
        }
    }

    /// The column after the last selected one of a row inside an area.
    pub open spec fn end_column(self, row: u16, area: Rect) -> int {
        if row == self.end.row && self.end.column < area.right() {
            self.end.column + 1
        } else {
            area.right() as int
        }
    }

    /// The selected columns of a row inside an area, from the first to the one after the last.
    pub open spec fn columns(self, row: u16, area: Rect) -> Option<(u16, u16)> {
        let first = self.first_column(row, area);
        let end = self.end_column(row, area);
        if self.start.row <= row <= self.end.row && first < end {
            Some((first as u16, end as u16))
        } else {
            None
        }
    }

    /// The range between two points, whichever of them comes first.
    pub fn new(anchor: SelectionPoint, current: SelectionPoint) -> (r: SelectionRange)
        ensures
            r == range_between(anchor, current),
            r.start.at_or_before(r.end),
    {
        if anchor.row < current.row || (anchor.row == current.row && anchor.column
            <= current.column) {
            SelectionRange { start: anchor, end: current }
        } else {
            SelectionRange { start: current, end: anchor }
        }
    }

    /// The selected columns of a row inside an area, from the first to the one after the last, or
    /// `None` where the range selects no cell of that row in the area.
    pub fn columns_for_row(self, row: u16, area: Rect) -> (r: Option<(u16, u16)>)
        ensures
            r == self.columns(row, area),
            r matches Some((first, end)) ==> first < end,
            forall|column: u16|
                (r matches Some((first, end)) && first <= column < end) <==> (area.left() <= column
                    < area.right() && #[trigger] self.selects(column, row)),
    {
        if row < self.start.row || row > self.end.row || area.width == 0 {
            return None;
        }
        let left: u16 = area.left();
        let right: u16 = area.right();
        let (start, end): (u16, u16) = if self.start.row == self.end.row {
            (self.start.column, self.end.column.saturating_add(1))
        } else if row == self.start.row {
            (self.start.column, right)
        } else if row == self.end.row {
            (left, self.end.column.saturating_add(1))
        } else {
            (left, right)
        };
        let start: u16 = clamp(start, left, right);
        let end: u16 = clamp(end, left, right);
        if start < end {
            Some((start, end))
        } else {
            None
        }
    }
}

/// The value of `low..=high` that is nearest to another one.
fn clamp(value: u16, low: u16, high: u16) -> (r: u16)
    requires
        low <= high,
    ensures
        r == if value < low {
            low
        } else if value > high {
            high
        } else {
            value
        },
{
    if value < low {
        low
    } else if value > high {
        high
    } else {
        value
    }
}

/// The cells that two rectangles share; where there are none, a rectangle without size at the
/// origin.
pub open spec fn shared_rect(a: Rect, b: Rect) -> Rect {
    let left = if a.left() >= b.left() { a.left() } else { b.left() };
    let top = if a.top() >= b.top() { a.top() } else { b.top() };
    let right = if a.right() <= b.right() { a.right() } else { b.right() };
    let bottom = if a.bottom() <= b.bottom() { a.bottom() } else { b.bottom() };
    if left < right && top < bottom {
        Rect { x: left, y: top, width: (right - left) as u16, height: (bottom - top) as u16 }
    } else {
        Rect { x: 0, y: 0, width: 0, height: 0 }
    }
}

/// The cells that two rectangles share.
pub fn intersect_rect(a: Rect, b: Rect) -> (r: Rect)
    ensures
        r == shared_rect(a, b),
        forall|column: u16, row: u16|
            #[trigger] r.contains(column, row) <==> a.contains(column, row) && b.contains(
                column,
                row,
            ),
{
    let left: u16 = a.left().max(b.left());
    let top: u16 = a.top().max(b.top());
    let right: u16 = a.right().min(b.right());
    let bottom: u16 = a.bottom().min(b.bottom());
    if left >= right || top >= bottom {
        Rect { x: 0, y: 0, width: 0, height: 0 }
    } else {
        Rect::new(left, top, right - left, bottom - top)
    }
}

/// The cell of an event.
pub open spec fn event_point(event: MouseEvent) -> SelectionPoint {
    SelectionPoint { row: event.row, column: event.column }
}

/// The cell of an event, if it lies in an area.
pub fn point_in_area(event: MouseEvent, area: Rect) -> (r: Option<SelectionPoint>)
    ensures
        r == if area.contains(event.column, event.row) {
            Some(event_point(event))
        } else {
            None
        },
{
    if area.width == 0 || area.height == 0 || event.row < area.top() || event.row >= area.bottom()
        || event.column < area.left() || event.column >= area.right() {
        None
    } else {
        Some(SelectionPoint { row: event.row, column: event.column })
    }
}

/// The value of `low..end` that is nearest to another one.
pub open spec fn nearest_in(value: u16, low: u16, end: u16) -> u16 {
    if value < low {
        low
    } else if value >= end {
        (end - 1) as u16
    } else {
        value
    }
}

/// The cell of an area that is nearest to that of an event, by row and by column.
pub open spec fn nearest_point(event: MouseEvent, area: Rect) -> SelectionPoint {
    SelectionPoint {
        row: nearest_in(event.row, area.top(), area.bottom()),
        column: nearest_in(event.column, area.left(), area.right()),
    }
}

/// The cell of an area that is nearest to that of an event.
pub fn point_clamped_to_area(event: MouseEvent, area: Rect) -> (r: Option<SelectionPoint>)
    requires
        area.is_empty() || area.has_cells(),
    ensures
        r == if area.is_empty() {
            None
        } else {
            Some(nearest_point(event, area))
        },
        r matches Some(point) ==> area.contains(point.column, point.row),
{
    if area.width == 0 || area.height == 0 {
        None
    } else {
        Some(
            SelectionPoint {
                row: clamp(event.row, area.top(), area.bottom().saturating_sub(1)),
                column: clamp(event.column, area.left(), area.right().saturating_sub(1)),
            },
        )
    }
}

/// A row, if it crosses an area.
pub fn row_in_area(row: u16, area: Rect) -> (r: Option<u16>)
    ensures
        r == if area.has_row(row) {
            Some(row)
        } else {
            None
        },
{
    if area.width == 0 || area.height == 0 || row < area.top() || row >= area.bottom() {
        None
    } else {
        Some(row)
    }
}

} // verus!
