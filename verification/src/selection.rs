//! The selection that a mouse makes: how it follows the mouse, what it copies and what it highlights.

use crate::event::{MouseButton, MouseEvent, MouseEventKind};
use crate::geometry::{
    event_point, intersect_rect, nearest_point, point_clamped_to_area, point_in_area, range_between,
    Rect, SelectionPoint, SelectionRange,
};
use crate::screen::{
    area_of, buffer_area, buffer_cells, has_cell, screen, set_style, Screen, ScreenCell, REVERSED,
};
use crate::source::{MouseLineSelectionSource, SourceContent};
use crate::text::{
    blank, contents, display_widths, is_blank, join_lines, joined, slice_text_columns,
    text_in_columns, trim_end, without_trailing_space,
};
use ratatui::buffer::Buffer;
use vstd::prelude::*;

verus! {

/// What a mouse event calls for.
#[derive(Debug, Clone, PartialEq, Eq)]
pub enum MouseLineSelectionOutcome {
    /// Nothing changed on the screen.
    Unchanged,
    /// The highlighted cells may have changed.
    Redraw,
    /// The selection ended with a text to copy.
    Copy(String),
}

/// What an outcome holds.
pub enum Outcome {
    Unchanged,
    Redraw,
    Copy(Seq<char>),
}

impl View for MouseLineSelectionOutcome {
    type V = Outcome;

    open spec fn view(&self) -> Outcome {
        match self {
            MouseLineSelectionOutcome::Unchanged => Outcome::Unchanged,
            MouseLineSelectionOutcome::Redraw => Outcome::Redraw,
            MouseLineSelectionOutcome::Copy(text) => Outcome::Copy(text@),
        }
    }
}

/// A selection in progress, from the press of the left button to its release.
#[derive(Debug, Clone, Copy, PartialEq, Eq, Structural)]
pub struct ActiveSelection {
    /// The area that the selection keeps to.
    pub area: Rect,
    /// The cell where the button was pressed.
    pub anchor: SelectionPoint,
    /// The cell that the mouse has reached.
    pub current: SelectionPoint,
    /// Whether the mouse has moved with the button held.
    pub dragged: bool,
}

impl ActiveSelection {
    /// Both ends of the selection lie in its area.
    pub open spec fn well_formed(self) -> bool {
        &&& self.area.contains(self.anchor.column, self.anchor.row)
        &&& self.area.contains(self.current.column, self.current.row)
    }

    /// The selected range.
    pub open spec fn range(self) -> SelectionRange {
        range_between(self.anchor, self.current)
    }

    /// The selection after the mouse moved with the button held.
    pub open spec fn dragged_to(self, event: MouseEvent) -> ActiveSelection {
        ActiveSelection { current: nearest_point(event, self.area), dragged: true, ..self }
    }

    /// The selection as it is when the button is released.
    pub open spec fn released_at(self, event: MouseEvent) -> ActiveSelection {
        let point = nearest_point(event, self.area);
        ActiveSelection { current: point, dragged: self.dragged || point != self.anchor, ..self }
    }

    /// The number of selected rows.
    pub open spec fn row_count(self) -> nat {
        (self.range().end.row - self.range().start.row + 1) as nat
    }

    /// What is copied of a selected row: the characters in its selected columns, without the white
    /// space at their end where these columns reach the right edge of the area.
    pub open spec fn line(self, source: SourceContent, row: u16) -> Option<Seq<char>> {
        match (self.range().columns(row, self.area), source.line(row, self.area)) {
            (Some((first, end)), Some(text)) => {
                let part = text_in_columns(
                    text,
                    display_widths(text),
                    first - self.area.left(),
                    end - self.area.left(),
                );
                Some(
                    if end >= self.area.right() {
                        without_trailing_space(part)
                    } else {
                        part
                    },
                )
            },
            _ => None,
        }
    }

    /// What is copied of the selected row at an index, counted from the first one.
    pub open spec fn line_at(self, source: SourceContent, index: int) -> Option<Seq<char>> {
        self.line(source, (self.range().start.row + index) as u16)
    }

    /// What is copied of the first selected rows, as many as `count`, each of which has a text.
    pub open spec fn first_lines(self, source: SourceContent, count: nat) -> Seq<Seq<char>> {
        Seq::new(count, |i: int| self.line_at(source, i)->0)
    }

    /// Whether every selected row has a text.
    pub open spec fn has_lines(self, source: SourceContent) -> bool {
        forall|i: int| 0 <= i < self.row_count() ==> #[trigger] self.line_at(source, i) is Some
    }

    /// What is copied: one line for each selected row. Nothing is copied unless every selected row has
    /// a text and the lines hold more than white space.
    pub open spec fn text(self, source: SourceContent) -> Option<Seq<char>> {
        let text = joined(self.first_lines(source, self.row_count()));
        if self.has_lines(source) && !blank(text) {
            Some(text)
        } else {
            None
        }
    }

    /// Whether every selected row can be read.
    pub open spec fn readable(self, source: SourceContent) -> bool {
        forall|row: u16|
            self.range().start.row <= row <= self.range().end.row ==> #[trigger] source.readable(
                row,
                self.area,
            )
    }

    /// Whether a cell is highlighted when an area is drawn.
    pub open spec fn highlights(self, area: Rect, column: u16, row: u16) -> bool {
        &&& area.contains(column, row)
        &&& self.area.contains(column, row)
        &&& self.range().selects(column, row)
    }

    /// Whether no cell that is highlighted when an area is drawn lies in the area of a screen.
    pub open spec fn highlights_nothing(self, screen: Screen, area: Rect) -> bool {
        forall|column: u16, row: u16| #[trigger]
            self.highlights(area, column, row) ==> !screen.area.contains(column, row)
    }
}

impl ActiveSelection {
    /// The selection as it is when the button is released.
    fn release(self, event: MouseEvent) -> (r: ActiveSelection)
        requires
            self.well_formed(),
        ensures
            r == self.released_at(event),
            r.well_formed(),
    {
        match point_clamped_to_area(event, self.area) {
            Some(point) => ActiveSelection {
                area: self.area,
                anchor: self.anchor,
                current: point,
                dragged: self.dragged || point != self.anchor,
            },
            None => self,
        }
    }
}

/// The selection that a press of the left button starts, if any.
pub open spec fn pressed(event: MouseEvent, source: SourceContent) -> Option<ActiveSelection> {
    let area = match source.preferred_for(event) {
        Some(area) => area,
        None => source.area,
    };
    let point = event_point(event);
    if area.contains(event.column, event.row) {
        Some(ActiveSelection { area, anchor: point, current: point, dragged: false })
    } else {
        None
    }
}

/// What the end of a selection that copies nothing calls for.
pub open spec fn dropped(active: Option<ActiveSelection>) -> Outcome {
    if active is Some {
        Outcome::Redraw
    } else {
        Outcome::Unchanged
    }
}

/// The selection after an event.
pub open spec fn selection_after(
    active: Option<ActiveSelection>,
    event: MouseEvent,
    source: SourceContent,
) -> Option<ActiveSelection> {
    match event.kind {
        MouseEventKind::Down(MouseButton::Left) => pressed(event, source),
        MouseEventKind::Drag(MouseButton::Left) => match active {
            Some(selection) => Some(selection.dragged_to(event)),
            None => None,
        },
        _ => None,
    }
}

/// What an event calls for.
pub open spec fn outcome_of(
    active: Option<ActiveSelection>,
    event: MouseEvent,
    source: SourceContent,
) -> Outcome {
    match (event.kind, active) {
        (MouseEventKind::Down(MouseButton::Left), _) => if pressed(event, source) is Some {
            Outcome::Redraw
        } else {
            dropped(active)
        },
        (MouseEventKind::Drag(MouseButton::Left), Some(selection)) => if selection.current
            == nearest_point(event, selection.area) {
            Outcome::Unchanged
        } else {
            Outcome::Redraw
        },
        (MouseEventKind::Up(MouseButton::Left), Some(selection)) => {
            let released = selection.released_at(event);
            match released.text(source) {
                Some(text) if released.dragged => Outcome::Copy(text),
                _ => Outcome::Redraw,
            }
        },
        _ => dropped(active),
    }
}

/// Whether the rows that an event makes a selection read can be read.
pub open spec fn rows_readable(
    active: Option<ActiveSelection>,
    event: MouseEvent,
    source: SourceContent,
) -> bool {
    match (event.kind, active) {
        (MouseEventKind::Up(MouseButton::Left), Some(selection)) => {
            let released = selection.released_at(event);
            released.dragged ==> released.readable(source)
        },
        _ => true,
    }
}

/// Cells of which those that a selection highlights in an area, above the row `bottom`, have their
/// colours swapped.
spec fn highlighted_above(
    cells: Map<(u16, u16), ScreenCell>,
    active: ActiveSelection,
    area: Rect,
    bottom: int,
) -> Map<(u16, u16), ScreenCell> {
    cells.map_entries(
        |position: (u16, u16), cell: ScreenCell|
            if position.1 < bottom && active.highlights(area, position.0, position.1) {
                ScreenCell { modifier: cell.modifier | REVERSED, ..cell }
            } else {
                cell
            },
    )
}

/// A screen after the cells that a selection highlights in an area had their colours swapped.
pub open spec fn highlighted(
    screen: Screen,
    active: Option<ActiveSelection>,
    area: Rect,
) -> Screen {
    match active {
        Some(selection) => Screen {
            cells: screen.cells.map_entries(
                |position: (u16, u16), cell: ScreenCell|
                    if selection.highlights(area, position.0, position.1) {
                        ScreenCell { modifier: cell.modifier | REVERSED, ..cell }
                    } else {
                        cell
                    },
            ),
            ..screen
        },
        None => screen,
    }
}

/// Whether a screen has every cell that a selection highlights in an area and that lies in the area of
/// the screen.
pub open spec fn cells_drawable(
    screen: Screen,
    active: Option<ActiveSelection>,
    area: Rect,
) -> bool {
    active matches Some(selection) ==> forall|column: u16, row: u16|
        selection.highlights(area, column, row) && screen.area.contains(column, row)
            ==> #[trigger] screen.cells.contains_key((column, row))
}

/// What a selection copies, or `None` if some selected row has no text or nothing but white space is
/// selected.
pub fn selected_text(source: &MouseLineSelectionSource<'_>, active: ActiveSelection) -> (r: Option<
    String,
>)
    requires
        active.well_formed(),
        active.readable(source@),
    ensures
        r is Some <==> active.text(source@) is Some,
        r matches Some(text) ==> Some(text@) == active.text(source@),
{
    let range = SelectionRange::new(active.anchor, active.current);
    let start_y: u16 = range.start.row;
    let end_y: u16 = range.end.row;
    let left: u16 = active.area.left();
    let mut lines: Vec<String> = Vec::new();
    let mut y: u16 = start_y;
    while y <= end_y
        invariant
            active.well_formed(),
            active.readable(source@),
            range == active.range(),
            start_y == range.start.row,
            end_y == range.end.row,
            left == active.area.left(),
            start_y <= y <= end_y + 1 <= u16::MAX,
            forall|i: int| 0 <= i < y - start_y ==> #[trigger] active.line_at(source@, i) is Some,
            contents(lines@) =~= active.first_lines(source@, (y - start_y) as nat),
        decreases end_y + 1 - y,
    {
        let ghost index = y - start_y;
        let (start, end): (u16, u16) = match range.columns_for_row(y, active.area) {
            Some(columns) => columns,
            None => {
                return None;
            },
        };
        let text = match source.line_text(y, active.area) {
            Some(text) => text,
            None => {
                return None;
            },
        };
        let mut line = slice_text_columns(
            text.as_str(),
            start.saturating_sub(left) as usize,
            end.saturating_sub(left) as usize,
        );
        if end >= active.area.right() {
            line = trim_end(line.as_str());
        }
        lines.push(line);
        y = y + 1;
        proof {
            let earlier = active.first_lines(source@, index as nat);
            assert(contents(lines@) =~= earlier.push(active.line_at(source@, index)->0));
        }
    }
    let text = join_lines(lines.as_slice());
    if is_blank(text.as_str()) {
        None
    } else {
        Some(text)
    }
}

/// Whether every selected row can be read.
pub fn can_read(source: &MouseLineSelectionSource<'_>, active: ActiveSelection) -> (r: bool)
    requires
        active.well_formed(),
    ensures
        r == active.readable(source@),
{
    let range = SelectionRange::new(active.anchor, active.current);
    let mut y: u16 = range.start.row;
    while y <= range.end.row
        invariant
            range == active.range(),
            range.start.row <= y <= range.end.row + 1 <= u16::MAX,
            forall|row: u16|
                range.start.row <= row < y ==> #[trigger] source@.readable(row, active.area),
        decreases range.end.row + 1 - y,
    {
        if !source.is_readable(y, active.area) {
            return false;
        }
        y = y + 1;
    }
    true
}

/// The selection that a mouse makes.
#[derive(Debug)]
pub struct MouseLineSelection {
    active: Option<ActiveSelection>,
}

impl View for MouseLineSelection {
    type V = Option<ActiveSelection>;

    closed spec fn view(&self) -> Option<ActiveSelection> {
        self.active
    }
}

impl Default for MouseLineSelection {
    /// No selection.
    fn default() -> (r: Self)
        ensures
            r@ is None,
    {
        MouseLineSelection { active: None }
    }
}

impl MouseLineSelection {
    /// A selection in progress is well formed.
    #[verifier::type_invariant]
    spec fn type_inv(self) -> bool {
        self.active matches Some(active) ==> active.well_formed()
    }

    /// The selected range, if a selection is in progress.
    pub fn active_range(&self) -> (r: Option<SelectionRange>)
        ensures
            r == match self@ {
                Some(active) => Some(active.range()),
                None => None,
            },
            r matches Some(range) ==> range.start.at_or_before(range.end),
    {
        match self.active {
            Some(active) => Some(SelectionRange::new(active.anchor, active.current)),
            None => None,
        }
    }

    /// Ends a selection that copies nothing.
    fn drop_active(&mut self) -> (r: MouseLineSelectionOutcome)
        ensures
            final(self)@ is None,
            r@ == dropped(old(self)@),
    {
        let was_active = self.active.is_some();
        self.active = None;
        if was_active {
            MouseLineSelectionOutcome::Redraw
        } else {
            MouseLineSelectionOutcome::Unchanged
        }
    }

    /// Follows a mouse event.
    ///
    /// A press of the left button starts a selection, moving the mouse with that button held changes
    /// it, and the release of the button ends it, with a text to copy if the mouse moved. Any other
    /// event drops the selection.
    pub fn handle_mouse_event(
        &mut self,
        event: MouseEvent,
        source: MouseLineSelectionSource<'_>,
    ) -> (r: MouseLineSelectionOutcome)
        requires
            rows_readable(old(self)@, event, source@),
        ensures
            final(self)@ == selection_after(old(self)@, event, source@),
            r@ == outcome_of(old(self)@, event, source@),
            final(self)@ matches Some(active) ==> active.well_formed(),
    {
        proof {
            use_type_invariant(&*self);
        }
        match event.kind {
            MouseEventKind::Down(MouseButton::Left) => {
                let area = match source.selection_area_for_event(event) {
                    Some(area) => area,
                    None => source.area(),
                };
                match point_in_area(event, area) {
                    Some(point) => {
                        self.active = Some(
                            ActiveSelection { area, anchor: point, current: point, dragged: false },
                        );
                        MouseLineSelectionOutcome::Redraw
                    },
                    None => self.drop_active(),
                }
            },
            MouseEventKind::Drag(MouseButton::Left) => {
                let mut active = match self.active {
                    Some(active) => active,
                    None => {
                        return MouseLineSelectionOutcome::Unchanged;
                    },
                };
                let point = match point_clamped_to_area(event, active.area) {
                    Some(point) => point,
                    None => {
                        return MouseLineSelectionOutcome::Unchanged;
                    },
                };
                let moved = active.current != point;
                active.dragged = true;
                active.current = point;
                self.active = Some(active);
                if moved {
                    MouseLineSelectionOutcome::Redraw
                } else {
                    MouseLineSelectionOutcome::Unchanged
                }
            },
            MouseEventKind::Up(MouseButton::Left) => {
                let active = match self.active {
                    Some(active) => active.release(event),
                    None => {
                        return MouseLineSelectionOutcome::Unchanged;
                    },
                };
                self.active = None;
                if !active.dragged {
                    return MouseLineSelectionOutcome::Redraw;
                }
                match selected_text(&source, active) {
                    Some(text) => MouseLineSelectionOutcome::Copy(text),
                    None => MouseLineSelectionOutcome::Redraw,
                }
            },
            _ => self.drop_active(),
        }
    }

    /// Whether the rows that an event makes the selection read can be read.
    pub fn can_handle(&self, event: MouseEvent, source: &MouseLineSelectionSource<'_>) -> (r: bool)
        ensures
            r == rows_readable(self@, event, source@),
    {
        proof {
            use_type_invariant(self);
        }
        match (event.kind, self.active) {
            (MouseEventKind::Up(MouseButton::Left), Some(selection)) => {
                let released = selection.release(event);
                !released.dragged || can_read(source, released)
            },
            _ => true,
        }
    }

    /// Follows a mouse event if the rows that it makes the selection read can be read, and otherwise
    /// leaves the selection as it is and returns `None`.
    pub fn try_handle_mouse_event(
        &mut self,
        event: MouseEvent,
        source: MouseLineSelectionSource<'_>,
    ) -> (r: Option<MouseLineSelectionOutcome>)
        ensures
            r is Some <==> rows_readable(old(self)@, event, source@),
            r matches Some(outcome) ==> {
                &&& final(self)@ == selection_after(old(self)@, event, source@)
                &&& outcome@ == outcome_of(old(self)@, event, source@)
            },
            r is None ==> final(self)@ == old(self)@,
            final(self)@ matches Some(active) ==> active.well_formed(),
    {
        proof {
            use_type_invariant(&*self);
        }
        if self.can_handle(event, &source) {
            Some(self.handle_mouse_event(event, source))
        } else {
            None
        }
    }

    /// Swaps the colours of the selected cells that are in an area. Where there are none in the buffer,
    /// it stays as it was.
    pub fn render(&self, area: Rect, buf: &mut Buffer)
        requires
            cells_drawable(screen(*old(buf)), self@, area),
        ensures
            screen(*final(buf)) == highlighted(screen(*old(buf)), self@, area),
            (self@ matches Some(active) ==> active.highlights_nothing(screen(*old(buf)), area))
                ==> *final(buf) == *old(buf),
    {
        let active = match self.active {
            Some(active) => active,
            None => {
                return;
            },
        };
        let ghost before = screen(*buf);
        let shared = intersect_rect(area, active.area);
        let range = SelectionRange::new(active.anchor, active.current);
        if shared.is_empty() {
            assert(highlighted(before, Some(active), area).cells =~= before.cells);
            return;
        }
        let start_y: u16 = range.start.row.max(shared.top());
        let end_y: u16 = range.end.row.min(shared.bottom().saturating_sub(1));
        let mut y: u16 = start_y;
        while y <= end_y
            invariant
                range == active.range(),
                forall|column: u16, row: u16|
                    #[trigger] shared.contains(column, row) <==> area.contains(column, row)
                        && active.area.contains(column, row),
                cells_drawable(before, Some(active), area),
                start_y >= shared.top(),
                start_y >= range.start.row,
                end_y < shared.bottom(),
                end_y <= range.end.row,
                start_y <= y,
                y <= end_y + 1 || y == start_y,
                active.highlights_nothing(before, area) ==> *buf == *old(buf),
                buffer_area(*buf) == before.area,
                buffer_cells(*buf) == highlighted_above(before.cells, active, area, y as int),
            decreases end_y + 1 - y,
        {
            let columns = range.columns_for_row(y, shared);
            assert forall|column: u16| #[trigger]
                active.highlights(area, column, y) <==> (columns matches Some((first, end)) && first
                    <= column < end) by {
                assert(shared.contains(column, y) <==> area.contains(column, y)
                    && active.area.contains(column, y));
            }
            if let Some((start, end)) = columns {
                let strip = Rect { x: start, y, width: end - start, height: 1 };
                assert forall|column: u16, row: u16| #[trigger]
                    strip.contains(column, row) implies active.highlights(area, column, row) by {
                    assert(active.highlights(area, column, y));
                }
                set_style(buf, strip, REVERSED);
            }
            y = y + 1;
        }
        assert(highlighted_above(before.cells, active, area, y as int) =~= highlighted(
            before,
            Some(active),
            area,
        ).cells);
    }

    /// Whether a buffer has every selected cell that is in an area and in that of the buffer.
    pub fn can_render(&self, area: Rect, buf: &Buffer) -> (r: bool)
        ensures
            r == cells_drawable(screen(*buf), self@, area),
    {
        let active = match self.active {
            Some(active) => active,
            None => {
                return true;
            },
        };
        let shared = intersect_rect(intersect_rect(area, active.area), area_of(buf));
        let range = SelectionRange::new(active.anchor, active.current);
        let end_y: u16 = shared.bottom();
        let mut y: u16 = shared.top();
        while y < end_y
            invariant
                range == active.range(),
                self@ == Some(active),
                forall|column: u16, row: u16|
                    #[trigger] shared.contains(column, row) <==> area.contains(column, row)
                        && active.area.contains(column, row) && buffer_area(*buf).contains(
                        column,
                        row,
                    ),
                shared.top() <= y <= end_y == shared.bottom(),
                forall|column: u16, row: u16|
                    row < y && shared.contains(column, row) && range.selects(column, row)
                        ==> #[trigger] buffer_cells(*buf).contains_key((column, row)),
            decreases end_y - y,
        {
            if let Some((start, end)) = range.columns_for_row(y, shared) {
                let mut x: u16 = start;
                while x < end
                    invariant
                        range == active.range(),
                        self@ == Some(active),
                        forall|column: u16, row: u16|
                            #[trigger] shared.contains(column, row) <==> area.contains(column, row)
                                && active.area.contains(column, row) && buffer_area(*buf).contains(
                                column,
                                row,
                            ),
                        shared.top() <= y < shared.bottom(),
                        start <= x <= end,
                        forall|column: u16|
                            start <= column < end <==> (shared.left() <= column < shared.right()
                                && #[trigger] range.selects(column, y)),
                        forall|column: u16|
                            start <= column < x ==> #[trigger] buffer_cells(*buf).contains_key(
                                (column, y),
                            ),
                    decreases end - x,
                {
                    if !has_cell(buf, x, y) {
                        assert(range.selects(x, y));
                        assert(shared.contains(x, y));
                        assert(!screen(*buf).cells.contains_key((x, y)));
                        return false;
                    }
                    x = x + 1;
                }
            }
            y = y + 1;
        }
        true
    }

    /// Swaps the colours of the selected cells that are in an area if the buffer has them all, and
    /// otherwise leaves the buffer as it is. Returns whether the buffer has them all.
    pub fn try_render(&self, area: Rect, buf: &mut Buffer) -> (r: bool)
        ensures
            r == cells_drawable(screen(*old(buf)), self@, area),
            r ==> screen(*final(buf)) == highlighted(screen(*old(buf)), self@, area),
            (self@ matches Some(active) ==> active.highlights_nothing(screen(*old(buf)), area))
                ==> *final(buf) == *old(buf),
            !r ==> *final(buf) == *old(buf),
    {
        let drawable = self.can_render(area, buf);
        if drawable {
            self.render(area, buf);
        }
        drawable
    }
}

} // verus!
