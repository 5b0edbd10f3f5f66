//! What holds of selections as a whole.

use crate::event::{MouseButton, MouseEvent, MouseEventKind};
use crate::geometry::{
    event_point, nearest_point, range_between, shared_rect, Rect, SelectionPoint, SelectionRange,
};
use crate::screen::{symbols_between, Screen, ScreenCell, REVERSED};
use crate::selection::{
    cells_drawable, highlighted, outcome_of, pressed, rows_readable, selection_after,
    ActiveSelection, Outcome,
};
use crate::source::{source_of, SourceContent};
use crate::text::{
    blank, display_width, display_widths, joined, start_column, text_in_columns,
    white_space, without_trailing_space,
};
use vstd::math::abs;
use vstd::prelude::*;

verus! {

/// The range between two points is the same whichever of them the selection started at, it begins no
/// later than it ends, and it holds both points.
pub proof fn law_range_ignores_direction(a: SelectionPoint, b: SelectionPoint)
    ensures
        range_between(a, b) == range_between(b, a),
        range_between(a, b).start.at_or_before(range_between(a, b).end),
        range_between(a, b).selects(a.column, a.row),
        range_between(a, b).selects(b.column, b.row),
{
}

/// Whether a column is one of the selected ones of a row in an area.
pub open spec fn column_selected(range: SelectionRange, row: u16, area: Rect, column: u16) -> bool {
    range.columns(row, area) matches Some((first, end)) && first <= column < end
}

/// The selected columns of a row in an area are exactly the columns of that area whose cells the range
/// holds.
pub proof fn law_columns_are_the_selected_cells(
    range: SelectionRange,
    row: u16,
    area: Rect,
    column: u16,
)
    ensures
        column_selected(range, row, area, column) <==> area.left() <= column < area.right()
            && range.selects(column, row),
{
}

/// Where two areas overlap, the selected columns of a row in what they share are those that are
/// selected in both.
pub proof fn law_columns_of_shared_area(
    range: SelectionRange,
    row: u16,
    a: Rect,
    b: Rect,
    column: u16,
)
    requires
        !shared_rect(a, b).is_empty(),
    ensures
        column_selected(range, row, shared_rect(a, b), column) <==> column_selected(
            range,
            row,
            a,
            column,
        ) && column_selected(range, row, b, column),
{
}

/// What two rectangles share does not depend on their order, and holds the cells of both.
pub proof fn law_shared_area(a: Rect, b: Rect, column: u16, row: u16)
    ensures
        shared_rect(a, b) == shared_rect(b, a),
        shared_rect(a, b).contains(column, row) <==> a.contains(column, row) && b.contains(
            column,
            row,
        ),
{
}

/// The cell of an area that is nearest to an event lies in the area, and is the event's own cell if
/// that does. No cell of the area is nearer to the event, neither by column nor by row, and it is the
/// only cell of which that holds.
pub proof fn law_nearest_point(event: MouseEvent, area: Rect)
    requires
        area.has_cells(),
    ensures
        area.contains(nearest_point(event, area).column, nearest_point(event, area).row),
        area.contains(event.column, event.row) ==> nearest_point(event, area) == event_point(event),
        forall|column: u16, row: u16| #[trigger]
            area.contains(column, row) ==> {
                let point = nearest_point(event, area);
                &&& abs(event.column - point.column) <= abs(event.column - column)
                &&& abs(event.row - point.row) <= abs(event.row - row)
                &&& abs(event.column - point.column) == abs(event.column - column) ==> column
                    == point.column
                &&& abs(event.row - point.row) == abs(event.row - row) ==> row == point.row
            },
{
}

/// Every event leaves a selection with both ends in its area. Moving the mouse changes neither the
/// area nor the cell where the selection started.
pub proof fn law_selection_stays_in_its_area(
    active: Option<ActiveSelection>,
    event: MouseEvent,
    source: SourceContent,
)
    requires
        active matches Some(selection) ==> selection.well_formed(),
    ensures
        selection_after(active, event, source) matches Some(selection) ==> selection.well_formed(),
        event.kind == MouseEventKind::Drag(MouseButton::Left) ==> match (
            active,
            selection_after(active, event, source),
        ) {
            (Some(before), Some(after)) => after.area == before.area && after.anchor
                == before.anchor,
            (None, None) => true,
            _ => false,
        },
{
}

/// A press in the preferred area starts a selection that keeps to it. A press anywhere else on the
/// screen of the source starts one that keeps to that screen, and a press off that screen and off the
/// preferred area starts none.
pub proof fn law_press_prefers_the_preferred_area(
    active: Option<ActiveSelection>,
    event: MouseEvent,
    source: SourceContent,
)
    requires
        event.kind == MouseEventKind::Down(MouseButton::Left),
    ensures
        ({
            let started = selection_after(active, event, source);
            match source.preferred_for(event) {
                Some(area) => started matches Some(selection) && selection.area == area,
                None => if source.area.contains(event.column, event.row) {
                    started matches Some(selection) && selection.area == source.area
                } else {
                    started is None
                },
            }
        }),
{
}

/// A click copies nothing: a press and a release at the same cell, with no drag between them, end
/// with a redraw and no selection, whatever the screen shows at the release.
pub proof fn law_click_copies_nothing(
    active: Option<ActiveSelection>,
    press: MouseEvent,
    release: MouseEvent,
    at_press: SourceContent,
    at_release: SourceContent,
)
    requires
        press.kind == MouseEventKind::Down(MouseButton::Left),
        release.kind == MouseEventKind::Up(MouseButton::Left),
        event_point(press) == event_point(release),
        selection_after(active, press, at_press) is Some,
    ensures
        ({
            let pressed = selection_after(active, press, at_press);
            &&& rows_readable(pressed, release, at_release)
            &&& outcome_of(pressed, release, at_release) == Outcome::Redraw
            &&& selection_after(pressed, release, at_release) is None
        }),
{
}

/// A release at another cell of the area than that of the press copies the text between the two, if
/// there is any, though the mouse was never seen to move.
pub proof fn law_release_elsewhere_copies(
    selection: ActiveSelection,
    release: MouseEvent,
    source: SourceContent,
)
    requires
        release.kind == MouseEventKind::Up(MouseButton::Left),
        nearest_point(release, selection.area) != selection.anchor,
    ensures
        outcome_of(Some(selection), release, source) == match selection.released_at(release).text(
            source,
        ) {
            Some(text) => Outcome::Copy(text),
            None => Outcome::Redraw,
        },
        selection.released_at(release).range() == range_between(
            selection.anchor,
            nearest_point(release, selection.area),
        ),
{
}

/// A release after a drag copies the text between the press and the release, if there is any, even if
/// the mouse came back to where it started.
pub proof fn law_release_after_drag_copies(
    selection: ActiveSelection,
    drag: MouseEvent,
    release: MouseEvent,
    at_drag: SourceContent,
    at_release: SourceContent,
)
    requires
        drag.kind == MouseEventKind::Drag(MouseButton::Left),
        release.kind == MouseEventKind::Up(MouseButton::Left),
    ensures
        ({
            let dragged = selection_after(Some(selection), drag, at_drag);
            let end = ActiveSelection {
                current: nearest_point(release, selection.area),
                dragged: true,
                ..selection
            };
            outcome_of(dragged, release, at_release) == match end.text(at_release) {
                Some(text) => Outcome::Copy(text),
                None => Outcome::Redraw,
            }
        }),
{
}

/// Only the last of several drags counts.
pub proof fn law_last_drag_counts(
    active: Option<ActiveSelection>,
    first: MouseEvent,
    second: MouseEvent,
    at_first: SourceContent,
    at_second: SourceContent,
)
    requires
        first.kind == MouseEventKind::Drag(MouseButton::Left),
        second.kind == MouseEventKind::Drag(MouseButton::Left),
    ensures
        selection_after(selection_after(active, first, at_first), second, at_second)
            == selection_after(active, second, at_second),
{
}

/// A drag that is repeated changes nothing and calls for nothing.
pub proof fn law_repeated_drag_changes_nothing(
    active: Option<ActiveSelection>,
    drag: MouseEvent,
    source: SourceContent,
)
    requires
        drag.kind == MouseEventKind::Drag(MouseButton::Left),
    ensures
        ({
            let dragged = selection_after(active, drag, source);
            &&& selection_after(dragged, drag, source) == dragged
            &&& outcome_of(dragged, drag, source) == Outcome::Unchanged
        }),
{
}

/// A selection copies and highlights the same from either of its ends.
pub proof fn law_direction_does_not_matter(
    selection: ActiveSelection,
    source: SourceContent,
    area: Rect,
    column: u16,
    row: u16,
)
    ensures
        ({
            let turned = ActiveSelection {
                anchor: selection.current,
                current: selection.anchor,
                ..selection
            };
            &&& turned.text(source) == selection.text(source)
            &&& turned.highlights(area, column, row) == selection.highlights(area, column, row)
        }),
{
    let turned = ActiveSelection {
        anchor: selection.current,
        current: selection.anchor,
        ..selection
    };
    assert forall|i: int| #[trigger]
        turned.line_at(source, i) == selection.line_at(source, i) by {}
    if turned.has_lines(source) {
        assert forall|i: int| 0 <= i < selection.row_count() implies #[trigger] selection.line_at(
            source,
            i,
        ) is Some by {
            assert(turned.line_at(source, i) is Some);
        }
    }
    assert(turned.first_lines(source, turned.row_count()) =~= selection.first_lines(
        source,
        selection.row_count(),
    ));
}

/// A drag from one cell to another copies what a drag back copies, where both presses start a
/// selection in the same area.
pub proof fn law_dragging_back_copies_the_same(
    there: (MouseEvent, MouseEvent),
    back: (MouseEvent, MouseEvent),
    at_press: SourceContent,
    at_release: SourceContent,
)
    requires
        there.0.kind == MouseEventKind::Down(MouseButton::Left),
        there.1.kind == MouseEventKind::Up(MouseButton::Left),
        back.0.kind == MouseEventKind::Down(MouseButton::Left),
        back.1.kind == MouseEventKind::Up(MouseButton::Left),
        event_point(there.0) == event_point(back.1),
        event_point(there.1) == event_point(back.0),
        match (pressed(there.0, at_press), pressed(back.0, at_press)) {
            (Some(from), Some(to)) => from.area == to.area,
            _ => false,
        },
    ensures
        outcome_of(pressed(there.0, at_press), there.1, at_release) == outcome_of(
            pressed(back.0, at_press),
            back.1,
            at_release,
        ),
{
    let from = pressed(there.0, at_press)->0.released_at(there.1);
    law_direction_does_not_matter(from, at_release, from.area, 0, 0);
}

/// Nothing but the release of the left button copies, what is copied holds more than white space, and
/// it has one line for each selected row.
pub proof fn law_copied_text(
    active: Option<ActiveSelection>,
    event: MouseEvent,
    source: SourceContent,
)
    ensures
        outcome_of(active, event, source) matches Outcome::Copy(text) ==> {
            &&& event.kind == MouseEventKind::Up(MouseButton::Left)
            &&& active is Some
            &&& !blank(text)
            &&& exists|lines: Seq<Seq<char>>|
                {
                    &&& text == #[trigger] joined(lines)
                    &&& lines.len() == active->0.released_at(event).row_count()
                    &&& forall|i: int|
                        0 <= i < lines.len() ==> active->0.released_at(event).line_at(source, i)
                            == Some(#[trigger] lines[i])
                }
        },
{
}

/// Every event but a press or a drag of the left button ends the selection.
pub proof fn law_other_events_end_the_selection(
    active: Option<ActiveSelection>,
    event: MouseEvent,
    source: SourceContent,
)
    requires
        event.kind != MouseEventKind::Down(MouseButton::Left),
        event.kind != MouseEventKind::Drag(MouseButton::Left),
    ensures
        selection_after(active, event, source) is None,
        event.kind != MouseEventKind::Up(MouseButton::Left) ==> outcome_of(active, event, source)
            == if active is Some {
            Outcome::Redraw
        } else {
            Outcome::Unchanged
        },
{
}

/// Where no selection is in progress, every event but a press of the left button changes nothing and
/// calls for nothing.
pub proof fn law_only_a_press_starts_a_selection(event: MouseEvent, source: SourceContent)
    requires
        event.kind != MouseEventKind::Down(MouseButton::Left),
    ensures
        selection_after(None, event, source) is None,
        outcome_of(None, event, source) == Outcome::Unchanged,
{
}

/// An event that calls for nothing leaves the highlighted cells as they were, on every screen.
pub proof fn law_no_redraw_is_missed(
    active: Option<ActiveSelection>,
    event: MouseEvent,
    source: SourceContent,
    screen: Screen,
    area: Rect,
)
    requires
        outcome_of(active, event, source) == Outcome::Unchanged,
    ensures
        highlighted(screen, selection_after(active, event, source), area) == highlighted(
            screen,
            active,
            area,
        ),
{
    if let Some(before) = active {
        let after = selection_after(active, event, source)->0;
        assert(highlighted(screen, Some(after), area).cells =~= highlighted(
            screen,
            Some(before),
            area,
        ).cells);
    }
}

/// A cell of the area of a selection is highlighted where that area is drawn exactly if its column is
/// one of those that are copied of its row.
pub proof fn law_highlighted_is_copied(
    selection: ActiveSelection,
    area: Rect,
    column: u16,
    row: u16,
)
    requires
        area.contains(column, row),
        selection.area.contains(column, row),
    ensures
        selection.highlights(area, column, row) <==> column_selected(
            selection.range(),
            row,
            selection.area,
            column,
        ),
{
    law_columns_are_the_selected_cells(selection.range(), row, selection.area, column);
}

/// Drawing a selection swaps the colours of the highlighted cells and changes nothing else: not the
/// area, not which cells there are, not their texts, colours or other modifiers.
pub proof fn law_drawing_changes_highlighted_cells_alone(
    screen: Screen,
    active: Option<ActiveSelection>,
    area: Rect,
    column: u16,
    row: u16,
)
    requires
        screen.cells.contains_key((column, row)),
    ensures
        ({
            let drawn = highlighted(screen, active, area);
            let before = screen.cells[(column, row)];
            let after = drawn.cells[(column, row)];
            &&& drawn.area == screen.area
            &&& drawn.cells.dom() == screen.cells.dom()
            &&& after == if active matches Some(selection) && selection.highlights(
                area,
                column,
                row,
            ) {
                ScreenCell { modifier: before.modifier | REVERSED, ..before }
            } else {
                before
            }
        }),
{
}

/// Drawing a selection again changes nothing.
pub proof fn law_drawing_again_changes_nothing(
    screen: Screen,
    active: Option<ActiveSelection>,
    area: Rect,
)
    ensures
        highlighted(highlighted(screen, active, area), active, area) == highlighted(
            screen,
            active,
            area,
        ),
{
    assert forall|bits: u16| #[trigger] (bits | REVERSED) | REVERSED == bits | REVERSED by {
        assert((bits | 0x40) | 0x40 == bits | 0x40) by (bit_vector);
    }
    let once = highlighted(screen, active, area);
    let twice = highlighted(once, active, area);
    if let Some(selection) = active {
        assert(twice.cells =~= once.cells);
    }
}

/// The texts of the cells of a row are the same on a screen where a selection is drawn.
proof fn lemma_drawing_keeps_symbols(
    screen: Screen,
    active: Option<ActiveSelection>,
    area: Rect,
    row: u16,
    column: int,
    end: int,
)
    requires
        0 <= column,
        end <= u16::MAX,
        forall|c: u16|
            column <= c < end ==> #[trigger] screen.cells.contains_key((c, row)),
    ensures
        symbols_between(highlighted(screen, active, area).cells, row, column, end)
            == symbols_between(screen.cells, row, column, end),
    decreases end - column,
{
    if column < end {
        lemma_drawing_keeps_symbols(screen, active, area, row, column, end - 1);
    }
}

/// Drawing a selection on the viewport does not change what a selection copies.
pub proof fn law_drawing_keeps_the_text(
    source: SourceContent,
    drawn: Option<ActiveSelection>,
    drawn_area: Rect,
    selection: ActiveSelection,
)
    requires
        selection.readable(source),
    ensures
        ({
            let after = SourceContent {
                viewport: highlighted(source.viewport, drawn, drawn_area),
                ..source
            };
            &&& selection.readable(after)
            &&& selection.text(after) == selection.text(source)
        }),
{
    let after = SourceContent {
        viewport: highlighted(source.viewport, drawn, drawn_area),
        ..source
    };
    let area = selection.area;
    assert forall|row: u16|
        selection.range().start.row <= row <= selection.range().end.row implies #[trigger]
        after.readable(row, area) by {
        assert(source.readable(row, area));
    }
    assert forall|i: int| 0 <= i < selection.row_count() implies #[trigger] selection.line_at(
        after,
        i,
    ) == selection.line_at(source, i) by {
        let row = (selection.range().start.row + i) as u16;
        assert(source.readable(row, area));
        if area.has_row(row) && row >= source.viewport.area.top()
            && source.viewport.area.has_row(row) {
            lemma_drawing_keeps_symbols(
                source.viewport,
                drawn,
                drawn_area,
                row,
                area.left() as int,
                area.right() as int,
            );
        }
    }
    assert(selection.first_lines(after, selection.row_count()) =~= selection.first_lines(
        source,
        selection.row_count(),
    ));
    if selection.has_lines(after) {
        assert forall|i: int| 0 <= i < selection.row_count() implies #[trigger] selection.line_at(
            source,
            i,
        ) is Some by {
            assert(selection.line_at(after, i) is Some);
        }
    }
}

/// The history rows on the screen end right above the viewport: the last row of the history is the
/// row above it, the one before that the next one up, and so on to the top of the source.
pub proof fn law_history_ends_above_the_viewport(
    viewport: Screen,
    history: Seq<Seq<char>>,
    preferred_area: Option<Rect>,
    row: u16,
    area: Rect,
)
    requires
        area.has_row(row),
        source_of(viewport, history, preferred_area).area.top() <= row < viewport.area.top(),
    ensures
        ({
            let source = source_of(viewport, history, preferred_area);
            &&& source.area.top() + source.history.len() == viewport.area.top()
            &&& source.readable(row, area)
            &&& source.line(row, area) == Some(
                history[history.len() - (viewport.area.top() - row)],
            )
        }),
{
}

/// Whether a screen has a cell for each position of its area.
pub open spec fn complete(screen: Screen) -> bool {
    forall|column: u16, row: u16|
        screen.area.contains(column, row) ==> #[trigger] screen.cells.contains_key((column, row))
}

/// Whether a rectangle lies in another one.
pub open spec fn lies_in(inner: Rect, outer: Rect) -> bool {
    &&& outer.left() <= inner.left()
    &&& inner.right() <= outer.right()
    &&& outer.top() <= inner.top()
    &&& inner.bottom() <= outer.bottom()
}

/// On a viewport that has all its cells, a selection whose area lies in that of the source can always
/// be read, and copies the text of its rows unless that is blank.
pub proof fn law_selection_on_the_screen_is_copied(
    viewport: Screen,
    history: Seq<Seq<char>>,
    preferred_area: Option<Rect>,
    selection: ActiveSelection,
)
    requires
        complete(viewport),
        selection.well_formed(),
        lies_in(selection.area, source_of(viewport, history, preferred_area).area),
    ensures
        ({
            let source = source_of(viewport, history, preferred_area);
            let lines = selection.first_lines(source, selection.row_count());
            &&& selection.readable(source)
            &&& selection.has_lines(source)
            &&& selection.text(source) == if blank(joined(lines)) {
                None
            } else {
                Some(joined(lines))
            }
        }),
{
}

/// On a viewport that has all its cells, pressing the button and releasing it at another cell copies
/// the text between the two unless that is blank. The preferred area, if there is one, lies on the
/// screen of the source, and the screen is the same at both events.
pub proof fn law_gesture_copies(
    viewport: Screen,
    history: Seq<Seq<char>>,
    preferred_area: Option<Rect>,
    active: Option<ActiveSelection>,
    press: MouseEvent,
    release: MouseEvent,
)
    requires
        complete(viewport),
        source_of(viewport, history, preferred_area).preferred_area matches Some(area) ==> lies_in(
            area,
            source_of(viewport, history, preferred_area).area,
        ),
        press.kind == MouseEventKind::Down(MouseButton::Left),
        release.kind == MouseEventKind::Up(MouseButton::Left),
        selection_after(
            active,
            press,
            source_of(viewport, history, preferred_area),
        ) matches Some(started) && nearest_point(release, started.area) != event_point(press),
    ensures
        ({
            let source = source_of(viewport, history, preferred_area);
            let started = selection_after(active, press, source);
            let end = started->0.released_at(release);
            let text = joined(end.first_lines(source, end.row_count()));
            &&& end.range() == range_between(
                event_point(press),
                nearest_point(release, started->0.area),
            )
            &&& rows_readable(started, release, source)
            &&& outcome_of(started, release, source) == if blank(text) {
                Outcome::Redraw
            } else {
                Outcome::Copy(text)
            }
        }),
{
    let source = source_of(viewport, history, preferred_area);
    let end = selection_after(active, press, source)->0.released_at(release);
    law_selection_on_the_screen_is_copied(viewport, history, preferred_area, end);
}

/// The text of cells that hold one character each has the character of each cell in its place.
proof fn lemma_symbols_in_place(
    cells: Map<(u16, u16), ScreenCell>,
    row: u16,
    column: int,
    end: int,
)
    requires
        0 <= column <= end <= u16::MAX,
        forall|c: u16|
            column <= c < end ==> (#[trigger] cells[(c, row)]).symbol.len() == 1,
    ensures
        symbols_between(cells, row, column, end).len() == end - column,
        forall|i: int|
            0 <= i < end - column ==> #[trigger] symbols_between(cells, row, column, end)[i]
                == cells[((column + i) as u16, row)].symbol[0],
    decreases end - column,
{
    if column < end {
        lemma_symbols_in_place(cells, row, column, end - 1);
    }
}

/// Of a row of the viewport whose cells each hold one character of one column, what is copied is the
/// text of the highlighted cells, without the white space at its end where they reach the right edge
/// of the area.
pub proof fn law_highlighted_cells_are_copied(
    source: SourceContent,
    selection: ActiveSelection,
    row: u16,
)
    requires
        row >= source.viewport.area.top(),
        source.viewport.area.has_row(row),
        selection.area.has_row(row),
        selection.range().columns(row, selection.area) is Some,
        forall|column: u16|
            selection.area.left() <= column < selection.area.right() ==> {
                let symbol = (#[trigger] source.viewport.cells[(column, row)]).symbol;
                symbol.len() == 1 && display_width(symbol[0]) == 1
            },
    ensures
        ({
            let (first, end) = selection.range().columns(row, selection.area)->0;
            let text = symbols_between(source.viewport.cells, row, first as int, end as int);
            selection.line(source, row) == Some(
                if end == selection.area.right() {
                    without_trailing_space(text)
                } else {
                    text
                },
            )
        }),
{
    let cells = source.viewport.cells;
    let left = selection.area.left();
    let right = selection.area.right();
    let (first, end) = selection.range().columns(row, selection.area)->0;
    lemma_symbols_in_place(cells, row, left as int, right as int);
    lemma_symbols_in_place(cells, row, first as int, end as int);
    let line = symbols_between(cells, row, left as int, right as int);
    let text = symbols_between(cells, row, first as int, end as int);
    let widths = display_widths(line);
    law_single_columns_are_characters(line, widths, first - left, end - left);
    assert(line.subrange(first - left, end - left) =~= text);
}

/// A screen that has all its cells can be drawn on.
pub proof fn law_complete_screen_is_drawable(
    screen: Screen,
    active: Option<ActiveSelection>,
    area: Rect,
)
    requires
        complete(screen),
    ensures
        cells_drawable(screen, active, area),
{
}

/// The column of a character among characters of one column each is its index.
proof fn lemma_single_start(widths: Seq<usize>, n: int, index: int)
    requires
        0 <= index <= n,
        forall|i: int| 0 <= i < n ==> #[trigger] widths[i] == 1,
    ensures
        start_column(widths, index) == index,
    decreases index,
{
    if index > 0 {
        lemma_single_start(widths, n, index - 1);
    }
}

/// Cutting the first `n` characters by columns, where each takes one.
proof fn lemma_single_columns(text: Seq<char>, widths: Seq<usize>, n: int, start: int, end: int)
    requires
        0 <= n <= text.len(),
        forall|i: int| 0 <= i < text.len() ==> #[trigger] widths[i] == 1,
        0 <= start <= end,
    ensures
        text_in_columns(text.take(n), widths, start, end) == if n <= start {
            Seq::<char>::empty()
        } else {
            text.subrange(start, if n < end { n } else { end })
        },
    decreases n,
{
    if n > 0 {
        lemma_single_columns(text, widths, n - 1, start, end);
        lemma_single_start(widths, text.len() as int, n - 1);
        lemma_single_start(widths, text.len() as int, n);
        assert(text.take(n).drop_last() =~= text.take(n - 1));
    }
}

/// Where each character takes one column, cutting a text by columns is cutting it by characters.
pub proof fn law_single_columns_are_characters(
    text: Seq<char>,
    widths: Seq<usize>,
    start: int,
    end: int,
)
    requires
        widths.len() == text.len(),
        forall|i: int| 0 <= i < text.len() ==> #[trigger] widths[i] == 1,
        0 <= start <= end,
    ensures
        text_in_columns(text, widths, start, end) == if text.len() <= start {
            Seq::<char>::empty()
        } else {
            text.subrange(start, if text.len() < end { text.len() as int } else { end })
        },
{
    lemma_single_columns(text, widths, text.len() as int, start, end);
    assert(text.take(text.len() as int) =~= text);
}

/// Printable ASCII text takes one column for each character.
pub proof fn law_ascii_takes_single_columns(text: Seq<char>)
    requires
        forall|i: int| 0 <= i < text.len() ==> ' ' <= #[trigger] text[i] <= '~',
    ensures
        forall|i: int| 0 <= i < text.len() ==> #[trigger] display_widths(text)[i] == 1,
{
}

/// Removing the white space at the end of a text removes white space alone, and all of it: what is
/// left is the beginning of the text and does not end with white space, and what is gone is blank.
pub proof fn law_trailing_space_is_removed(text: Seq<char>)
    ensures
        ({
            let trimmed = without_trailing_space(text);
            &&& trimmed.len() <= text.len()
            &&& trimmed == text.take(trimmed.len() as int)
            &&& blank(text.skip(trimmed.len() as int))
            &&& forall|i: int|
                trimmed.len() <= i < text.len() ==> white_space(#[trigger] text[i])
            &&& trimmed.len() > 0 ==> !white_space(trimmed.last())
        }),
    decreases text.len(),
{
    if text.len() > 0 && white_space(text.last()) {
        law_trailing_space_is_removed(text.drop_last());
        let trimmed = without_trailing_space(text);
        let n = trimmed.len() as int;
        assert forall|i: int| n <= i < text.len() implies white_space(#[trigger] text[i]) by {
            if i < text.len() - 1 {
                assert(text[i] == text.drop_last()[i]);
            }
        }
    }
}

/// A text is blank exactly if nothing is left of it without the white space at its end.
pub proof fn law_blank_is_all_trailing_space(text: Seq<char>)
    ensures
        blank(text) <==> without_trailing_space(text).len() == 0,
{
    law_trailing_space_is_removed(text);
    let trimmed = without_trailing_space(text);
    if trimmed.len() > 0 {
        assert(text[trimmed.len() - 1] == trimmed.last());
    }
}

} // verus!
