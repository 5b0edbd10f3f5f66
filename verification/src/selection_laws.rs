//! What each event does to a selection, what a selection copies, and which cells it highlights.

use crate::event::{MouseButton, MouseEvent, MouseEventKind};
use crate::geometry::{range_between, Rect, SelectionPoint};
use crate::laws::{
    law_ascii_takes_single_columns, law_nearest_point, law_single_columns_are_characters,
    law_trailing_space_is_removed,
};
use crate::screen::{Screen, ScreenCell, REVERSED};
use crate::selection::{
    cells_drawable, highlighted, outcome_of, rows_readable, selection_after, ActiveSelection,
    MouseLineSelectionOutcome, Outcome,
};
use crate::source::{source_of, SourceContent};
use crate::text::{blank, display_widths, joined, text_in_columns, white_space};
use vstd::math::{abs, min};
use vstd::prelude::*;

verus! {

/// A press of the left button in the preferred area starts a selection there. A press elsewhere on the
/// screen of the source starts one on that screen. Both ends of it are the cell of the press, and it
/// is not dragged yet. Any other press ends the selection, which shows only if there was one.
pub proof fn law_press(
    viewport: Screen,
    history: Seq<Seq<char>>,
    preferred_area: Option<Rect>,
    active: Option<ActiveSelection>,
    event: MouseEvent,
)
    requires
        event.kind == MouseEventKind::Down(MouseButton::Left),
    ensures
        ({
            let source = source_of(viewport, history, preferred_area);
            let after = selection_after(active, event, source);
            let outcome = outcome_of(active, event, source);
            let point = SelectionPoint { row: event.row, column: event.column };
            let preferred = preferred_area matches Some(area) && area.contains(
                event.column,
                event.row,
            );
            let on_screen = source.area.contains(event.column, event.row);
            let started = |area: Rect|
                ActiveSelection { area, anchor: point, current: point, dragged: false };
            &&& rows_readable(active, event, source)
            &&& preferred ==> after == Some(started(preferred_area->0))
            &&& !preferred && on_screen ==> after == Some(started(source.area))
            &&& preferred || on_screen ==> outcome == Outcome::Redraw
            &&& !preferred && !on_screen ==> after is None
            &&& !preferred && !on_screen && active is Some ==> outcome == Outcome::Redraw
            &&& !preferred && !on_screen && active is None ==> outcome == Outcome::Unchanged
        }),
{
}

/// Moving the mouse with the left button held takes the moving end of a selection to a cell of its
/// area than which none is nearer to the mouse, by column or by row. It keeps the area and the other
/// end, and counts as a drag. It shows exactly if the moving end was elsewhere.
pub proof fn law_drag(selection: ActiveSelection, event: MouseEvent, source: SourceContent)
    requires
        selection.well_formed(),
        event.kind == MouseEventKind::Drag(MouseButton::Left),
    ensures
        rows_readable(Some(selection), event, source),
        match selection_after(Some(selection), event, source) {
            Some(after) => {
                &&& after.area == selection.area
                &&& after.anchor == selection.anchor
                &&& after.dragged
                &&& selection.area.contains(after.current.column, after.current.row)
                &&& forall|column: u16, row: u16| #[trigger]
                    selection.area.contains(column, row) ==> {
                        &&& abs(event.column - after.current.column) <= abs(event.column - column)
                        &&& abs(event.row - after.current.row) <= abs(event.row - row)
                    }
                &&& outcome_of(Some(selection), event, source) == if after.current
                    == selection.current {
                    Outcome::Unchanged
                } else {
                    Outcome::Redraw
                }
            },
            None => false,
        },
{
    law_nearest_point(event, selection.area);
}

/// The release of the left button ends a selection at the cell of its area that is nearest to the
/// mouse, by column and by row. If the mouse was never dragged and that is the cell of the press,
/// nothing is read and nothing copied. Otherwise the text of the selection from the press to that cell
/// is copied, if there is one, for which its rows must be readable.
pub proof fn law_release(
    selection: ActiveSelection,
    event: MouseEvent,
    source: SourceContent,
    nearest: SelectionPoint,
)
    requires
        selection.well_formed(),
        event.kind == MouseEventKind::Up(MouseButton::Left),
        selection.area.contains(nearest.column, nearest.row),
        forall|column: u16, row: u16| #[trigger]
            selection.area.contains(column, row) ==> {
                &&& abs(event.column - nearest.column) <= abs(event.column - column)
                &&& abs(event.row - nearest.row) <= abs(event.row - row)
            },
    ensures
        selection_after(Some(selection), event, source) is None,
        ({
            let end = ActiveSelection {
                area: selection.area,
                anchor: selection.anchor,
                current: nearest,
                dragged: true,
            };
            let outcome = outcome_of(Some(selection), event, source);
            if !selection.dragged && nearest == selection.anchor {
                &&& rows_readable(Some(selection), event, source)
                &&& outcome == Outcome::Redraw
            } else {
                &&& rows_readable(Some(selection), event, source) <==> end.readable(source)
                &&& end.text(source) matches Some(text) ==> outcome == Outcome::Copy(text)
                &&& end.text(source) is None ==> outcome == Outcome::Redraw
            }
        }),
{
    law_nearest_point(event, selection.area);
}

/// An outcome shows what it says: nothing, a redraw, or the text that it holds.
pub proof fn law_content_of_an_outcome(outcome: MouseLineSelectionOutcome)
    ensures
        outcome is Unchanged <==> outcome@ is Unchanged,
        outcome is Redraw <==> outcome@ is Redraw,
        outcome matches MouseLineSelectionOutcome::Copy(text) ==> outcome@ == Outcome::Copy(text@),
{
}

/// Every event but the release of the left button that ends a selection reads nothing.
pub proof fn law_only_a_release_reads(
    active: Option<ActiveSelection>,
    event: MouseEvent,
    source: SourceContent,
)
    requires
        active is None || event.kind != MouseEventKind::Up(MouseButton::Left),
    ensures
        rows_readable(active, event, source),
{
}

/// A selection is well formed exactly if both of its ends lie in its area. Its range is that between
/// its ends, and it counts the rows from the upper end to the lower one.
pub proof fn law_ends_of_a_selection(selection: ActiveSelection)
    ensures
        selection.well_formed() <==> selection.area.contains(
            selection.anchor.column,
            selection.anchor.row,
        ) && selection.area.contains(selection.current.column, selection.current.row),
        selection.range() == range_between(selection.anchor, selection.current),
        selection.row_count() == abs(selection.anchor.row - selection.current.row) + 1,
{
}

/// A selection can be read exactly if each row from its upper end to its lower one can.
pub proof fn law_readable_selection(selection: ActiveSelection, source: SourceContent)
    ensures
        selection.readable(source) <==> forall|row: u16|
            (selection.anchor.row <= row <= selection.current.row || selection.current.row <= row
                <= selection.anchor.row) ==> #[trigger] source.readable(row, selection.area),
{
}

/// What a selection copies is what it copies of its rows, from the upper end to the lower one, joined,
/// unless that is blank.
pub proof fn law_text_of_a_selection(
    selection: ActiveSelection,
    source: SourceContent,
    lines: Seq<Seq<char>>,
)
    requires
        lines.len() == abs(selection.anchor.row - selection.current.row) + 1,
        forall|i: int|
            0 <= i < lines.len() ==> selection.line(
                source,
                (min(selection.anchor.row as int, selection.current.row as int)
                    + i) as u16,
            ) == Some(#[trigger] lines[i]),
    ensures
        selection.has_lines(source),
        selection.first_lines(source, selection.row_count()) == lines,
        blank(joined(lines)) ==> selection.text(source) is None,
        !blank(joined(lines)) ==> selection.text(source) == Some(joined(lines)),
{
    assert forall|i: int| 0 <= i < lines.len() implies #[trigger] selection.line_at(source, i)
        == Some(lines[i]) by {}
}

/// A selection copies nothing if there is a row between its ends of which nothing can be copied.
pub proof fn law_missing_row_stops_the_copy(
    selection: ActiveSelection,
    source: SourceContent,
    row: u16,
)
    requires
        selection.anchor.row <= row <= selection.current.row || selection.current.row <= row
            <= selection.anchor.row,
        selection.line(source, row) is None,
    ensures
        !selection.has_lines(source),
        selection.text(source) is None,
{
    let i = row - min(selection.anchor.row as int, selection.current.row as int);
    assert(selection.line_at(source, i) is None);
}

/// Of a row that has a text and selected columns, the characters in these columns are copied, counted
/// from the left edge of the area. All of them are, unless the columns reach the right edge: then the
/// white space at the end is left out, all of it and nothing else. Of any other row nothing can be
/// copied.
pub proof fn law_line_of_a_selection(
    selection: ActiveSelection,
    source: SourceContent,
    row: u16,
)
    ensures
        match (
            range_between(selection.anchor, selection.current).columns(row, selection.area),
            source.line(row, selection.area),
        ) {
            (Some((first, end)), Some(text)) => {
                let left = selection.area.left();
                let cut = text_in_columns(text, display_widths(text), first - left, end - left);
                &&& selection.line(source, row) matches Some(line)
                &&& line.len() <= cut.len()
                &&& forall|i: int| 0 <= i < line.len() ==> #[trigger] line[i] == cut[i]
                &&& forall|i: int|
                    line.len() <= i < cut.len() ==> white_space(#[trigger] cut[i])
                &&& end < selection.area.right() ==> line.len() == cut.len()
                &&& end == selection.area.right() && line.len() > 0 ==> !white_space(line.last())
            },
            _ => selection.line(source, row) is None,
        },
{
    if let (Some((first, end)), Some(text)) = (
        range_between(selection.anchor, selection.current).columns(row, selection.area),
        source.line(row, selection.area),
    ) {
        let left = selection.area.left();
        let cut = text_in_columns(text, display_widths(text), first - left, end - left);
        law_trailing_space_is_removed(cut);
    }
}

/// Of a selected row above the viewport whose history text is printable ASCII, the characters at the
/// selected columns are copied, as far as the text reaches. If the columns reach the right edge of the
/// area, the blanks at the end are left out.
pub proof fn law_history_row_is_cut(
    viewport: Screen,
    history: Seq<Seq<char>>,
    preferred_area: Option<Rect>,
    selection: ActiveSelection,
    row: u16,
)
    requires
        row < viewport.area.top(),
        viewport.area.top() - row <= history.len(),
        selection.area.has_row(row),
        range_between(selection.anchor, selection.current).columns(row, selection.area) is Some,
        forall|i: int|
            0 <= i < history[history.len() - (viewport.area.top() - row)].len() ==> ' '
                <= #[trigger] history[history.len() - (viewport.area.top() - row)][i] <= '~',
    ensures
        ({
            let source = source_of(viewport, history, preferred_area);
            let text = history[history.len() - (viewport.area.top() - row)];
            let (first, end) = range_between(selection.anchor, selection.current).columns(
                row,
                selection.area,
            )->0;
            let cut = text.subrange(
                min(first - selection.area.left(), text.len() as int),
                min(end - selection.area.left(), text.len() as int),
            );
            &&& selection.line(source, row) matches Some(line)
            &&& end < selection.area.right() ==> line == cut
            &&& end == selection.area.right() ==> {
                &&& line.len() <= cut.len()
                &&& line == cut.take(line.len() as int)
                &&& forall|i: int| line.len() <= i < cut.len() ==> #[trigger] cut[i] == ' '
                &&& line.len() > 0 ==> line.last() != ' '
            }
        }),
{
    let text = history[history.len() - (viewport.area.top() - row)];
    let (first, end) = range_between(selection.anchor, selection.current).columns(
        row,
        selection.area,
    )->0;
    let start = first - selection.area.left();
    let stop = end - selection.area.left();
    let cut = text.subrange(
        min(start, text.len() as int),
        min(stop, text.len() as int),
    );
    law_ascii_takes_single_columns(text);
    law_single_columns_are_characters(text, display_widths(text), start, stop);
    law_trailing_space_is_removed(cut);
}

/// Drawing a selection swaps the colours of the cells in the drawn area and in that of the selection
/// that are read from one end of the selection to the other. Every other cell stays as it was, and so
/// do the area of the screen and which cells it has.
pub proof fn law_drawn_cells(
    screen: Screen,
    selection: ActiveSelection,
    area: Rect,
    column: u16,
    row: u16,
)
    requires
        screen.cells.contains_key((column, row)),
    ensures
        ({
            let drawn = highlighted(screen, Some(selection), area);
            let before = screen.cells[(column, row)];
            let after = drawn.cells[(column, row)];
            let cell = row * 0x1_0000 + column;
            let anchor = selection.anchor.row * 0x1_0000 + selection.anchor.column;
            let current = selection.current.row * 0x1_0000 + selection.current.column;
            let between = anchor <= cell <= current || current <= cell <= anchor;
            let inside = area.contains(column, row) && selection.area.contains(column, row);
            &&& drawn.area == screen.area
            &&& drawn.cells.dom() == screen.cells.dom()
            &&& !inside || !between ==> after == before
            &&& inside && between ==> after == (ScreenCell {
                symbol: before.symbol,
                fg: before.fg,
                bg: before.bg,
                underline_color: before.underline_color,
                modifier: before.modifier | REVERSED,
                skip: before.skip,
            })
        }),
{
}

/// Drawing changes no cell outside the area of the selection, and none outside the drawn area.
pub proof fn law_drawing_keeps_to_both_areas(
    screen: Screen,
    selection: ActiveSelection,
    area: Rect,
    column: u16,
    row: u16,
)
    requires
        screen.cells.contains_key((column, row)),
        !selection.area.contains(column, row) || !area.contains(column, row),
    ensures
        highlighted(screen, Some(selection), area).cells[(column, row)] == screen.cells[(
            column,
            row,
        )],
{
}

/// Drawing without a selection changes nothing.
pub proof fn law_drawing_no_selection(screen: Screen, area: Rect)
    ensures
        highlighted(screen, None, area) == screen,
        cells_drawable(screen, None, area),
{
}

/// A screen can be drawn on exactly if it has each cell that lies in its own area, in the drawn one and
/// in that of the selection, and is read from one end of the selection to the other. A selection
/// highlights nothing on it exactly if there is no such cell to have.
pub proof fn law_drawable_screen(screen: Screen, selection: ActiveSelection, area: Rect)
    ensures
        cells_drawable(screen, Some(selection), area) <==> forall|column: u16, row: u16|
            screen.area.contains(column, row) && area.contains(column, row)
                && selection.area.contains(column, row) && range_between(
                selection.anchor,
                selection.current,
            ).selects(column, row) ==> #[trigger] screen.cells.contains_key((column, row)),
        selection.highlights_nothing(screen, area) <==> forall|column: u16, row: u16| #[trigger]
            screen.area.contains(column, row) ==> !(area.contains(column, row)
                && selection.area.contains(column, row) && range_between(
                selection.anchor,
                selection.current,
            ).selects(column, row)),
{
    let range = range_between(selection.anchor, selection.current);
    if selection.highlights_nothing(screen, area) {
        assert forall|column: u16, row: u16| #[trigger]
            screen.area.contains(column, row) implies !(area.contains(column, row)
            && selection.area.contains(column, row) && range.selects(column, row)) by {
            assert(selection.highlights(area, column, row) == (area.contains(column, row)
                && selection.area.contains(column, row) && range.selects(column, row)));
        }
    }
}

} // verus!
