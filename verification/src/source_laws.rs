//! Where the rows of a source stand on the screen and what they read.

use crate::geometry::Rect;
use crate::screen::{
    buffer_area, buffer_cells, screen, screen_line, screen_line_readable, symbols_between,
    with_modifier, Screen, ScreenCell,
};
use crate::source::{source_of, SourceContent};
use ratatui::buffer::Buffer;
use vstd::prelude::*;

verus! {

/// The text of cells can be read in parts: that of the cells from one column to another is that up to
/// any column between them, then that from there on. One cell reads as its symbol, and none as no
/// text.
pub proof fn law_cells_read_in_parts(
    cells: Map<(u16, u16), ScreenCell>,
    row: u16,
    column: int,
    middle: int,
    end: int,
)
    requires
        column <= middle <= end,
    ensures
        symbols_between(cells, row, column, end) == symbols_between(cells, row, column, middle)
            + symbols_between(cells, row, middle, end),
        symbols_between(cells, row, column, column) == Seq::<char>::empty(),
        symbols_between(cells, row, column, column + 1) == cells[(column as u16, row)].symbol,
    decreases end - middle,
{
    reveal_with_fuel(symbols_between, 2);
    if middle < end {
        law_cells_read_in_parts(cells, row, column, middle, end - 1);
    }
}

/// What a buffer holds is its area and its cells. Cells that get a modifier have the bits that they had
/// and the new ones, and are otherwise as they were, as are all cells outside the area of the change.
pub proof fn law_screen_of_a_buffer(buffer: Buffer, area: Rect, bits: u16, column: u16, row: u16)
    requires
        buffer_cells(buffer).contains_key((column, row)),
    ensures
        screen(buffer).area == buffer_area(buffer),
        screen(buffer).cells == buffer_cells(buffer),
        ({
            let before = buffer_cells(buffer)[(column, row)];
            let changed = with_modifier(buffer_cells(buffer), area, bits);
            let after = changed[(column, row)];
            &&& changed.dom() == buffer_cells(buffer).dom()
            &&& !area.contains(column, row) ==> after == before
            &&& area.contains(column, row) ==> after == (ScreenCell {
                symbol: before.symbol,
                fg: before.fg,
                bg: before.bg,
                underline_color: before.underline_color,
                modifier: before.modifier | bits,
                skip: before.skip,
            })
        }),
{
}

/// A screen has a line for exactly the rows of its area, and the line is the text of the cells in the
/// columns asked for. It can be read exactly if the screen has all these cells, or has no such row.
pub proof fn law_line_of_a_screen(screen: Screen, row: u16, area: Rect)
    ensures
        match screen_line(screen, row, area) {
            Some(text) => screen.area.has_row(row) && text == symbols_between(
                screen.cells,
                row,
                area.left() as int,
                area.right() as int,
            ),
            None => !screen.area.has_row(row),
        },
        screen_line_readable(screen, row, area) <==> (!screen.area.has_row(row) || forall|column: u16|
            area.left() <= column < area.right() ==> #[trigger] screen.cells.contains_key(
                (column, row),
            )),
{
}

/// A source keeps its viewport and puts the end of the history right above it, as many rows as fit:
/// all of them, or as many as reach the top of the screen. It spans the columns of the viewport, and
/// the rows from the first history row on it to the end of the viewport, with a size that reaches just
/// there. It keeps a preferred area that has a size.
pub proof fn law_layout_of_a_source(
    viewport: Screen,
    history: Seq<Seq<char>>,
    preferred_area: Option<Rect>,
)
    ensures
        ({
            let source = source_of(viewport, history, preferred_area);
            let hidden = history.len() - source.history.len();
            &&& source.viewport == viewport
            &&& source.area.top() + source.history.len() == viewport.area.top()
            &&& source.history == history || source.area.top() == 0
            &&& hidden >= 0
            &&& forall|i: int|
                0 <= i < source.history.len() ==> #[trigger] source.history[i] == history[hidden
                    + i]
            &&& source.area.left() == viewport.area.left()
            &&& source.area.right() == viewport.area.right()
            &&& source.area.bottom() == viewport.area.bottom()
            &&& source.area.x + source.area.width == source.area.right()
            &&& source.area.y + source.area.height == source.area.bottom()
            &&& source.preferred_area == if preferred_area matches Some(area) && area.width != 0
                && area.height != 0 {
                preferred_area
            } else {
                None
            }
        }),
{
}

/// Every row above the viewport for which the history has a row is on the screen of the source, and
/// reads as that row of the history, counted back from its end.
pub proof fn law_history_rows_that_fit_are_shown(
    viewport: Screen,
    history: Seq<Seq<char>>,
    preferred_area: Option<Rect>,
    row: u16,
    area: Rect,
)
    requires
        row < viewport.area.top(),
        viewport.area.top() - row <= history.len(),
        area.has_row(row),
    ensures
        ({
            let source = source_of(viewport, history, preferred_area);
            &&& source.area.top() <= row < source.area.bottom()
            &&& source.readable(row, area)
            &&& source.line(row, area) == Some(
                history[history.len() - (viewport.area.top() - row)],
            )
        }),
{
}

/// A source has a text for a row of an area exactly if the area has the row and the row is one of the
/// history or of the viewport. A row above the viewport reads as its history row, whatever the columns
/// of the area, and any other as the viewport does in these columns.
pub proof fn law_line_of_a_source(source: SourceContent, row: u16, area: Rect)
    ensures
        !area.has_row(row) ==> source.line(row, area) is None,
        area.has_row(row) && row >= source.viewport.area.top() ==> source.line(row, area)
            == screen_line(source.viewport, row, area),
        area.has_row(row) && source.area.top() <= row < source.viewport.area.top() ==> match source.line(
            row,
            area,
        ) {
            Some(text) => row - source.area.top() < source.history.len() && text
                == source.history[row - source.area.top()],
            None => row - source.area.top() >= source.history.len(),
        },
{
}

/// A row of an area can be read unless it lies above the first history row, or in the viewport with
/// some cell missing.
pub proof fn law_readable_rows(source: SourceContent, row: u16, area: Rect)
    ensures
        !source.readable(row, area) <==> area.has_row(row) && (row < source.area.top() && row
            < source.viewport.area.top() || row >= source.viewport.area.top()
            && source.viewport.area.has_row(row) && exists|column: u16|
            area.left() <= column < area.right() && !#[trigger] source.viewport.cells.contains_key(
                (column, row),
            )),
{
}

} // verus!
