//! The buffer of screen cells that `ratatui` keeps: what it holds, how a line of it reads, and how
//! some of its cells get a modifier.

use crate::geometry::{row_in_area, Rect};
use ratatui::buffer::Buffer;
use ratatui::style::{Color, Modifier, Style};
use vstd::prelude::*;

verus! {

/// `ratatui`'s buffer of screen cells.
#[verifier::external_type_specification]
#[verifier::external_body]
pub struct ExBuffer(Buffer);

/// `ratatui`'s colour of a part of a cell.
#[verifier::external_type_specification]
#[verifier::external_body]
pub struct ExColor(Color);

/// What a cell of a buffer holds: its text, its colours, the bits of its modifier, and whether it is
/// left out when the buffer is drawn.
pub struct ScreenCell {
    pub symbol: Seq<char>,
    pub fg: Color,
    pub bg: Color,
    pub underline_color: Color,
    pub modifier: u16,
    pub skip: bool,
}

/// What a buffer holds: the area that it stands for, and its cells by column and row.
///
/// A buffer is a list of cells beside an area, and the list may be too short for the area. The cells
/// that it lacks are no keys of the map.
pub struct Screen {
    pub area: Rect,
    pub cells: Map<(u16, u16), ScreenCell>,
}

/// The area that a buffer stands for.
pub uninterp spec fn buffer_area(buffer: Buffer) -> Rect;

/// The cells of a buffer by column and row.
pub uninterp spec fn buffer_cells(buffer: Buffer) -> Map<(u16, u16), ScreenCell>;

/// What a buffer holds.
pub open spec fn screen(buffer: Buffer) -> Screen {
    Screen { area: buffer_area(buffer), cells: buffer_cells(buffer) }
}

/// The bits of `ratatui`'s modifier that swaps the colours of a cell.
pub const REVERSED: u16 = 0x40;

/// Cells of which those in an area have some more bits in their modifiers, and are otherwise as they
/// were.
pub open spec fn with_modifier(
    cells: Map<(u16, u16), ScreenCell>,
    area: Rect,
    bits: u16,
) -> Map<(u16, u16), ScreenCell> {
    cells.map_entries(
        |position: (u16, u16), cell: ScreenCell|
            if area.contains(position.0, position.1) {
                ScreenCell { modifier: cell.modifier | bits, ..cell }
            } else {
                cell
            },
    )
}

/// The `area` field of `ratatui`'s `Buffer`.
#[verifier::external_body]
pub(crate) fn area_of(buffer: &Buffer) -> (r: Rect)
    ensures
        r == buffer_area(*buffer),
{
    let area = buffer.area;
    Rect { x: area.x, y: area.y, width: area.width, height: area.height }
}

/// `ratatui`'s `Buffer::cell`, here asked only whether the buffer has a cell at a position.
#[verifier::external_body]
pub(crate) fn has_cell(buffer: &Buffer, column: u16, row: u16) -> (r: bool)
    ensures
        r == buffer_cells(*buffer).contains_key((column, row)),
{
    buffer.cell((column, row)).is_some()
}

/// The text of a cell: `ratatui`'s index of a `Buffer` by position, and `Cell::symbol`.
///
/// The index panics where the buffer has no cell.
#[verifier::external_body]
fn cell_symbol<'a>(buffer: &'a Buffer, column: u16, row: u16) -> (r: &'a str)
    requires
        buffer_cells(*buffer).contains_key((column, row)),
    ensures
        r@ == buffer_cells(*buffer)[(column, row)].symbol,
{
    buffer[(column, row)].symbol()
}

/// `ratatui`'s `Buffer::set_style` with a style that does nothing but add a modifier, given by its
/// bits.
///
/// It changes the cells that lie both in `area` and in the area of the buffer, and panics where the
/// buffer lacks one of them. Of such a cell it changes the modifier alone, which keeps the bits that
/// it had. Where there is no such cell it leaves the buffer as it was.
#[verifier::external_body]
pub(crate) fn set_style(buffer: &mut Buffer, area: Rect, bits: u16)
    requires
        forall|column: u16, row: u16|
            area.contains(column, row) && buffer_area(*old(buffer)).contains(column, row)
                ==> #[trigger] buffer_cells(*old(buffer)).contains_key((column, row)),
    ensures
        buffer_area(*final(buffer)) == buffer_area(*old(buffer)),
        buffer_cells(*final(buffer)) == with_modifier(buffer_cells(*old(buffer)), area, bits),
        (forall|column: u16, row: u16|
            !(#[trigger] area.contains(column, row) && buffer_area(*old(buffer)).contains(
                column,
                row,
            ))) ==> *final(buffer) == *old(buffer),
{
    let style = Style::new().add_modifier(Modifier::from_bits_retain(bits));
    let area =
        ratatui::layout::Rect { x: area.x, y: area.y, width: area.width, height: area.height };
    buffer.set_style(area, style);
}

/// The texts of the cells of a row, from one column to before another, one after the other.
pub open spec fn symbols_between(
    cells: Map<(u16, u16), ScreenCell>,
    row: u16,
    column: int,
    end: int,
) -> Seq<char>
    decreases end - column,
{
    if column >= end {
        Seq::empty()
    } else {
        symbols_between(cells, row, column, end - 1) + cells[((end - 1) as u16, row)].symbol
    }
}

/// The text of a row of a screen in the columns of an area; none where the screen has no such row.
pub open spec fn screen_line(screen: Screen, row: u16, area: Rect) -> Option<Seq<char>> {
    if screen.area.has_row(row) {
        Some(symbols_between(screen.cells, row, area.left() as int, area.right() as int))
    } else {
        None
    }
}

/// Whether a screen has every cell that its row has in the columns of an area, if it has that row.
pub open spec fn screen_line_readable(screen: Screen, row: u16, area: Rect) -> bool {
    screen.area.has_row(row) ==> forall|column: u16|
        area.left() <= column < area.right() ==> #[trigger] screen.cells.contains_key((column, row))
}

/// The text of a row of a buffer in the columns of an area, or `None` where the buffer has no such
/// row.
pub fn buffer_line_text(buffer: &Buffer, row: u16, area: Rect) -> (r: Option<String>)
    requires
        screen_line_readable(screen(*buffer), row, area),
    ensures
        r is Some <==> screen_line(screen(*buffer), row, area) is Some,
        r matches Some(line) ==> Some(line@) == screen_line(screen(*buffer), row, area),
{
    if row_in_area(row, area_of(buffer)).is_none() {
        return None;
    }
    let mut line = String::new();
    let end: u16 = area.right();
    let mut column: u16 = area.left();
    while column < end
        invariant
            area.left() <= column <= end == area.right(),
            screen(*buffer).area.has_row(row),
            screen_line_readable(screen(*buffer), row, area),
            line@ == symbols_between(
                buffer_cells(*buffer),
                row,
                area.left() as int,
                column as int,
            ),
        decreases end - column,
    {
        assert(screen(*buffer).cells.contains_key((column, row)));
        line.append(cell_symbol(buffer, column, row));
        column = column + 1;
    }
    Some(line)
}

/// Whether a buffer has every cell that its row has in the columns of an area, if it has that row.
pub fn buffer_line_is_readable(buffer: &Buffer, row: u16, area: Rect) -> (r: bool)
    ensures
        r == screen_line_readable(screen(*buffer), row, area),
{
    if row_in_area(row, area_of(buffer)).is_none() {
        return true;
    }
    let end: u16 = area.right();
    let mut column: u16 = area.left();
    while column < end
        invariant
            area.left() <= column <= end == area.right(),
            screen(*buffer).area.has_row(row),
            forall|c: u16|
                area.left() <= c < column ==> #[trigger] screen(*buffer).cells.contains_key(
                    (c, row),
                ),
        decreases end - column,
    {
        if !has_cell(buffer, column, row) {
            assert(!screen(*buffer).cells.contains_key((column, row)));
            return false;
        }
        column = column + 1;
    }
    true
}

} // verus!
