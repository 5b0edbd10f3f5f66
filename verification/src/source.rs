//! Where selected text comes from: rows of history above a live viewport.

use crate::event::MouseEvent;
use crate::geometry::{fitted_rect, point_in_area, row_in_area, Rect};
use crate::screen::{
    area_of, buffer_line_is_readable, buffer_line_text, screen, screen_line, screen_line_readable,
    Screen,
};
use ratatui::buffer::Buffer;
use vstd::prelude::*;
use vstd::slice::slice_subrange;

verus! {

/// A row of text that has scrolled out of the viewport.
#[derive(Debug)]
pub struct HistoryRow {
    pub plain_text: String,
}

/// The text that a mouse can select from: a viewport, and the history rows that stand right above it
/// on the screen.
pub struct MouseLineSelectionSource<'a> {
    area: Rect,
    history_rows: &'a [HistoryRow],
    preferred_area: Option<Rect>,
    viewport_buffer: &'a Buffer,
}

/// What a source holds.
pub struct SourceContent {
    /// The rows of the history that are on the screen and those of the viewport.
    pub area: Rect,
    /// The texts of the history rows that are on the screen, from the top down.
    pub history: Seq<Seq<char>>,
    /// The area that a selection keeps to when it starts there.
    pub preferred_area: Option<Rect>,
    pub viewport: Screen,
}

/// The texts of history rows.
pub open spec fn row_texts(rows: Seq<HistoryRow>) -> Seq<Seq<char>> {
    rows.map_values(|row: HistoryRow| row.plain_text@)
}

/// The number of history rows that fit on the screen above the row `top`.
pub open spec fn rows_above(history_len: nat, top: u16) -> int {
    if history_len < top {
        history_len as int
    } else {
        top as int
    }
}

/// The source that a viewport makes with the last rows of a history above it and, if it has a size,
/// a preferred area.
pub open spec fn source_of(
    viewport: Screen,
    history: Seq<Seq<char>>,
    preferred_area: Option<Rect>,
) -> SourceContent {
    let count = rows_above(history.len(), viewport.area.top());
    SourceContent {
        area: fitted_rect(
            viewport.area.x,
            (viewport.area.y - count) as u16,
            viewport.area.width as int,
            viewport.area.height + count,
        ),
        history: history.skip(history.len() - count),
        preferred_area: match preferred_area {
            Some(area) if !area.is_empty() => Some(area),
            _ => None,
        },
        viewport,
    }
}

impl SourceContent {
    /// The preferred area, if an event lies in it.
    pub open spec fn preferred_for(self, event: MouseEvent) -> Option<Rect> {
        match self.preferred_area {
            Some(area) if area.contains(event.column, event.row) => Some(area),
            _ => None,
        }
    }

    /// The text of a row of an area. A row above the viewport reads as its whole history row, one of
    /// the viewport in the columns of the area alone.
    pub open spec fn line(self, row: u16, area: Rect) -> Option<Seq<char>> {
        if !area.has_row(row) {
            None
        } else if row < self.viewport.area.top() {
            let index = row - self.area.top();
            if index < self.history.len() {
                Some(self.history[index])
            } else {
                None
            }
        } else {
            screen_line(self.viewport, row, area)
        }
    }

    /// Whether a row of an area can be read: above the viewport it is not above the first history
    /// row, and in the viewport the buffer has its cells.
    pub open spec fn readable(self, row: u16, area: Rect) -> bool {
        area.has_row(row) ==> if row < self.viewport.area.top() {
            self.area.top() <= row
        } else {
            screen_line_readable(self.viewport, row, area)
        }
    }
}

impl<'a> View for MouseLineSelectionSource<'a> {
    type V = SourceContent;

    closed spec fn view(&self) -> SourceContent {
        SourceContent {
            area: self.area,
            history: row_texts(self.history_rows@),
            preferred_area: self.preferred_area,
            viewport: screen(*self.viewport_buffer),
        }
    }
}

impl<'a> MouseLineSelectionSource<'a> {
    /// The source of a viewport with as many rows of a history, from its end, as fit above it.
    pub fn new_with_preferred_area(
        viewport_buffer: &'a Buffer,
        history_rows: &'a [HistoryRow],
        preferred_area: Option<Rect>,
    ) -> (r: Self)
        ensures
            r@ == source_of(screen(*viewport_buffer), row_texts(history_rows@), preferred_area),
    {
        let viewport_area = area_of(viewport_buffer);
        let history_row_count: u16 = history_rows.len().min(viewport_area.top() as usize) as u16;
        let shown_rows = slice_subrange(
            history_rows,
            history_rows.len() - history_row_count as usize,
            history_rows.len(),
        );
        let top: u16 = viewport_area.top() - history_row_count;
        let height: u16 = viewport_area.height.saturating_add(history_row_count);
        let source = Self {
            area: Rect::new(viewport_area.x, top, viewport_area.width, height),
            history_rows: shown_rows,
            preferred_area: match preferred_area {
                Some(area) if !area.is_empty() => Some(area),
                _ => None,
            },
            viewport_buffer,
        };
        proof {
            let whole = row_texts(history_rows@);
            assert(row_texts(shown_rows@) =~= whole.skip(whole.len() - history_row_count));
        }
        source
    }

    /// The rows of the history that are on the screen and those of the viewport.
    pub fn area(&self) -> (r: Rect)
        ensures
            r == self@.area,
    {
        self.area
    }

    /// The preferred area, if an event lies in it.
    pub fn selection_area_for_event(&self, event: MouseEvent) -> (r: Option<Rect>)
        ensures
            r == self@.preferred_for(event),
    {
        match self.preferred_area {
            Some(area) => if point_in_area(event, area).is_some() {
                Some(area)
            } else {
                None
            },
            None => None,
        }
    }

    /// The text of a row of an area, or `None` where the area or the screen has no such row.
    pub fn line_text(&self, row: u16, area: Rect) -> (r: Option<String>)
        requires
            self@.readable(row, area),
        ensures
            r is Some <==> self@.line(row, area) is Some,
            r matches Some(line) ==> Some(line@) == self@.line(row, area),
    {
        if row_in_area(row, area).is_none() {
            return None;
        }
        if row < area_of(self.viewport_buffer).top() {
            let index: usize = (row - self.area.top()) as usize;
            return if index < self.history_rows.len() {
                Some(self.history_rows[index].plain_text.clone())
            } else {
                None
            };
        }
        buffer_line_text(self.viewport_buffer, row, area)
    }

    /// Whether a row of an area can be read.
    pub fn is_readable(&self, row: u16, area: Rect) -> (r: bool)
        ensures
            r == self@.readable(row, area),
    {
        if row_in_area(row, area).is_none() {
            true
        } else if row < area_of(self.viewport_buffer).top() {
            self.area.top() <= row
        } else {
            buffer_line_is_readable(self.viewport_buffer, row, area)
        }
    }
}

} // verus!
