//! Selecting text with the mouse in a terminal screen made of history rows above a live viewport.

pub mod event;
pub mod geometry;
pub mod geometry_laws;
pub mod laws;
pub mod screen;
pub mod selection;
pub mod selection_laws;
pub mod source;
pub mod source_laws;
pub mod text;
pub mod text_laws;

pub use event::{MouseButton, MouseEvent, MouseEventKind};
pub use geometry::{
    intersect_rect, point_clamped_to_area, point_in_area, row_in_area, Rect, SelectionPoint,
    SelectionRange,
};
pub use screen::{buffer_line_is_readable, buffer_line_text, REVERSED};
pub use selection::{
    can_read, selected_text, ActiveSelection, MouseLineSelection, MouseLineSelectionOutcome,
};
pub use source::{HistoryRow, MouseLineSelectionSource};
pub use text::{
    is_blank, is_white_space, join_lines, slice_measured_columns, slice_text_columns, trim_end,
};
