# mouse_line_selection

Selecting text with the mouse in a terminal screen: history rows above a live viewport, drawn with
`ratatui`. The library follows press, drag and release of the left button, highlights the selected
cells, and hands out the text to copy.

- `src/geometry.rs`: areas, points, and ranges of cells in reading order.
- `src/event.rs`: mouse events.
- `src/text.rs`: text cut by display columns, white space, joined lines.
- `src/screen.rs`: `ratatui`'s buffer, with what is trusted of it.
- `src/source.rs`: the history rows and the viewport that text is read from.
- `src/selection.rs`: the selection itself.
- `src/laws.rs`: what holds of selections as a whole.
- `app/`: the binding to `crossterm` events and `ratatui` areas.

The library is verified with Verus. Its contracts speak of plain models: `Screen` for a buffer,
`SourceContent` for a source, `Option<ActiveSelection>` for a selection. The items of `ratatui`,
`unicode-width` and the standard library whose contracts are taken on trust stand in
`src/screen.rs` and at the top of `src/text.rs`.
