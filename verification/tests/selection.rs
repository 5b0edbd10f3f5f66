use mouse_line_selection::{
    HistoryRow, MouseButton, MouseEvent, MouseEventKind, MouseLineSelection,
    MouseLineSelectionOutcome, MouseLineSelectionSource, Rect, SelectionPoint, SelectionRange,
    REVERSED,
};
use ratatui::buffer::{Buffer, Cell};
use ratatui::style::{Color, Modifier};

fn mouse(kind: MouseEventKind, row: u16, column: u16) -> MouseEvent {
    MouseEvent { kind, column, row }
}

fn down(row: u16, column: u16) -> MouseEvent {
    mouse(MouseEventKind::Down(MouseButton::Left), row, column)
}

fn drag(row: u16, column: u16) -> MouseEvent {
    mouse(MouseEventKind::Drag(MouseButton::Left), row, column)
}

fn up(row: u16, column: u16) -> MouseEvent {
    mouse(MouseEventKind::Up(MouseButton::Left), row, column)
}

fn rect(x: u16, y: u16, width: u16, height: u16) -> Rect {
    Rect { x, y, width, height }
}

fn area_of(buffer: &Buffer) -> Rect {
    let area = buffer.area;
    rect(area.x, area.y, area.width, area.height)
}

fn buffer_with_lines(lines: &[&str]) -> Buffer {
    let width = lines
        .iter()
        .map(|line| line.chars().count())
        .max()
        .unwrap_or(0)
        .max(1) as u16;
    let height = lines.len() as u16;
    let mut buffer = Buffer::empty(ratatui::layout::Rect::new(0, 0, width, height));
    for (y, line) in lines.iter().enumerate() {
        for (x, ch) in line.chars().enumerate() {
            buffer[(x as u16, y as u16)].set_symbol(&ch.to_string());
        }
    }
    buffer
}

fn history_rows(lines: &[&str]) -> Vec<HistoryRow> {
    lines
        .iter()
        .map(|line| HistoryRow { plain_text: (*line).to_string() })
        .collect()
}

fn source<'a>(
    buffer: &'a Buffer,
    history_rows: &'a [HistoryRow],
) -> MouseLineSelectionSource<'a> {
    MouseLineSelectionSource::new_with_preferred_area(buffer, history_rows, None)
}

fn row_selection_cells(buffer: &Buffer) -> String {
    let mut output = String::new();
    for y in buffer.area.top()..buffer.area.bottom() {
        for x in buffer.area.left()..buffer.area.right() {
            let Cell { modifier, .. } = &buffer[(x, y)];
            output.push(if modifier.contains(Modifier::REVERSED) {
                '#'
            } else {
                '.'
            });
        }
        output.push('\n');
    }
    output
}

fn copy(text: &str) -> MouseLineSelectionOutcome {
    MouseLineSelectionOutcome::Copy(text.to_string())
}

#[test]
fn drag_release_copies_selected_lines() {
    let buffer = buffer_with_lines(&["alpha", "beta", "gamma"]);
    let history_rows = Vec::new();
    let mut selection = MouseLineSelection::default();

    assert_eq!(
        selection.handle_mouse_event(
            mouse(MouseEventKind::Down(MouseButton::Left), 0, 0),
            source(&buffer, &history_rows)
        ),
        MouseLineSelectionOutcome::Redraw
    );
    assert_eq!(
        selection.handle_mouse_event(
            mouse(MouseEventKind::Drag(MouseButton::Left), 2, 4),
            source(&buffer, &history_rows)
        ),
        MouseLineSelectionOutcome::Redraw
    );
    assert_eq!(
        selection.handle_mouse_event(
            mouse(MouseEventKind::Up(MouseButton::Left), 2, 4),
            source(&buffer, &history_rows)
        ),
        MouseLineSelectionOutcome::Copy("alpha\nbeta\ngamma".to_string())
    );
}

#[test]
fn drag_release_copies_partial_single_line_selection() {
    let buffer = buffer_with_lines(&["abcdef"]);
    let history_rows = Vec::new();
    let mut selection = MouseLineSelection::default();

    selection.handle_mouse_event(
        mouse(MouseEventKind::Down(MouseButton::Left), 0, 1),
        source(&buffer, &history_rows),
    );
    selection.handle_mouse_event(
        mouse(MouseEventKind::Drag(MouseButton::Left), 0, 3),
        source(&buffer, &history_rows),
    );

    assert_eq!(
        selection.handle_mouse_event(
            mouse(MouseEventKind::Up(MouseButton::Left), 0, 3),
            source(&buffer, &history_rows)
        ),
        MouseLineSelectionOutcome::Copy("bcd".to_string())
    );
}

#[test]
fn release_at_different_column_counts_as_selection() {
    let buffer = buffer_with_lines(&["abcdef"]);
    let history_rows = Vec::new();
    let mut selection = MouseLineSelection::default();

    selection.handle_mouse_event(
        mouse(MouseEventKind::Down(MouseButton::Left), 0, 1),
        source(&buffer, &history_rows),
    );

    assert_eq!(
        selection.handle_mouse_event(
            mouse(MouseEventKind::Up(MouseButton::Left), 0, 3),
            source(&buffer, &history_rows)
        ),
        MouseLineSelectionOutcome::Copy("bcd".to_string())
    );
}

#[test]
fn preferred_area_selects_buffer_text_relative_to_area() {
    let buffer = buffer_with_lines(&["xxabcdefxx"]);
    let history_rows: Vec<HistoryRow> = Vec::new();
    let mut selection = MouseLineSelection::default();
    let preferred_area = Rect::new(2, 0, 6, 1);

    selection.handle_mouse_event(
        mouse(MouseEventKind::Down(MouseButton::Left), 0, 3),
        MouseLineSelectionSource::new_with_preferred_area(
            &buffer,
            &history_rows,
            Some(preferred_area),
        ),
    );

    assert_eq!(
        selection.handle_mouse_event(
            mouse(MouseEventKind::Up(MouseButton::Left), 0, 5),
            MouseLineSelectionSource::new_with_preferred_area(
                &buffer,
                &history_rows,
                Some(preferred_area),
            )
        ),
        MouseLineSelectionOutcome::Copy("bcd".to_string())
    );
}

#[test]
fn drag_release_copies_partial_multi_line_selection() {
    let buffer = buffer_with_lines(&["alpha", "beta", "gamma"]);
    let history_rows = Vec::new();
    let mut selection = MouseLineSelection::default();

    selection.handle_mouse_event(
        mouse(MouseEventKind::Down(MouseButton::Left), 0, 2),
        source(&buffer, &history_rows),
    );
    selection.handle_mouse_event(
        mouse(MouseEventKind::Drag(MouseButton::Left), 2, 1),
        source(&buffer, &history_rows),
    );

    assert_eq!(
        selection.handle_mouse_event(
            mouse(MouseEventKind::Up(MouseButton::Left), 2, 1),
            source(&buffer, &history_rows)
        ),
        MouseLineSelectionOutcome::Copy("pha\nbeta\nga".to_string())
    );
}

#[test]
fn release_on_blank_selection_only_redraws() {
    let buffer = buffer_with_lines(&["", ""]);
    let history_rows = Vec::new();
    let mut selection = MouseLineSelection::default();

    selection.handle_mouse_event(
        mouse(MouseEventKind::Down(MouseButton::Left), 0, 0),
        source(&buffer, &history_rows),
    );
    selection.handle_mouse_event(
        mouse(MouseEventKind::Drag(MouseButton::Left), 0, 0),
        source(&buffer, &history_rows),
    );

    assert_eq!(
        selection.handle_mouse_event(
            mouse(MouseEventKind::Up(MouseButton::Left), 0, 0),
            source(&buffer, &history_rows)
        ),
        MouseLineSelectionOutcome::Redraw
    );
}

#[test]
fn click_without_drag_does_not_copy() {
    let buffer = buffer_with_lines(&["alpha"]);
    let history_rows = Vec::new();
    let mut selection = MouseLineSelection::default();

    selection.handle_mouse_event(
        mouse(MouseEventKind::Down(MouseButton::Left), 0, 0),
        source(&buffer, &history_rows),
    );

    assert_eq!(
        selection.handle_mouse_event(
            mouse(MouseEventKind::Up(MouseButton::Left), 0, 0),
            source(&buffer, &history_rows)
        ),
        MouseLineSelectionOutcome::Redraw
    );
}

#[test]
fn drag_release_copies_history_lines_above_viewport() {
    let mut buffer = buffer_with_lines(&["live         "]);
    buffer.area.y = 2;
    let history_rows = history_rows(&["first output", "second output"]);
    let mut selection = MouseLineSelection::default();

    selection.handle_mouse_event(
        mouse(MouseEventKind::Down(MouseButton::Left), 0, 0),
        source(&buffer, &history_rows),
    );
    selection.handle_mouse_event(
        mouse(MouseEventKind::Drag(MouseButton::Left), 1, 12),
        source(&buffer, &history_rows),
    );

    assert_eq!(
        selection.handle_mouse_event(
            mouse(MouseEventKind::Up(MouseButton::Left), 1, 12),
            source(&buffer, &history_rows)
        ),
        MouseLineSelectionOutcome::Copy("first output\nsecond output".to_string())
    );
}

#[test]
fn drag_release_copies_across_history_and_viewport() {
    let mut buffer = buffer_with_lines(&["live  "]);
    buffer.area.y = 1;
    let history_rows = history_rows(&["output"]);
    let mut selection = MouseLineSelection::default();

    selection.handle_mouse_event(
        mouse(MouseEventKind::Down(MouseButton::Left), 0, 0),
        source(&buffer, &history_rows),
    );
    selection.handle_mouse_event(
        mouse(MouseEventKind::Drag(MouseButton::Left), 1, 3),
        source(&buffer, &history_rows),
    );

    assert_eq!(
        selection.handle_mouse_event(
            mouse(MouseEventKind::Up(MouseButton::Left), 1, 3),
            source(&buffer, &history_rows)
        ),
        MouseLineSelectionOutcome::Copy("output\nlive".to_string())
    );
}

#[test]
fn render_highlights_active_columns() {
    let mut buffer = buffer_with_lines(&["one", "two", "three"]);
    let history_rows = Vec::new();
    let mut selection = MouseLineSelection::default();
    selection.handle_mouse_event(
        mouse(MouseEventKind::Down(MouseButton::Left), 1, 1),
        source(&buffer, &history_rows),
    );
    selection.handle_mouse_event(
        mouse(MouseEventKind::Drag(MouseButton::Left), 2, 3),
        source(&buffer, &history_rows),
    );

    let area = area_of(&buffer);
    selection.render(area, &mut buffer);
    assert_eq!(
        format!("\n{}", row_selection_cells(&buffer)),
        r"
.....
.####
####.
"
    );
}

#[test]
fn render_highlights_preferred_area_columns() {
    let mut buffer = buffer_with_lines(&["xxabcdefxx"]);
    let history_rows: Vec<HistoryRow> = Vec::new();
    let preferred_area = Rect::new(2, 0, 6, 1);
    let mut selection = MouseLineSelection::default();
    selection.handle_mouse_event(
        mouse(MouseEventKind::Down(MouseButton::Left), 0, 3),
        MouseLineSelectionSource::new_with_preferred_area(
            &buffer,
            &history_rows,
            Some(preferred_area),
        ),
    );
    selection.handle_mouse_event(
        mouse(MouseEventKind::Drag(MouseButton::Left), 0, 5),
        MouseLineSelectionSource::new_with_preferred_area(
            &buffer,
            &history_rows,
            Some(preferred_area),
        ),
    );

    let area = area_of(&buffer);
    selection.render(area, &mut buffer);
    assert_eq!(
        format!("\n{}", row_selection_cells(&buffer)),
        r"
...###....
"
    );
}

#[test]
fn selection_follows_the_mouse() {
    let buffer = buffer_with_lines(&["alpha", "beta"]);
    let mut selection = MouseLineSelection::default();
    assert_eq!(selection.active_range(), None);

    selection.handle_mouse_event(down(1, 3), source(&buffer, &[]));
    let point = SelectionPoint { row: 1, column: 3 };
    assert_eq!(
        selection.active_range(),
        Some(SelectionRange { start: point, end: point })
    );

    selection.handle_mouse_event(drag(0, 2), source(&buffer, &[]));
    assert_eq!(
        selection.active_range(),
        Some(SelectionRange { start: SelectionPoint { row: 0, column: 2 }, end: point })
    );

    assert_eq!(
        selection.handle_mouse_event(up(0, 2), source(&buffer, &[])),
        copy("pha\nbeta")
    );
    assert_eq!(selection.active_range(), None);
}

#[test]
fn drag_off_the_area_stays_at_its_edge() {
    let buffer = buffer_with_lines(&["alpha", "beta"]);
    let mut selection = MouseLineSelection::default();
    selection.handle_mouse_event(down(0, 1), source(&buffer, &[]));
    selection.handle_mouse_event(drag(700, 900), source(&buffer, &[]));
    assert_eq!(
        selection.active_range(),
        Some(SelectionRange {
            start: SelectionPoint { row: 0, column: 1 },
            end: SelectionPoint { row: 1, column: 4 },
        })
    );
}

#[test]
fn repeated_drag_is_unchanged() {
    let buffer = buffer_with_lines(&["alpha"]);
    let mut selection = MouseLineSelection::default();
    selection.handle_mouse_event(down(0, 0), source(&buffer, &[]));
    assert_eq!(
        selection.handle_mouse_event(drag(0, 3), source(&buffer, &[])),
        MouseLineSelectionOutcome::Redraw
    );
    assert_eq!(
        selection.handle_mouse_event(drag(0, 3), source(&buffer, &[])),
        MouseLineSelectionOutcome::Unchanged
    );
    assert_eq!(
        selection.handle_mouse_event(drag(0, 1), source(&buffer, &[])),
        MouseLineSelectionOutcome::Redraw
    );
    assert_eq!(selection.handle_mouse_event(up(0, 1), source(&buffer, &[])), copy("al"));
}

#[test]
fn drag_back_to_the_start_copies() {
    let buffer = buffer_with_lines(&["alpha"]);
    let mut selection = MouseLineSelection::default();
    selection.handle_mouse_event(down(0, 1), source(&buffer, &[]));
    selection.handle_mouse_event(drag(0, 4), source(&buffer, &[]));
    assert_eq!(selection.handle_mouse_event(up(0, 1), source(&buffer, &[])), copy("l"));
}

#[test]
fn dragging_backwards_copies_the_same() {
    let buffer = buffer_with_lines(&["alpha", "beta", "gamma"]);
    let mut forward = MouseLineSelection::default();
    forward.handle_mouse_event(down(0, 2), source(&buffer, &[]));
    let mut backward = MouseLineSelection::default();
    backward.handle_mouse_event(down(2, 1), source(&buffer, &[]));
    assert_eq!(
        forward.handle_mouse_event(up(2, 1), source(&buffer, &[])),
        copy("pha\nbeta\nga")
    );
    assert_eq!(
        backward.handle_mouse_event(up(0, 2), source(&buffer, &[])),
        copy("pha\nbeta\nga")
    );
}

#[test]
fn events_without_a_selection_are_unchanged() {
    let buffer = buffer_with_lines(&["alpha"]);
    let mut selection = MouseLineSelection::default();
    let events = [
        drag(0, 0),
        up(0, 0),
        mouse(MouseEventKind::Moved, 0, 0),
        mouse(MouseEventKind::ScrollUp, 0, 0),
        mouse(MouseEventKind::Down(MouseButton::Right), 0, 0),
        down(5, 0),
    ];
    for event in events {
        assert_eq!(
            selection.handle_mouse_event(event, source(&buffer, &[])),
            MouseLineSelectionOutcome::Unchanged
        );
        assert_eq!(selection.active_range(), None);
    }
}

#[test]
fn other_events_drop_the_selection() {
    let buffer = buffer_with_lines(&["alpha"]);
    let events = [
        mouse(MouseEventKind::Moved, 0, 0),
        mouse(MouseEventKind::ScrollDown, 0, 0),
        mouse(MouseEventKind::ScrollUp, 0, 0),
        mouse(MouseEventKind::ScrollLeft, 0, 0),
        mouse(MouseEventKind::ScrollRight, 0, 0),
        mouse(MouseEventKind::Drag(MouseButton::Middle), 0, 0),
        mouse(MouseEventKind::Up(MouseButton::Right), 0, 0),
        mouse(MouseEventKind::Down(MouseButton::Right), 0, 0),
        down(1, 0),
    ];
    for event in events {
        let mut selection = MouseLineSelection::default();
        selection.handle_mouse_event(down(0, 0), source(&buffer, &[]));
        selection.handle_mouse_event(drag(0, 2), source(&buffer, &[]));
        assert_eq!(
            selection.handle_mouse_event(event, source(&buffer, &[])),
            MouseLineSelectionOutcome::Redraw
        );
        assert_eq!(selection.active_range(), None);
    }
}

#[test]
fn press_outside_the_preferred_area_selects_the_screen() {
    let buffer = buffer_with_lines(&["xxabcdefxx"]);
    let preferred = Some(rect(2, 0, 6, 1));
    let mut selection = MouseLineSelection::default();
    selection.handle_mouse_event(
        down(0, 0),
        MouseLineSelectionSource::new_with_preferred_area(&buffer, &[], preferred),
    );
    assert_eq!(
        selection.handle_mouse_event(
            up(0, 9),
            MouseLineSelectionSource::new_with_preferred_area(&buffer, &[], preferred),
        ),
        copy("xxabcdefxx")
    );
}

#[test]
fn selection_keeps_to_the_preferred_area() {
    let buffer = buffer_with_lines(&["xxabcdefxx", "xxghijklxx", "xxxxxxxxxx"]);
    let preferred = Some(rect(2, 0, 6, 2));
    let mut selection = MouseLineSelection::default();
    selection.handle_mouse_event(
        down(0, 4),
        MouseLineSelectionSource::new_with_preferred_area(&buffer, &[], preferred),
    );
    assert_eq!(
        selection.handle_mouse_event(
            up(9, 9),
            MouseLineSelectionSource::new_with_preferred_area(&buffer, &[], None),
        ),
        copy("cdef\nghijkl")
    );
}

#[test]
fn preferred_area_without_size_is_ignored() {
    let buffer = buffer_with_lines(&["abc"]);
    let source = MouseLineSelectionSource::new_with_preferred_area(
        &buffer,
        &[],
        Some(rect(1, 0, 0, 1)),
    );
    assert_eq!(source.selection_area_for_event(down(0, 1)), None);
    let source = MouseLineSelectionSource::new_with_preferred_area(
        &buffer,
        &[],
        Some(rect(1, 0, 1, 1)),
    );
    assert_eq!(source.selection_area_for_event(down(0, 1)), Some(rect(1, 0, 1, 1)));
    assert_eq!(source.selection_area_for_event(down(0, 2)), None);
}

#[test]
fn history_rows_that_do_not_fit_are_left_out() {
    let mut buffer = buffer_with_lines(&["live"]);
    buffer.area.y = 2;
    let rows = history_rows(&["zero", "one", "two"]);
    let source = source(&buffer, &rows);
    assert_eq!(source.area(), rect(0, 0, 4, 3));
    assert_eq!(source.line_text(0, source.area()), Some("one".to_string()));
    assert_eq!(source.line_text(1, source.area()), Some("two".to_string()));
    assert_eq!(source.line_text(2, source.area()), Some("live".to_string()));
    assert_eq!(source.line_text(3, source.area()), None);
}

#[test]
fn history_rows_end_right_above_the_viewport() {
    let mut buffer = buffer_with_lines(&["live"]);
    buffer.area.y = 5;
    let rows = history_rows(&["zero", "one"]);
    let source = source(&buffer, &rows);
    let area = rect(0, 0, 4, 9);
    assert_eq!(source.area(), rect(0, 3, 4, 3));
    assert!(!source.is_readable(2, area));
    assert!(source.is_readable(3, area));
    assert_eq!(source.line_text(3, area), Some("zero".to_string()));
    assert_eq!(source.line_text(4, area), Some("one".to_string()));
    assert_eq!(source.line_text(5, area), Some("live".to_string()));
    assert_eq!(source.line_text(6, area), None);
    assert_eq!(source.line_text(9, area), None);
}

#[test]
fn history_text_is_cut_from_the_left_edge_of_the_area() {
    let mut buffer = buffer_with_lines(&["......"]);
    buffer.area.y = 1;
    let rows = history_rows(&["abcdef"]);
    let preferred = Some(rect(2, 0, 4, 1));
    let mut selection = MouseLineSelection::default();
    selection.handle_mouse_event(
        down(0, 2),
        MouseLineSelectionSource::new_with_preferred_area(&buffer, &rows, preferred),
    );
    assert_eq!(
        selection.handle_mouse_event(
            up(0, 3),
            MouseLineSelectionSource::new_with_preferred_area(&buffer, &rows, preferred),
        ),
        copy("ab")
    );
}

#[test]
fn source_area_stays_on_the_screen() {
    let buffer = Buffer {
        area: ratatui::layout::Rect { x: 65_530, y: 65_530, width: 20, height: 20 },
        content: Vec::new(),
    };
    assert_eq!(source(&buffer, &[]).area(), rect(65_530, 65_530, 5, 5));
}

#[test]
fn trailing_space_is_kept_inside_a_line() {
    let buffer = buffer_with_lines(&["ab  ef"]);
    let mut selection = MouseLineSelection::default();
    selection.handle_mouse_event(down(0, 0), source(&buffer, &[]));
    assert_eq!(selection.handle_mouse_event(up(0, 3), source(&buffer, &[])), copy("ab  "));
}

#[test]
fn trailing_space_is_removed_at_the_right_edge() {
    let buffer = buffer_with_lines(&["ab    ", "      ", "cd    "]);
    let mut selection = MouseLineSelection::default();
    selection.handle_mouse_event(down(0, 1), source(&buffer, &[]));
    assert_eq!(
        selection.handle_mouse_event(up(2, 3), source(&buffer, &[])),
        copy("b\n\ncd  ")
    );
}

#[test]
fn blank_lines_are_not_copied() {
    let buffer = buffer_with_lines(&["ab    ", "      "]);
    let mut selection = MouseLineSelection::default();
    selection.handle_mouse_event(down(0, 3), source(&buffer, &[]));
    assert_eq!(
        selection.handle_mouse_event(up(1, 2), source(&buffer, &[])),
        MouseLineSelectionOutcome::Redraw
    );
}

#[test]
fn selection_of_rows_that_are_gone_is_not_copied() {
    let tall = buffer_with_lines(&["alpha", "beta"]);
    let short = buffer_with_lines(&["alpha"]);
    let mut selection = MouseLineSelection::default();
    selection.handle_mouse_event(down(0, 0), source(&tall, &[]));
    assert_eq!(
        selection.handle_mouse_event(up(1, 3), source(&short, &[])),
        MouseLineSelectionOutcome::Redraw
    );
}

#[test]
fn unreadable_columns_leave_the_selection() {
    let wide = buffer_with_lines(&["alphabet"]);
    let narrow = buffer_with_lines(&["alpha"]);
    let mut selection = MouseLineSelection::default();
    selection.handle_mouse_event(down(0, 0), source(&wide, &[]));
    selection.handle_mouse_event(drag(0, 1), source(&wide, &[]));
    let range = selection.active_range();

    assert!(!selection.can_handle(up(0, 2), &source(&narrow, &[])));
    assert_eq!(selection.try_handle_mouse_event(up(0, 2), source(&narrow, &[])), None);
    assert_eq!(selection.active_range(), range);

    assert!(selection.can_handle(up(0, 2), &source(&wide, &[])));
    assert_eq!(
        selection.try_handle_mouse_event(up(0, 2), source(&wide, &[])),
        Some(copy("alp"))
    );
    assert_eq!(selection.active_range(), None);
}

#[test]
fn rows_above_the_history_are_unreadable() {
    let mut buffer = buffer_with_lines(&["live"]);
    buffer.area.y = 2;
    let rows = history_rows(&["one", "two"]);
    let mut selection = MouseLineSelection::default();
    selection.handle_mouse_event(down(0, 0), source(&buffer, &rows));
    assert_eq!(
        selection.try_handle_mouse_event(up(2, 3), source(&buffer, &rows[1..])),
        None
    );
    assert_eq!(
        selection.try_handle_mouse_event(up(2, 3), source(&buffer, &rows)),
        Some(copy("one\ntwo\nlive"))
    );
}

#[test]
fn a_click_reads_no_text() {
    let wide = buffer_with_lines(&["alphabet"]);
    let narrow = buffer_with_lines(&["alpha"]);
    let mut selection = MouseLineSelection::default();
    selection.handle_mouse_event(down(0, 7), source(&wide, &[]));
    assert!(selection.can_handle(up(0, 7), &source(&narrow, &[])));
    assert_eq!(
        selection.handle_mouse_event(up(0, 7), source(&narrow, &[])),
        MouseLineSelectionOutcome::Redraw
    );
}

#[test]
fn reversed_is_the_modifier_of_the_buffer() {
    assert_eq!(Modifier::REVERSED.bits(), REVERSED);
}

#[test]
fn render_changes_nothing_but_the_modifier() {
    let mut buffer = buffer_with_lines(&["alpha", "beta"]);
    buffer[(1, 0)].set_fg(Color::Red).set_bg(Color::Blue);
    buffer[(1, 0)].modifier = Modifier::BOLD;
    buffer[(2, 0)].set_skip(true);
    let mut expected = buffer.clone();
    for x in 1..4 {
        expected[(x, 0)].modifier.insert(Modifier::REVERSED);
    }

    let mut selection = MouseLineSelection::default();
    selection.handle_mouse_event(down(0, 1), source(&buffer, &[]));
    selection.handle_mouse_event(drag(0, 3), source(&buffer, &[]));
    let area = area_of(&buffer);
    selection.render(area, &mut buffer);
    assert_eq!(buffer, expected);

    selection.render(area, &mut buffer);
    assert_eq!(buffer, expected);
}

#[test]
fn render_keeps_to_the_drawn_area() {
    let mut buffer = buffer_with_lines(&["alpha", "gamma", "delta"]);
    let mut selection = MouseLineSelection::default();
    selection.handle_mouse_event(down(0, 3), source(&buffer, &[]));
    selection.handle_mouse_event(drag(2, 2), source(&buffer, &[]));
    selection.render(rect(1, 1, 2, 9), &mut buffer);
    assert_eq!(row_selection_cells(&buffer), ".....\n.##..\n.##..\n");
}

#[test]
fn render_without_a_selection_changes_nothing() {
    let mut buffer = buffer_with_lines(&["alpha"]);
    let before = buffer.clone();
    MouseLineSelection::default().render(rect(0, 0, 5, 1), &mut buffer);
    assert_eq!(buffer, before);
}

#[test]
fn render_of_an_area_without_size_changes_nothing() {
    let mut buffer = buffer_with_lines(&["alpha"]);
    let before = buffer.clone();
    let mut selection = MouseLineSelection::default();
    selection.handle_mouse_event(down(0, 0), source(&buffer, &[]));
    selection.handle_mouse_event(drag(0, 4), source(&buffer, &[]));
    selection.render(rect(0, 0, 0, 1), &mut buffer);
    selection.render(rect(0, 0, 5, 0), &mut buffer);
    selection.render(rect(0, 1, 5, 1), &mut buffer);
    assert_eq!(buffer, before);
}

#[test]
fn render_does_not_change_what_is_copied() {
    let mut buffer = buffer_with_lines(&["alpha", "beta"]);
    let mut selection = MouseLineSelection::default();
    selection.handle_mouse_event(down(0, 2), source(&buffer, &[]));
    selection.handle_mouse_event(drag(1, 1), source(&buffer, &[]));
    let area = area_of(&buffer);
    selection.render(area, &mut buffer);
    assert_eq!(
        selection.handle_mouse_event(up(1, 1), source(&buffer, &[])),
        copy("pha\nbe")
    );
}

#[test]
fn render_needs_the_selected_cells() {
    let whole = buffer_with_lines(&["alpha", "gamma"]);
    let mut short = whole.clone();
    short.content.truncate(7);
    let before = short.clone();
    let area = area_of(&whole);

    let mut selection = MouseLineSelection::default();
    selection.handle_mouse_event(down(0, 0), source(&whole, &[]));
    selection.handle_mouse_event(drag(1, 3), source(&whole, &[]));
    assert!(selection.can_render(area, &whole));
    assert!(!selection.can_render(area, &short));
    assert!(!selection.try_render(area, &mut short));
    assert_eq!(short, before);

    selection.handle_mouse_event(drag(1, 1), source(&whole, &[]));
    assert!(selection.can_render(area, &short));
    assert!(selection.try_render(area, &mut short));
    assert!(short[(1, 1)].modifier.contains(Modifier::REVERSED));
    assert!(short[(4, 0)].modifier.contains(Modifier::REVERSED));
}

#[test]
fn highlighted_cells_are_the_copied_ones() {
    let mut buffer = buffer_with_lines(&["alpha", "gamma", "delta"]);
    let mut selection = MouseLineSelection::default();
    selection.handle_mouse_event(down(2, 2), source(&buffer, &[]));
    selection.handle_mouse_event(drag(0, 3), source(&buffer, &[]));
    let area = area_of(&buffer);
    selection.render(area, &mut buffer);

    let mut lines = Vec::new();
    for y in 0..3 {
        let mut line = String::new();
        for x in 0..5 {
            if buffer[(x, y)].modifier.contains(Modifier::REVERSED) {
                line.push_str(buffer[(x, y)].symbol());
            }
        }
        lines.push(line);
    }
    assert_eq!(lines.join("\n"), "ha\ngamma\ndel");
    assert_eq!(
        selection.handle_mouse_event(up(0, 3), source(&buffer, &[])),
        copy("ha\ngamma\ndel")
    );
}

#[test]
fn unchanged_needs_no_redraw() {
    let buffer = buffer_with_lines(&["alpha", "gamma"]);
    let area = area_of(&buffer);
    let mut selection = MouseLineSelection::default();
    selection.handle_mouse_event(down(0, 1), source(&buffer, &[]));
    let mut before = buffer.clone();
    selection.render(area, &mut before);
    assert_eq!(
        selection.handle_mouse_event(drag(0, 1), source(&buffer, &[])),
        MouseLineSelectionOutcome::Unchanged
    );
    let mut after = buffer.clone();
    selection.render(area, &mut after);
    assert_eq!(before, after);
}

#[test]
fn only_the_last_drag_counts() {
    let buffer = buffer_with_lines(&["alpha", "gamma"]);
    let mut straight = MouseLineSelection::default();
    straight.handle_mouse_event(down(0, 1), source(&buffer, &[]));
    straight.handle_mouse_event(drag(1, 2), source(&buffer, &[]));
    let mut detour = MouseLineSelection::default();
    detour.handle_mouse_event(down(0, 1), source(&buffer, &[]));
    detour.handle_mouse_event(drag(0, 4), source(&buffer, &[]));
    detour.handle_mouse_event(drag(1, 2), source(&buffer, &[]));
    assert_eq!(straight.active_range(), detour.active_range());
}

#[test]
fn render_of_selected_history_leaves_the_viewport() {
    let mut buffer = buffer_with_lines(&["live"]);
    buffer.area.y = 1;
    buffer.content.push(Cell::new("x"));
    let before = buffer.clone();
    let rows = history_rows(&["past"]);
    let mut selection = MouseLineSelection::default();
    selection.handle_mouse_event(down(0, 0), source(&buffer, &rows));
    selection.handle_mouse_event(drag(0, 3), source(&buffer, &rows));
    selection.render(rect(0, 0, 4, 2), &mut buffer);
    assert_eq!(buffer, before);
}
