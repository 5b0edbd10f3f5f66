//! What cutting, measuring and joining text come to, by how their results relate.

use crate::source::{row_texts, HistoryRow};
use crate::text::{
    contents, display_width, display_widths, joined, start_column, table_width, text_in_columns,
};
use vstd::prelude::*;

verus! {

/// Printable ASCII characters take one column, control characters none, and all others what the width
/// tables hold for them.
pub proof fn law_columns_of_a_character(c: char)
    ensures
        0x20 <= c as u32 <= 0x7E ==> display_width(c) == 1,
        (c as u32) < 0x20 || 0x7F <= c as u32 <= 0x9F ==> display_width(c) == 0,
        0xA0 <= c as u32 ==> display_width(c) == table_width(c),
{
}

/// A text is measured character by character.
pub proof fn law_widths_of_a_text(text: Seq<char>)
    ensures
        display_widths(text).len() == text.len(),
        forall|i: int|
            0 <= i < text.len() ==> #[trigger] display_widths(text)[i] == display_width(text[i]),
{
}

/// The first character starts at the first column, and each other one where the one before it ends.
pub proof fn law_characters_stand_side_by_side(widths: Seq<usize>, index: int)
    requires
        0 <= index < widths.len(),
    ensures
        start_column(widths, 0) == 0,
        start_column(widths, index + 1) - start_column(widths, index) == widths[index],
{
}

/// Of one character, all is kept if it lies in the columns in part, and nothing otherwise. Of no
/// character, nothing is kept.
pub proof fn law_cut_of_one_character(c: char, width: usize, start: int, end: int)
    ensures
        text_in_columns(seq![c], seq![width], start, end) == if 0 < end && start < width {
            seq![c]
        } else {
            Seq::<char>::empty()
        },
        text_in_columns(Seq::empty(), Seq::empty(), start, end) == Seq::<char>::empty(),
{
    reveal_with_fuel(text_in_columns, 2);
    reveal_with_fuel(start_column, 2);
}

/// A character starts at the same column if the characters after it are left out.
proof fn lemma_start_in_front(widths: Seq<usize>, k: int, index: int)
    requires
        0 <= index <= k <= widths.len(),
    ensures
        start_column(widths.take(k), index) == start_column(widths, index),
    decreases index,
{
    if index > 0 {
        lemma_start_in_front(widths, k, index - 1);
    }
}

/// A character starts earlier, by the columns of those before, if these are left out.
proof fn lemma_start_behind(widths: Seq<usize>, k: int, index: int)
    requires
        0 <= k,
        0 <= index <= widths.len() - k,
    ensures
        start_column(widths.skip(k), index) == start_column(widths, k + index) - start_column(
            widths,
            k,
        ),
    decreases index,
{
    if index > 0 {
        lemma_start_behind(widths, k, index - 1);
    }
}

/// What is kept of a text depends on the widths of its own characters alone.
proof fn lemma_cut_needs_own_widths(
    text: Seq<char>,
    widths: Seq<usize>,
    k: int,
    start: int,
    end: int,
)
    requires
        text.len() <= k <= widths.len(),
    ensures
        text_in_columns(text, widths.take(k), start, end) == text_in_columns(
            text,
            widths,
            start,
            end,
        ),
    decreases text.len(),
{
    if text.len() > 0 {
        lemma_cut_needs_own_widths(text.drop_last(), widths, k, start, end);
        lemma_start_in_front(widths, k, text.len() - 1);
        lemma_start_in_front(widths, k, text.len() as int);
    }
}

/// Cutting a text in two parts, with more widths than characters.
proof fn lemma_cut_in_parts(text: Seq<char>, widths: Seq<usize>, k: int, start: int, end: int)
    requires
        0 <= k <= text.len() <= widths.len(),
    ensures
        text_in_columns(text, widths, start, end) == text_in_columns(
            text.take(k),
            widths,
            start,
            end,
        ) + text_in_columns(
            text.skip(k),
            widths.skip(k),
            start - start_column(widths, k),
            end - start_column(widths, k),
        ),
    decreases text.len(),
{
    if k == text.len() {
        assert(text.take(k) =~= text);
    } else {
        let last = text.len() - 1;
        lemma_cut_in_parts(text.drop_last(), widths, k, start, end);
        assert(text.drop_last().take(k) =~= text.take(k));
        assert(text.drop_last().skip(k) =~= text.skip(k).drop_last());
        lemma_start_behind(widths, k, last - k);
        lemma_start_behind(widths, k, last - k + 1);
    }
}

/// A text can be cut in parts: what is kept of it is what is kept of its beginning, then what is kept
/// of the rest, with the columns counted from where the rest starts.
pub proof fn law_cut_in_parts(
    text: Seq<char>,
    widths: Seq<usize>,
    k: int,
    start: int,
    end: int,
)
    requires
        0 <= k <= text.len() == widths.len(),
    ensures
        text_in_columns(text, widths, start, end) == text_in_columns(
            text.take(k),
            widths.take(k),
            start,
            end,
        ) + text_in_columns(
            text.skip(k),
            widths.skip(k),
            start - start_column(widths, k),
            end - start_column(widths, k),
        ),
{
    lemma_cut_in_parts(text, widths, k, start, end);
    lemma_cut_needs_own_widths(text.take(k), widths, k, start, end);
}

/// The lines of two groups are joined as each group is, with a line feed between the two. One line is
/// its own text, and no line is no text.
pub proof fn law_joining_groups_of_lines(a: Seq<Seq<char>>, b: Seq<Seq<char>>, line: Seq<char>)
    requires
        a.len() > 0,
        b.len() > 0,
    ensures
        joined(a + b) == joined(a) + seq!['\n'] + joined(b),
        joined(seq![line]) == line,
        joined(Seq::empty()) == Seq::<char>::empty(),
    decreases b.len(),
{
    assert((a + b).drop_last() =~= a + b.drop_last());
    if b.len() > 1 {
        law_joining_groups_of_lines(a, b.drop_last(), line);
    }
}

/// Strings and history rows hold their own texts, in their own order.
pub proof fn law_texts_of_strings_and_rows(lines: Seq<String>, rows: Seq<HistoryRow>)
    ensures
        contents(lines).len() == lines.len(),
        forall|i: int| 0 <= i < lines.len() ==> #[trigger] contents(lines)[i] == lines[i]@,
        row_texts(rows).len() == rows.len(),
        forall|i: int|
            0 <= i < rows.len() ==> #[trigger] row_texts(rows)[i] == rows[i].plain_text@,
{
}

} // verus!
