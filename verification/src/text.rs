//! Text measured in display columns, white space, and lines joined into one text.

use unicode_width::UnicodeWidthChar;
use vstd::prelude::*;

verus! {

/// The result of `unicode_width`'s `UnicodeWidthChar::width` on a character from U+00A0 on: what its
/// tables hold for that character.
pub uninterp spec fn table_width(c: char) -> usize;

/// `String::push` of the standard library, which appends one character.
pub assume_specification[ String::push ](s: &mut String, c: char)
    ensures
        final(s)@ == old(s)@.push(c),
;

/// `unicode_width`'s `UnicodeWidthChar::width`, the number of columns that a character takes on the
/// screen.
///
/// The printable ASCII characters take one column. The control characters, up to U+001F and from
/// U+007F to U+009F, have no width. Every other character has the one that the tables of the crate
/// hold for it.
#[verifier::external_body]
fn unicode_width(c: char) -> (r: Option<usize>)
    ensures
        ' ' <= c <= '~' ==> r == Some(1usize),
        c < ' ' || '\u{7F}' <= c <= '\u{9F}' ==> r is None,
        c >= '\u{A0}' ==> r == Some(table_width(c)),
{
    UnicodeWidthChar::width(c)
}

/// The number of columns that a character takes on the screen; a control character takes none.
pub open spec fn display_width(c: char) -> usize {
    if c >= '\u{A0}' {
        table_width(c)
    } else if ' ' <= c <= '~' {
        1
    } else {
        0
    }
}

/// The number of columns that each character of a text takes.
pub open spec fn display_widths(text: Seq<char>) -> Seq<usize> {
    Seq::new(text.len(), |i: int| display_width(text[i]))
}

/// The column at which the character at an index starts, where `widths` holds the columns that each
/// character takes.
pub open spec fn start_column(widths: Seq<usize>, index: int) -> int
    decreases index,
{
    if index <= 0 {
        0
    } else {
        start_column(widths, index - 1) + widths[index - 1]
    }
}

/// Whether the character at an index starts before the column `end` and reaches past the column
/// `start`.
pub open spec fn in_columns(widths: Seq<usize>, index: int, start: int, end: int) -> bool {
    start_column(widths, index) < end && start < start_column(widths, index + 1)
}

/// The characters of a text that lie in the columns from `start` to before `end`, if only in part.
pub open spec fn text_in_columns(
    text: Seq<char>,
    widths: Seq<usize>,
    start: int,
    end: int,
) -> Seq<char>
    decreases text.len(),
{
    if text.len() == 0 {
        Seq::empty()
    } else {
        let earlier = text_in_columns(text.drop_last(), widths, start, end);
        if in_columns(widths, text.len() - 1, start, end) {
            earlier.push(text.last())
        } else {
            earlier
        }
    }
}

/// Whether a character has the Unicode property White_Space.
pub open spec fn white_space(c: char) -> bool {
    ||| '\u{9}' <= c <= '\u{D}'
    ||| c == ' '
    ||| c == '\u{85}'
    ||| c == '\u{A0}'
    ||| c == '\u{1680}'
    ||| '\u{2000}' <= c <= '\u{200A}'
    ||| c == '\u{2028}'
    ||| c == '\u{2029}'
    ||| c == '\u{202F}'
    ||| c == '\u{205F}'
    ||| c == '\u{3000}'
}

/// Whether a text holds nothing but white space.
pub open spec fn blank(text: Seq<char>) -> bool {
    forall|i: int| 0 <= i < text.len() ==> white_space(#[trigger] text[i])
}

/// A text without the white space at its end.
pub open spec fn without_trailing_space(text: Seq<char>) -> Seq<char>
    decreases text.len(),
{
    if text.len() > 0 && white_space(text.last()) {
        without_trailing_space(text.drop_last())
    } else {
        text
    }
}

/// Lines made one text, with a line feed between each and the next.
pub open spec fn joined(lines: Seq<Seq<char>>) -> Seq<char>
    decreases lines.len(),
{
    if lines.len() == 0 {
        Seq::empty()
    } else if lines.len() == 1 {
        lines[0]
    } else {
        joined(lines.drop_last()).push('\n') + lines.last()
    }
}

/// What strings hold.
pub open spec fn contents(lines: Seq<String>) -> Seq<Seq<char>> {
    lines.map_values(|line: String| line@)
}

/// A later character starts no earlier.
proof fn lemma_start_column_grows(widths: Seq<usize>, i: int, j: int)
    requires
        0 <= i <= j,
    ensures
        start_column(widths, i) <= start_column(widths, j),
    decreases j,
{
    if i < j {
        lemma_start_column_grows(widths, i, j - 1);
    }
}

/// From a character on that starts at or after `end`, none lies in the columns.
proof fn lemma_nothing_past_end(
    text: Seq<char>,
    widths: Seq<usize>,
    start: int,
    end: int,
    i: int,
    n: int,
)
    requires
        0 <= i <= n <= text.len(),
        start_column(widths, i) >= end,
    ensures
        text_in_columns(text.take(n), widths, start, end) == text_in_columns(
            text.take(i),
            widths,
            start,
            end,
        ),
    decreases n,
{
    if i < n {
        lemma_nothing_past_end(text, widths, start, end, i, n - 1);
        lemma_start_column_grows(widths, i, n - 1);
        assert(text.take(n).drop_last() =~= text.take(n - 1));
    }
}

/// The characters of a text.
fn chars_of(text: &str) -> (r: Vec<char>)
    ensures
        r@ == text@,
{
    let mut chars: Vec<char> = Vec::new();
    for c in it: text.chars()
        invariant
            chars@ == it.seq().take(it.index() as int),
            it.seq() == text@,
    {
        chars.push(c);
    }
    chars
}

/// The characters of `text` that lie in the columns from `start` to before `end`, where `widths`
/// holds the columns that each character takes.
pub fn slice_measured_columns(text: &[char], widths: &[usize], start: usize, end: usize) -> (r:
    String)
    requires
        text@.len() == widths@.len(),
    ensures
        r@ == text_in_columns(text@, widths@, start as int, end as int),
{
    let mut selected = String::new();
    let mut column: usize = 0;
    let mut i: usize = 0;
    while i < text.len()
        invariant
            i <= text@.len() == widths@.len(),
            column == start_column(widths@, i as int),
            selected@ == text_in_columns(text@.take(i as int), widths@, start as int, end as int),
        decreases text@.len() - i,
    {
        proof {
            assert(text@.take(i + 1).drop_last() =~= text@.take(i as int));
            assert(text@.take(text@.len() as int) =~= text@);
        }
        if column >= end {
            proof {
                lemma_nothing_past_end(
                    text@,
                    widths@,
                    start as int,
                    end as int,
                    i as int,
                    text@.len() as int,
                );
            }
            return selected;
        }
        match column.checked_add(widths[i]) {
            Some(next_column) => {
                if next_column > start {
                    selected.push(text[i]);
                }
                column = next_column;
            },
            None => {
                // The character reaches past every column that a `usize` counts.
                selected.push(text[i]);
                proof {
                    lemma_nothing_past_end(
                        text@,
                        widths@,
                        start as int,
                        end as int,
                        i + 1,
                        text@.len() as int,
                    );
                }
                return selected;
            },
        }
        i = i + 1;
    }
    assert(text@.take(i as int) =~= text@);
    selected
}

/// The number of columns that each character takes.
fn measure(text: &[char]) -> (r: Vec<usize>)
    ensures
        r@ == display_widths(text@),
{
    let mut widths: Vec<usize> = Vec::new();
    let mut i: usize = 0;
    while i < text.len()
        invariant
            i <= text@.len(),
            widths@ == display_widths(text@).take(i as int),
        decreases text@.len() - i,
    {
        widths.push(unicode_width(text[i]).unwrap_or(0));
        i = i + 1;
    }
    widths
}

/// The characters of a text that lie in the columns from `start` to before `end`.
pub fn slice_text_columns(text: &str, start: usize, end: usize) -> (r: String)
    ensures
        r@ == text_in_columns(text@, display_widths(text@), start as int, end as int),
{
    let chars = chars_of(text);
    let widths = measure(chars.as_slice());
    slice_measured_columns(chars.as_slice(), widths.as_slice(), start, end)
}

/// Whether a character has the Unicode property White_Space.
pub fn is_white_space(c: char) -> (r: bool)
    ensures
        r == white_space(c),
{
    ('\u{9}' <= c && c <= '\u{D}') || c == ' ' || c == '\u{85}' || c == '\u{A0}' || c == '\u{1680}'
        || ('\u{2000}' <= c && c <= '\u{200A}') || c == '\u{2028}' || c == '\u{2029}' || c
        == '\u{202F}' || c == '\u{205F}' || c == '\u{3000}'
}

/// A text without the white space at its end.
pub fn trim_end(text: &str) -> (r: String)
    ensures
        r@ == without_trailing_space(text@),
{
    let chars = chars_of(text);
    let mut n: usize = chars.len();
    assert(text@.take(n as int) =~= text@);
    while n > 0 && is_white_space(chars[n - 1])
        invariant
            chars@ == text@,
            n <= chars@.len(),
            without_trailing_space(text@.take(n as int)) == without_trailing_space(text@),
        decreases n,
    {
        assert(text@.take(n as int).drop_last() =~= text@.take(n - 1));
        n = n - 1;
    }
    let mut trimmed = String::new();
    let mut i: usize = 0;
    while i < n
        invariant
            chars@ == text@,
            i <= n <= chars@.len(),
            trimmed@ == text@.take(i as int),
        decreases n - i,
    {
        trimmed.push(chars[i]);
        i = i + 1;
    }
    trimmed
}

/// Whether a text holds nothing but white space.
pub fn is_blank(text: &str) -> (r: bool)
    ensures
        r == blank(text@),
{
    let chars = chars_of(text);
    let mut i: usize = 0;
    while i < chars.len()
        invariant
            chars@ == text@,
            i <= chars@.len(),
            forall|j: int| 0 <= j < i ==> white_space(#[trigger] text@[j]),
        decreases chars@.len() - i,
    {
        if !is_white_space(chars[i]) {
            return false;
        }
        i = i + 1;
    }
    true
}

/// Lines made one text, with a line feed between each and the next.
pub fn join_lines(lines: &[String]) -> (r: String)
    ensures
        r@ == joined(contents(lines@)),
{
    let mut text = String::new();
    let mut i: usize = 0;
    while i < lines.len()
        invariant
            i <= lines@.len(),
            text@ == joined(contents(lines@.take(i as int))),
        decreases lines@.len() - i,
    {
        proof {
            assert(contents(lines@.take(i + 1)).drop_last() =~= contents(lines@.take(i as int)));
        }
        if i > 0 {
            text.push('\n');
        }
        text.append(lines[i].as_str());
        i = i + 1;
    }
    assert(lines@.take(i as int) =~= lines@);
    text
}

} // verus!
