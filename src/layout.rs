//! Where the date line stands relative to the glyph block.
use vstd::prelude::*;

verus! {

/// Rows from the top of the glyph block down to the date line.
pub const DATE_ROW_OFFSET: i32 = 6;

/// Rows between the top of the terminal and a glyph block that is not
/// centered.
pub const TOP_MARGIN: i32 = 1;

/// Horizontal shift of the date under a block of `num_width` cells, for a
/// date of `text_width` cells: half the block less half the text, one cell
/// further left when seconds are shown.
pub open spec fn date_shift(num_width: int, text_width: int, show_seconds: bool) -> int {
    (num_width / 2 - (if show_seconds { 1int } else { 0int })) - text_width / 2
}

/// The offset (columns, rows) of the date line from the top-left corner of
/// the glyph block, chosen so that the date looks centered under it.
pub fn date_offset(num_width: u16, text_width: u16, show_seconds: bool) -> (r: (i32, i32))
    ensures
        r.0 == date_shift(num_width as int, text_width as int, show_seconds),
        r.1 == DATE_ROW_OFFSET,
{
    let seconds_shift: i32 = if show_seconds { 1 } else { 0 };
    ((num_width as i32 / 2 - seconds_shift) - text_width as i32 / 2, DATE_ROW_OFFSET)
}

} // verus!
