//! The text of rendered rows. Colours are added by the terminal layer.
use vstd::prelude::*;

use crate::pager::{FOOTER_HEIGHT, HEADER_HEIGHT};
use crate::text::{chars_of, decimal, pad_left, push_decimal, push_range, push_spaces};

verus! {

/// Columns of a row taken by its number, separator and margins.
pub const ROW_MARGIN: usize = 14;

/// Rows that the file preview leaves free under the selector's list.
pub const PREVIEW_RESERVE: usize = 16;

/// The line number of a row: `index` in decimal, right-aligned in four columns.
pub fn row_label(index: usize) -> (r: String)
    ensures
        r@ == pad_left(decimal(index as nat), 4),
{
    let mut digits = String::new();
    push_decimal(&mut digits, index);
    let d = chars_of(digits.as_str());
    let mut r = String::new();
    if d.len() < 4 {
        push_spaces(&mut r, 4 - d.len());
    }
    push_range(&mut r, &d, 0, d.len());
    proof {
        assert(d@.subrange(0, d@.len() as int) =~= d@);
        assert(r@ =~= pad_left(decimal(index as nat), 4));
    }
    r
}

/// Columns left for a line's text in a terminal `cols` wide.
pub fn text_width(cols: usize) -> (r: usize)
    ensures
        r == if cols > ROW_MARGIN {
            cols - ROW_MARGIN
        } else {
            0
        },
{
    if cols > ROW_MARGIN {
        cols - ROW_MARGIN
    } else {
        0
    }
}

/// A line cut to at most `width` characters; the line itself is not changed.
pub fn row_text(line: &str, width: usize) -> (r: String)
    ensures
        r@ == if line@.len() > width {
            line@.take(width as int)
        } else {
            line@
        },
{
    let c = chars_of(line);
    let end = if c.len() > width {
        width
    } else {
        c.len()
    };
    let mut r = String::new();
    push_range(&mut r, &c, 0, end);
    proof {
        assert(r@ =~= if line@.len() > width {
            line@.take(width as int)
        } else {
            line@
        });
    }
    r
}

/// Rows of file preview under the selector in a terminal of `rows` rows.
pub fn preview_height(rows: usize) -> (r: usize)
    ensures
        r == if rows > HEADER_HEIGHT + FOOTER_HEIGHT + PREVIEW_RESERVE {
            rows - (HEADER_HEIGHT + FOOTER_HEIGHT + PREVIEW_RESERVE)
        } else {
            0
        },
{
    if rows > HEADER_HEIGHT + FOOTER_HEIGHT + PREVIEW_RESERVE {
        rows - (HEADER_HEIGHT + FOOTER_HEIGHT + PREVIEW_RESERVE)
    } else {
        0
    }
}

/// How a preview of `height` rows shows a file of `total` lines: the number of
/// lines from its head, then the number of blank rows under them.
pub fn preview_rows(total: usize, height: usize) -> (r: (usize, usize))
    ensures
        r.0 == if total < height {
            total
        } else {
            height
        },
        r.0 + r.1 == height,
{
    if total < height {
        (total, height - total)
    } else {
        (height, 0)
    }
}

} // verus!
