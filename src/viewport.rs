//! Offset arithmetic over a window of `height` rows on a sequence of `total`
//! elements. These operations are the only place where boundary behaviour is
//! decided.
use vstd::prelude::*;

verus! {

/// The largest legal offset: `0` when everything fits, else `total - height`.
pub open spec fn max_offset_spec(total: int, height: int) -> int {
    if total <= height {
        0
    } else {
        total - height
    }
}

/// An offset is legal when it lies in `0 ..= max_offset_spec(total, height)`.
pub open spec fn valid_offset(offset: int, total: int, height: int) -> bool {
    &&& 0 <= offset
    &&& offset <= max_offset_spec(total, height)
}

/// Clamping: `0` when everything fits, else `offset` capped at `total - height`.
pub open spec fn clamp_spec(offset: int, total: int, height: int) -> int {
    if total <= height {
        0
    } else if offset < 0 {
        0
    } else if offset < total - height {
        offset
    } else {
        total - height
    }
}

/// Moving by `delta` rows and clamping the result.
pub open spec fn scroll_spec(offset: int, total: int, height: int, delta: int) -> int {
    clamp_spec(offset + delta, total, height)
}

/// Returns the clamped offset.
pub fn clamp_offset(offset: usize, total: usize, height: usize) -> (r: usize)
    ensures
        r == clamp_spec(offset as int, total as int, height as int),
        valid_offset(r as int, total as int, height as int),
{
    if total <= height {
        0
    } else if offset < total - height {
        offset
    } else {
        total - height
    }
}

/// Moves the window `by` rows towards the end, never past the last page.
pub fn scroll_down(offset: usize, total: usize, height: usize, by: usize) -> (r: usize)
    ensures
        r == scroll_spec(offset as int, total as int, height as int, by as int),
        valid_offset(r as int, total as int, height as int),
{
    if total <= height {
        0
    } else if offset >= total - height || by >= total - height - offset {
        total - height
    } else {
        offset + by
    }
}

/// Moves the window `by` rows towards the start, never before row 0.
pub fn scroll_up(offset: usize, total: usize, height: usize, by: usize) -> (r: usize)
    ensures
        r == scroll_spec(offset as int, total as int, height as int, -(by as int)),
        valid_offset(r as int, total as int, height as int),
{
    if offset <= by {
        clamp_offset(0, total, height)
    } else {
        clamp_offset(offset - by, total, height)
    }
}

/// The offset of the first page.
pub fn jump_top() -> (r: usize)
    ensures
        r == 0,
{
    0
}

/// The offset of the last page.
pub fn jump_bottom(total: usize, height: usize) -> (r: usize)
    ensures
        r == max_offset_spec(total as int, height as int),
        valid_offset(r as int, total as int, height as int),
{
    if total <= height {
        0
    } else {
        total - height
    }
}

/// Clamping twice gives what clamping once gives.
pub proof fn lemma_clamp_idempotent(offset: int, total: int, height: int)
    ensures
        clamp_spec(clamp_spec(offset, total, height), total, height) == clamp_spec(
            offset,
            total,
            height,
        ),
{
}

/// A clamped offset is always legal, and clamping leaves a legal offset alone.
pub proof fn lemma_clamp_valid(offset: int, total: int, height: int)
    ensures
        valid_offset(clamp_spec(offset, total, height), total, height),
        valid_offset(offset, total, height) ==> clamp_spec(offset, total, height) == offset,
{
}

} // verus!
