//! The pager: a scrollable view of one log's filtered lines.
use vstd::prelude::*;

use crate::viewport::{
    jump_bottom, jump_top, max_offset_spec, scroll_down, scroll_spec, scroll_up,
    valid_offset,
};

verus! {

/// Rows reserved above the content for the title and its rule.
pub const HEADER_HEIGHT: usize = 3;

/// Rows reserved below the content for the key legend.
pub const FOOTER_HEIGHT: usize = 2;

/// Rows of content for a terminal of `rows` rows: what remains after the
/// header, the footer and one row of margin, or none.
pub open spec fn content_height_spec(rows: int) -> int {
    if rows > (HEADER_HEIGHT + FOOTER_HEIGHT + 1) as int {
        rows - (HEADER_HEIGHT + FOOTER_HEIGHT + 1) as int
    } else {
        0
    }
}

pub fn content_height(rows: usize) -> (r: usize)
    ensures
        r == content_height_spec(rows as int),
{
    if rows > HEADER_HEIGHT + FOOTER_HEIGHT + 1 {
        rows - (HEADER_HEIGHT + FOOTER_HEIGHT + 1)
    } else {
        0
    }
}

/// What a key means to the pager.
#[derive(Clone, Copy, Debug, PartialEq, Eq, Structural)]
pub enum PagerAction {
    ScrollDown,
    ScrollUp,
    PageDown,
    PageUp,
    Top,
    Bottom,
    Select,
    Quit,
    Noop,
}

/// The pager's key map: `j`/`k` scroll a line, `d` or space and `b` scroll a
/// page, `g`/`G` jump to the top and bottom, `s` or Return leaves for the file
/// selector, `q` quits. Every other key does nothing.
pub open spec fn pager_action_spec(key: char) -> PagerAction {
    if key == 'j' {
        PagerAction::ScrollDown
    } else if key == 'k' {
        PagerAction::ScrollUp
    } else if key == 'd' || key == ' ' {
        PagerAction::PageDown
    } else if key == 'b' {
        PagerAction::PageUp
    } else if key == 'g' {
        PagerAction::Top
    } else if key == 'G' {
        PagerAction::Bottom
    } else if key == 's' || key == '\n' {
        PagerAction::Select
    } else if key == 'q' {
        PagerAction::Quit
    } else {
        PagerAction::Noop
    }
}

pub fn pager_action(key: char) -> (r: PagerAction)
    ensures
        r == pager_action_spec(key),
{
    if key == 'j' {
        PagerAction::ScrollDown
    } else if key == 'k' {
        PagerAction::ScrollUp
    } else if key == 'd' || key == ' ' {
        PagerAction::PageDown
    } else if key == 'b' {
        PagerAction::PageUp
    } else if key == 'g' {
        PagerAction::Top
    } else if key == 'G' {
        PagerAction::Bottom
    } else if key == 's' || key == '\n' {
        PagerAction::Select
    } else if key == 'q' {
        PagerAction::Quit
    } else {
        PagerAction::Noop
    }
}

/// What the caller does after the pager handled a key.
#[derive(Clone, Copy, Debug, PartialEq, Eq, Structural)]
pub enum PagerOutcome {
    /// Keep paging (and repaint if the offset moved).
    Continue,
    /// Leave the pager for the file selector.
    SelectAnother,
    /// End the session.
    Quit,
}

/// The offset after an action.
pub open spec fn pager_step(offset: int, total: int, height: int, action: PagerAction) -> int {
    match action {
        PagerAction::ScrollDown => scroll_spec(offset, total, height, 1),
        PagerAction::ScrollUp => scroll_spec(offset, total, height, -1),
        PagerAction::PageDown => scroll_spec(offset, total, height, height),
        PagerAction::PageUp => scroll_spec(offset, total, height, -height),
        PagerAction::Top => 0,
        PagerAction::Bottom => max_offset_spec(total, height),
        _ => offset,
    }
}

pub open spec fn pager_outcome_spec(action: PagerAction) -> PagerOutcome {
    match action {
        PagerAction::Select => PagerOutcome::SelectAnother,
        PagerAction::Quit => PagerOutcome::Quit,
        _ => PagerOutcome::Continue,
    }
}

/// The offset after the keys of `keys`, in order, from `offset`.
pub open spec fn pager_run(offset: int, total: int, height: int, keys: Seq<char>) -> int
    decreases keys.len(),
{
    if keys.len() == 0 {
        offset
    } else {
        pager_run(
            pager_step(offset, total, height, pager_action_spec(keys[0])),
            total,
            height,
            keys.drop_first(),
        )
    }
}

/// The key `key`, pressed `n` times.
pub open spec fn repeated(key: char, n: nat) -> Seq<char> {
    Seq::new(n, |i: int| key)
}

/// A window of `height` rows over `total` lines, starting at line `offset`.
#[derive(Clone, Copy, Debug)]
pub struct Pager {
    pub offset: usize,
    pub total: usize,
    pub height: usize,
}

impl Pager {
    pub open spec fn wf(&self) -> bool {
        valid_offset(self.offset as int, self.total as int, self.height as int)
    }

    /// A pager at the top of `total` lines, showing `height` of them at a time.
    pub fn new(total: usize, height: usize) -> (r: Pager)
        ensures
            r.offset == 0,
            r.total == total,
            r.height == height,
            r.wf(),
    {
        Pager { offset: jump_top(), total, height }
    }

    /// Applies an action to the offset and says what the caller does next.
    pub fn apply(&mut self, action: PagerAction) -> (r: PagerOutcome)
        ensures
            final(self).offset == pager_step(
                old(self).offset as int,
                old(self).total as int,
                old(self).height as int,
                action,
            ),
            final(self).total == old(self).total,
            final(self).height == old(self).height,
            r == pager_outcome_spec(action),
            old(self).wf() ==> final(self).wf(),
    {
        match action {
            PagerAction::ScrollDown => {
                self.offset = scroll_down(self.offset, self.total, self.height, 1);
                PagerOutcome::Continue
            },
            PagerAction::ScrollUp => {
                self.offset = scroll_up(self.offset, self.total, self.height, 1);
                PagerOutcome::Continue
            },
            PagerAction::PageDown => {
                self.offset = scroll_down(self.offset, self.total, self.height, self.height);
                PagerOutcome::Continue
            },
            PagerAction::PageUp => {
                self.offset = scroll_up(self.offset, self.total, self.height, self.height);
                PagerOutcome::Continue
            },
            PagerAction::Top => {
                self.offset = jump_top();
                PagerOutcome::Continue
            },
            PagerAction::Bottom => {
                self.offset = jump_bottom(self.total, self.height);
                PagerOutcome::Continue
            },
            PagerAction::Select => PagerOutcome::SelectAnother,
            PagerAction::Quit => PagerOutcome::Quit,
            PagerAction::Noop => PagerOutcome::Continue,
        }
    }

    /// Handles one key press.
    pub fn handle_key(&mut self, key: char) -> (r: PagerOutcome)
        ensures
            final(self).offset == pager_step(
                old(self).offset as int,
                old(self).total as int,
                old(self).height as int,
                pager_action_spec(key),
            ),
            final(self).total == old(self).total,
            final(self).height == old(self).height,
            r == pager_outcome_spec(pager_action_spec(key)),
            old(self).wf() ==> final(self).wf(),
    {
        let action = pager_action(key);
        self.apply(action)
    }

    /// The lines on screen: `offset .. min(offset + height, total)`, both ends
    /// capped at `total`.
    pub fn visible_range(&self) -> (r: (usize, usize))
        ensures
            r.0 == if self.offset <= self.total {
                self.offset
            } else {
                self.total
            },
            r.1 == if self.offset + self.height <= self.total {
                self.offset + self.height
            } else {
                self.total as int
            },
            r.0 <= r.1 <= self.total,
            self.wf() ==> r.0 == self.offset,
    {
        if self.offset > self.total {
            (self.total, self.total)
        } else if self.height <= self.total - self.offset {
            (self.offset, self.offset + self.height)
        } else {
            (self.offset, self.total)
        }
    }
}

/// Whatever keys are pressed, a legal offset stays legal.
pub proof fn lemma_pager_run_valid(offset: int, total: int, height: int, keys: Seq<char>)
    requires
        0 <= total,
        0 <= height,
        valid_offset(offset, total, height),
    ensures
        valid_offset(pager_run(offset, total, height, keys), total, height),
    decreases keys.len(),
{
    if keys.len() > 0 {
        let next = pager_step(offset, total, height, pager_action_spec(keys[0]));
        lemma_pager_run_valid(next, total, height, keys.drop_first());
    }
}

/// Pressing `j` `n` times from a legal offset moves down one line per press
/// until the last page, and stays there.
pub proof fn lemma_scroll_down_run(offset: int, total: int, height: int, n: nat)
    requires
        0 <= height,
        valid_offset(offset, total, height),
    ensures
        pager_run(offset, total, height, repeated('j', n)) == if offset + n
            <= max_offset_spec(total, height) {
            offset + n
        } else {
            max_offset_spec(total, height)
        },
    decreases n,
{
    if n > 0 {
        assert(repeated('j', n).drop_first() =~= repeated('j', (n - 1) as nat));
        let next = pager_step(offset, total, height, PagerAction::ScrollDown);
        lemma_scroll_down_run(next, total, height, (n - 1) as nat);
    }
}

/// From the top of `total` lines seen `height` at a time, with `height < total`,
/// `n` presses of `j` leave the offset at `min(n, total - height)`: the last page
/// is reached after `total - height` presses and never passed.
pub proof fn lemma_scroll_down_from_top(total: int, height: int, n: nat)
    requires
        0 <= height < total,
    ensures
        pager_run(0, total, height, repeated('j', n)) == if n <= total - height {
            n as int
        } else {
            total - height
        },
        pager_run(0, total, height, repeated('j', n)) <= total - height,
        n >= total - height ==> pager_run(0, total, height, repeated('j', n)) == total - height,
{
    lemma_scroll_down_run(0, total, height, n);
}

/// After a jump to the top, any number of `k` presses leaves the offset at 0.
pub proof fn lemma_top_then_up(total: int, height: int, n: nat)
    requires
        0 <= height,
    ensures
        pager_run(
            pager_step(0, total, height, PagerAction::Top),
            total,
            height,
            repeated('k', n),
        ) == 0,
    decreases n,
{
    if n > 0 {
        assert(repeated('k', n).drop_first() =~= repeated('k', (n - 1) as nat));
        lemma_top_then_up(total, height, (n - 1) as nat);
    }
}

/// After a jump to the bottom, any number of `j` presses leaves the offset on
/// the last page.
pub proof fn lemma_bottom_then_down(total: int, height: int, n: nat)
    requires
        0 <= height,
    ensures
        pager_run(
            pager_step(0, total, height, PagerAction::Bottom),
            total,
            height,
            repeated('j', n),
        ) == max_offset_spec(total, height),
{
    lemma_scroll_down_run(max_offset_spec(total, height), total, height, n);
}

} // verus!
