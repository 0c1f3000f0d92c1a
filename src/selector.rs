//! The file selector: a list of logs, most recent first, with one highlighted
//! row that the caller previews.
use vstd::prelude::*;

verus! {

/// Rows of the file list on screen, when there are that many logs.
pub const LIST_ROWS: usize = 10;

/// What a key means to the selector.
#[derive(Clone, Copy, Debug, PartialEq, Eq, Structural)]
pub enum SelectorAction {
    Down,
    Up,
    Choose,
    Quit,
    Noop,
}

/// The selector's key map: `j`/`k` move the highlight, `s` or Return choose the
/// highlighted log, `q` quits. Every other key does nothing.
pub open spec fn selector_action_spec(key: char) -> SelectorAction {
    if key == 'j' {
        SelectorAction::Down
    } else if key == 'k' {
        SelectorAction::Up
    } else if key == 's' || key == '\n' {
        SelectorAction::Choose
    } else if key == 'q' {
        SelectorAction::Quit
    } else {
        SelectorAction::Noop
    }
}

pub fn selector_action(key: char) -> (r: SelectorAction)
    ensures
        r == selector_action_spec(key),
{
    if key == 'j' {
        SelectorAction::Down
    } else if key == 'k' {
        SelectorAction::Up
    } else if key == 's' || key == '\n' {
        SelectorAction::Choose
    } else if key == 'q' {
        SelectorAction::Quit
    } else {
        SelectorAction::Noop
    }
}

/// What the caller does after the selector handled a key.
#[derive(Clone, Copy, Debug, PartialEq, Eq, Structural)]
pub enum SelectorOutcome {
    /// Keep selecting; repaint the list and the preview.
    Continue,
    /// The entry at this row of the list (most recent first) was chosen.
    Chosen(usize),
    /// End the session.
    Quit,
}

/// The state of the list: the first visible row and the highlighted row of the
/// window, with `limit` rows visible out of `total`.
pub open spec fn selector_wf(offset: int, line: int, limit: int, total: int) -> bool {
    &&& 0 < limit <= total
    &&& 0 <= line < limit
    &&& 0 <= offset
    &&& offset + limit <= total
}

/// `(offset, line)` after an action. Moving down advances the highlight while it
/// can stay in the window and on an entry, else scrolls the list when the
/// highlight is on the last row and entries remain below. Moving up is the
/// mirror image.
pub open spec fn selector_step(
    offset: int,
    line: int,
    limit: int,
    total: int,
    action: SelectorAction,
) -> (int, int) {
    match action {
        SelectorAction::Down => if line + 1 < limit && offset + line + 1 < total {
            (offset, line + 1)
        } else if line + 1 == limit && offset + line + 1 < total {
            (offset + 1, line)
        } else {
            (offset, line)
        },
        SelectorAction::Up => if line > 0 {
            (offset, line - 1)
        } else if offset > 0 {
            (offset - 1, line)
        } else {
            (offset, line)
        },
        _ => (offset, line),
    }
}

pub open spec fn selector_outcome_spec(
    offset: int,
    line: int,
    action: SelectorAction,
) -> SelectorOutcome {
    match action {
        SelectorAction::Choose => SelectorOutcome::Chosen((offset + line) as usize),
        SelectorAction::Quit => SelectorOutcome::Quit,
        _ => SelectorOutcome::Continue,
    }
}

/// `(offset, line)` after the keys of `keys`, in order.
pub open spec fn selector_run(
    offset: int,
    line: int,
    limit: int,
    total: int,
    keys: Seq<char>,
) -> (int, int)
    decreases keys.len(),
{
    if keys.len() == 0 {
        (offset, line)
    } else {
        let next = selector_step(offset, line, limit, total, selector_action_spec(keys[0]));
        selector_run(next.0, next.1, limit, total, keys.drop_first())
    }
}

/// The selector over `total` entries, `display_limit` of them on screen.
#[derive(Clone, Copy, Debug)]
pub struct Selector {
    pub offset: usize,
    pub current_line: usize,
    pub display_limit: usize,
    pub total: usize,
}

impl Selector {
    pub open spec fn wf(&self) -> bool {
        selector_wf(
            self.offset as int,
            self.current_line as int,
            self.display_limit as int,
            self.total as int,
        )
    }

    /// A fresh selector with the first entry highlighted; at most `list_rows`
    /// entries are on screen.
    pub fn new(total: usize, list_rows: usize) -> (r: Selector)
        requires
            0 < total,
            0 < list_rows,
        ensures
            r.offset == 0,
            r.current_line == 0,
            r.total == total,
            r.display_limit == if list_rows < total {
                list_rows
            } else {
                total
            },
            r.wf(),
    {
        let display_limit = if list_rows < total {
            list_rows
        } else {
            total
        };
        Selector { offset: 0, current_line: 0, display_limit, total }
    }

    /// The highlighted row of the whole list.
    pub open spec fn highlighted_spec(&self) -> int {
        self.offset + self.current_line
    }

    pub fn highlighted(&self) -> (r: usize)
        requires
            self.wf(),
        ensures
            r == self.highlighted_spec(),
            r < self.total,
    {
        self.offset + self.current_line
    }

    /// The rows on screen: `offset .. offset + display_limit`.
    pub fn visible_range(&self) -> (r: (usize, usize))
        requires
            self.wf(),
        ensures
            r.0 == self.offset,
            r.1 == self.offset + self.display_limit,
            r.1 <= self.total,
    {
        (self.offset, self.offset + self.display_limit)
    }

    /// Applies an action and says what the caller does next.
    pub fn apply(&mut self, action: SelectorAction) -> (r: SelectorOutcome)
        requires
            old(self).wf(),
        ensures
            (final(self).offset as int, final(self).current_line as int) == selector_step(
                old(self).offset as int,
                old(self).current_line as int,
                old(self).display_limit as int,
                old(self).total as int,
                action,
            ),
            final(self).display_limit == old(self).display_limit,
            final(self).total == old(self).total,
            final(self).wf(),
            r == selector_outcome_spec(
                old(self).offset as int,
                old(self).current_line as int,
                action,
            ),
            r matches SelectorOutcome::Chosen(i) ==> i < old(self).total,
    {
        match action {
            SelectorAction::Down => {
                if self.current_line + 1 < self.display_limit && self.offset + self.current_line
                    + 1 < self.total {
                    self.current_line = self.current_line + 1;
                } else if self.current_line + 1 == self.display_limit && self.offset
                    + self.current_line + 1 < self.total {
                    self.offset = self.offset + 1;
                }
                SelectorOutcome::Continue
            },
            SelectorAction::Up => {
                if self.current_line > 0 {
                    self.current_line = self.current_line - 1;
                } else if self.offset > 0 {
                    self.offset = self.offset - 1;
                }
                SelectorOutcome::Continue
            },
            SelectorAction::Choose => SelectorOutcome::Chosen(self.offset + self.current_line),
            SelectorAction::Quit => SelectorOutcome::Quit,
            SelectorAction::Noop => SelectorOutcome::Continue,
        }
    }

    /// Handles one key press.
    pub fn handle_key(&mut self, key: char) -> (r: SelectorOutcome)
        requires
            old(self).wf(),
        ensures
            (final(self).offset as int, final(self).current_line as int) == selector_step(
                old(self).offset as int,
                old(self).current_line as int,
                old(self).display_limit as int,
                old(self).total as int,
                selector_action_spec(key),
            ),
            final(self).display_limit == old(self).display_limit,
            final(self).total == old(self).total,
            final(self).wf(),
            r == selector_outcome_spec(
                old(self).offset as int,
                old(self).current_line as int,
                selector_action_spec(key),
            ),
            r matches SelectorOutcome::Chosen(i) ==> i < old(self).total,
    {
        let action = selector_action(key);
        self.apply(action)
    }
}

/// The list as the selector shows it: most recent (last) entry first.
pub fn reversed_entries(entries: &Vec<String>) -> (r: Vec<String>)
    ensures
        r@ == entries@.reverse(),
{
    let mut r: Vec<String> = Vec::new();
    let mut i: usize = entries.len();
    while i > 0
        invariant
            i <= entries.len(),
            r@ == entries@.subrange(i as int, entries.len() as int).reverse(),
        decreases i,
    {
        i = i - 1;
        r.push(entries[i].clone());
        assert(entries@.subrange(i as int, entries.len() as int).reverse() =~= entries@.subrange(
            (i + 1) as int,
            entries.len() as int,
        ).reverse().push(entries@[i as int]));
    }
    assert(entries@.subrange(0, entries.len() as int) =~= entries@);
    r
}

/// Whatever keys are pressed, the highlighted row stays inside the window and
/// on an entry of the list.
pub proof fn lemma_selector_run_valid(
    offset: int,
    line: int,
    limit: int,
    total: int,
    keys: Seq<char>,
)
    requires
        selector_wf(offset, line, limit, total),
    ensures
        selector_wf(
            selector_run(offset, line, limit, total, keys).0,
            selector_run(offset, line, limit, total, keys).1,
            limit,
            total,
        ),
        selector_run(offset, line, limit, total, keys).0 + selector_run(
            offset,
            line,
            limit,
            total,
            keys,
        ).1 < total,
        selector_run(offset, line, limit, total, keys).1 < limit,
    decreases keys.len(),
{
    if keys.len() > 0 {
        let next = selector_step(offset, line, limit, total, selector_action_spec(keys[0]));
        lemma_selector_run_valid(next.0, next.1, limit, total, keys.drop_first());
    }
}

} // verus!
