//! The session: which view is active and which log is open.
use vstd::prelude::*;

verus! {

/// The active view.
#[derive(Clone, Copy, Debug, PartialEq, Eq, Structural)]
pub enum SessionState {
    /// The pager shows the log at this index of the ascending list of logs.
    Paging(usize),
    /// The file selector is shown.
    Selecting,
    /// The user quit.
    Terminated,
}

/// How a view ended.
#[derive(Clone, Copy, Debug, PartialEq, Eq, Structural)]
pub enum SessionEvent {
    /// The pager asked for the file selector.
    PagerSelect,
    /// The pager asked to quit.
    PagerQuit,
    /// The selector chose this row of its list, which shows the most recent log first.
    SelectorChose(usize),
    /// The selector asked to quit.
    SelectorQuit,
}

/// Why a session could not start.
#[derive(Clone, Copy, Debug, PartialEq, Eq, Structural)]
pub enum OpenError {
    /// There is no log to show.
    NoLogFiles,
}

/// The state after an event, with `count` logs in the list. Events that do not
/// belong to the active view change nothing.
pub open spec fn session_step(state: SessionState, count: int, event: SessionEvent) -> SessionState {
    match (state, event) {
        (SessionState::Paging(_), SessionEvent::PagerSelect) => SessionState::Selecting,
        (SessionState::Paging(_), SessionEvent::PagerQuit) => SessionState::Terminated,
        (SessionState::Selecting, SessionEvent::SelectorChose(row)) => if row < count {
            SessionState::Paging((count - 1 - row) as usize)
        } else {
            SessionState::Selecting
        },
        (SessionState::Selecting, SessionEvent::SelectorQuit) => SessionState::Terminated,
        _ => state,
    }
}

/// A session over `file_count` logs sorted in ascending order.
#[derive(Clone, Copy, Debug)]
pub struct Session {
    pub file_count: usize,
    pub state: SessionState,
}

impl Session {
    pub open spec fn wf(&self) -> bool {
        &&& self.file_count > 0
        &&& self.state matches SessionState::Paging(i) ==> i < self.file_count
    }

    /// Starts on the most recent log, the last of the ascending list; fails when
    /// there is none.
    pub fn open(file_count: usize) -> (r: Result<Session, OpenError>)
        ensures
            file_count == 0 <==> r == Err::<Session, OpenError>(OpenError::NoLogFiles),
            file_count > 0 ==> (r matches Ok(s) && s.file_count == file_count && s.state
                == SessionState::Paging((file_count - 1) as usize)),
            r matches Ok(s) ==> s.wf(),
    {
        if file_count == 0 {
            Err(OpenError::NoLogFiles)
        } else {
            Ok(Session { file_count, state: SessionState::Paging(file_count - 1) })
        }
    }

    /// Moves to the next view after an event.
    pub fn step(&mut self, event: SessionEvent)
        ensures
            final(self).state == session_step(old(self).state, old(self).file_count as int, event),
            final(self).file_count == old(self).file_count,
            old(self).wf() ==> final(self).wf(),
    {
        match (self.state, event) {
            (SessionState::Paging(_), SessionEvent::PagerSelect) => {
                self.state = SessionState::Selecting;
            },
            (SessionState::Paging(_), SessionEvent::PagerQuit) => {
                self.state = SessionState::Terminated;
            },
            (SessionState::Selecting, SessionEvent::SelectorChose(row)) => {
                if row < self.file_count {
                    self.state = SessionState::Paging(self.file_count - 1 - row);
                }
            },
            (SessionState::Selecting, SessionEvent::SelectorQuit) => {
                self.state = SessionState::Terminated;
            },
            _ => {},
        }
    }

    /// The index of the open log, while paging.
    pub fn current_file(&self) -> (r: Option<usize>)
        ensures
            self.state matches SessionState::Paging(i) ==> r == Some(i),
            !(self.state is Paging) ==> r is None,
    {
        match self.state {
            SessionState::Paging(i) => Some(i),
            _ => None,
        }
    }

    pub fn is_terminated(&self) -> (r: bool)
        ensures
            r == (self.state == SessionState::Terminated),
    {
        match self.state {
            SessionState::Terminated => true,
            _ => false,
        }
    }
}

} // verus!
