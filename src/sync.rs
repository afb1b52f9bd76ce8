//! The sync polling state machine.
//!
//! A sync stream repeatedly calls the sync endpoint, handing the pagination
//! token of each response on to the next call, and stops for good after the
//! first failure. The caller performs each call; the stream decides whether
//! one is made and with which `since` token.
use vstd::prelude::*;

use crate::dispatch::opt_view;

verus! {

/// Where a sync stream stands.
#[derive(Debug)]
pub enum SyncCursor {
    /// No call has succeeded yet and no token was given.
    InitialSync,
    /// The next call resumes from this token.
    Since(String),
    /// A call failed; the stream is exhausted.
    Errored,
}

/// A sync cursor as plain values.
pub enum CursorView {
    InitialSync,
    Since(Seq<char>),
    Errored,
}

impl SyncCursor {
    pub open spec fn view(&self) -> CursorView {
        match self {
            SyncCursor::InitialSync => CursorView::InitialSync,
            SyncCursor::Since(t) => CursorView::Since(t@),
            SyncCursor::Errored => CursorView::Errored,
        }
    }
}

/// What a pull on the stream asks of the caller.
#[derive(Debug)]
pub enum SyncAction {
    /// Call the sync endpoint with this `since` token (none for the first call).
    Dispatch(Option<String>),
    /// A call is still in flight: wait for its outcome.
    Busy,
    /// The stream has ended: it yields no further item.
    Exhausted,
}

/// The state of a sync stream.
#[derive(Debug)]
pub struct SyncStream {
    cursor: SyncCursor,
    in_flight: bool,
    set_presence: bool,
}

/// A sync stream as plain values.
pub struct SyncView {
    pub cursor: CursorView,
    pub in_flight: bool,
    pub set_presence: bool,
}

/// The `since` token that a call made from `c` carries.
pub open spec fn since_of(c: CursorView) -> Option<Seq<char>> {
    match c {
        CursorView::Since(t) => Some(t),
        _ => None,
    }
}

impl SyncStream {
    pub closed spec fn view(&self) -> SyncView {
        SyncView { cursor: self.cursor@, in_flight: self.in_flight, set_presence: self.set_presence }
    }

    /// A stream that starts from `since`, or with a full sync when there is
    /// none; `set_presence` says whether the calls mark the user as online.
    pub fn new(since: Option<String>, set_presence: bool) -> (r: SyncStream)
        ensures
            r@.cursor == (match since {
                Some(t) => CursorView::Since(t@),
                None => CursorView::InitialSync,
            }),
            !r@.in_flight,
            r@.set_presence == set_presence,
    {
        let cursor = match since {
            Some(t) => SyncCursor::Since(t),
            None => SyncCursor::InitialSync,
        };
        SyncStream { cursor, in_flight: false, set_presence }
    }

    /// Whether the calls ask the server to mark the user as offline.
    pub fn presence_offline(&self) -> (r: bool)
        ensures
            r == !self@.set_presence,
    {
        !self.set_presence
    }

    /// Whether the stream has ended.
    pub fn is_exhausted(&self) -> (r: bool)
        ensures
            r == (self@.cursor is Errored),
    {
        match self.cursor {
            SyncCursor::Errored => true,
            _ => false,
        }
    }

    /// Pulls the next item: says whether a call is to be made, and with
    /// which `since` token.
    pub fn poll(&mut self) -> (r: SyncAction)
        ensures
            final(self)@.cursor == old(self)@.cursor,
            final(self)@.set_presence == old(self)@.set_presence,
            old(self)@.cursor is Errored ==> r is Exhausted && final(self)@ == old(self)@,
            !(old(self)@.cursor is Errored) && old(self)@.in_flight ==> r is Busy && final(self)@
                == old(self)@,
            !(old(self)@.cursor is Errored) && !old(self)@.in_flight ==> {
                &&& r is Dispatch
                &&& opt_view(r->Dispatch_0) == since_of(old(self)@.cursor)
                &&& final(self)@.in_flight
            },
    {
        match &self.cursor {
            SyncCursor::Errored => SyncAction::Exhausted,
            SyncCursor::InitialSync => {
                if self.in_flight {
                    SyncAction::Busy
                } else {
                    self.in_flight = true;
                    SyncAction::Dispatch(None)
                }
            },
            SyncCursor::Since(t) => {
                if self.in_flight {
                    SyncAction::Busy
                } else {
                    let since = t.clone();
                    self.in_flight = true;
                    SyncAction::Dispatch(Some(since))
                }
            },
        }
    }

    /// Takes the outcome of the call in flight: the response's next
    /// pagination token on success, none on failure. Without a call in flight,
    /// or once the stream has ended, nothing changes.
    pub fn complete(&mut self, next_batch: Option<String>)
        ensures
            final(self)@.set_presence == old(self)@.set_presence,
            !old(self)@.in_flight || old(self)@.cursor is Errored ==> final(self)@ == old(self)@,
            old(self)@.in_flight && !(old(self)@.cursor is Errored) ==> {
                &&& !final(self)@.in_flight
                &&& final(self)@.cursor == match next_batch {
                    Some(t) => CursorView::Since(t@),
                    None => CursorView::Errored,
                }
            },
    {
        if self.in_flight && !self.is_exhausted() {
            self.in_flight = false;
            self.cursor = match next_batch {
                Some(t) => SyncCursor::Since(t),
                None => SyncCursor::Errored,
            };
        }
    }
}

} // verus!
