//! Read-only view over the engine's append-only journal: the flat list of
//! emitted logs and the nested change-log segments. The instrumentation
//! layer only ever reads this state; it is written by the engine.

use vstd::prelude::*;

use crate::types::{JournalEntry, LogData, LogDataV};

verus! {

/// Model of the engine's journaled state, as far as this layer reads it:
/// the emitted logs and the change-log segments, one per open call depth.
pub struct JournaledState {
    pub logs: Vec<LogData>,
    pub journal: Vec<Vec<JournalEntry>>,
}

impl JournaledState {
    /// View of the log list.
    pub open spec fn logs_v(&self) -> Seq<LogDataV> {
        self.logs@.map_values(|l: LogData| l@)
    }

    /// View of the most recent change-log segment; empty when no segment
    /// is open.
    pub open spec fn cur_segment(&self) -> Seq<JournalEntry> {
        if self.journal@.len() > 0 {
            self.journal@.last()@
        } else {
            Seq::empty()
        }
    }
}

/// Narrow read accessors over a journal.
pub trait JournalExt {
    /// View of the log list.
    spec fn logs_view(&self) -> Seq<LogDataV>;

    /// View of the most recent change-log segment.
    spec fn segment_view(&self) -> Seq<JournalEntry>;

    /// True when at least one change-log segment is open.
    spec fn segment_open(&self) -> bool;

    /// The emitted logs, in order of emission.
    fn logs(&self) -> (r: &Vec<LogData>)
        ensures
            r@.map_values(|l: LogData| l@) == self.logs_view(),
    ;

    /// The most recent change-log segment. The surrounding engine keeps a
    /// segment open for every running frame, so a caller inside a frame may
    /// rely on one being present.
    fn last_journal(&self) -> (r: &Vec<JournalEntry>)
        requires
            self.segment_open(),
        ensures
            r@ == self.segment_view(),
    ;
}

impl JournalExt for JournaledState {
    open spec fn logs_view(&self) -> Seq<LogDataV> {
        self.logs_v()
    }

    open spec fn segment_view(&self) -> Seq<JournalEntry> {
        self.cur_segment()
    }

    open spec fn segment_open(&self) -> bool {
        self.journal@.len() > 0
    }

    fn logs(&self) -> (r: &Vec<LogData>) {
        &self.logs
    }

    fn last_journal(&self) -> (r: &Vec<JournalEntry>) {
        &self.journal[self.journal.len() - 1]
    }
}

/// Access to the journal view of an execution context.
pub trait JournalExtGetter {
    /// The journal as a mathematical value.
    spec fn journal(&self) -> JournaledState;

    /// Read access to the journal.
    fn journal_ext(&self) -> (r: &JournaledState)
        ensures
            *r == self.journal(),
    ;
}

} // verus!
