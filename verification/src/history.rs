//! The sessions of the past.

use crate::clock::SystemTime;
use crate::text::Text;
use vstd::prelude::*;

verus! {

/// How sure the end of a session is.
#[derive(Clone, Copy, Debug, PartialEq, Eq, Structural)]
pub enum EndPrecision {
    Observed,
    Approximate,
}

/// When a session ended.
#[derive(Clone, Copy, Debug, PartialEq, Eq, Structural)]
pub struct EndStamp {
    pub at: SystemTime,
    pub precision: EndPrecision,
}

/// One session of the history.
#[derive(Clone, Debug, PartialEq, Eq)]
pub struct HistoryEntry {
    pub item_id: String,
    pub started_at: Option<SystemTime>,
    pub ended_at: Option<EndStamp>,
}

/// The model of a session: whose it was, when it began, when and how surely it
/// ended, in nanoseconds since 1970.
pub ghost struct SessionModel {
    pub item_id: Text,
    pub started_at: Option<int>,
    pub ended_at: Option<EndModel>,
}

/// The model of an end: when it was, and how sure that is.
pub ghost struct EndModel {
    pub at: int,
    pub precision: EndPrecision,
}

impl View for HistoryEntry {
    type V = SessionModel;

    open spec fn view(&self) -> SessionModel {
        SessionModel {
            item_id: self.item_id@,
            started_at: match self.started_at {
                Some(time) => Some(time@),
                None => None,
            },
            ended_at: match self.ended_at {
                Some(end) => Some(EndModel { at: end.at@, precision: end.precision }),
                None => None,
            },
        }
    }
}

/// The models of a history.
#[verifier::opaque]
pub open spec fn sessions(entries: Seq<HistoryEntry>) -> Seq<SessionModel> {
    Seq::new(entries.len(), |i: int| entries[i]@)
}

/// A list has as many models as elements.
pub broadcast proof fn lemma_sessions_len(entries: Seq<HistoryEntry>)
    ensures
        #[trigger] sessions(entries).len() == entries.len(),
{
    reveal(sessions);
}

/// Each element of a list has its own model.
pub broadcast proof fn lemma_sessions_index(entries: Seq<HistoryEntry>, i: int)
    requires
        0 <= i < entries.len(),
    ensures
        (#[trigger] sessions(entries)[i]) == entries[i]@,
{
    reveal(sessions);
}

pub broadcast group group_sessions {
    lemma_sessions_len,
    lemma_sessions_index,
}

} // verus!
