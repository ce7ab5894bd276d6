//! Confirmation polling: deciding, after each status query, whether the
//! caller waits and asks again or stops.
use vstd::prelude::*;

verus! {

/// What the caller does after a status query.
#[derive(Debug, Clone, Copy, PartialEq, Eq, Structural)]
pub enum PollAction {
    /// The transaction is finalized: stop polling, successfully.
    Finished,
    /// Not finalized yet: suspend for the poll interval, then query again.
    WaitAndRetry,
    /// Not finalized within the configured number of queries: stop, failed.
    GiveUp,
}

/// Seconds to suspend between two status queries.
pub const POLL_INTERVAL_SECS: u64 = 1;

/// The state of one confirmation wait.
#[derive(Debug, Clone, Copy, PartialEq, Eq, Structural)]
pub struct ConfirmationPoller {
    /// Status queries answered so far.
    pub queries: u64,
    /// Largest number of queries before giving up; `None` waits forever.
    pub max_queries: Option<u64>,
}

/// The action that follows a query answered with `finalized`, in state `p`.
pub open spec fn poll_action(p: ConfirmationPoller, finalized: bool) -> PollAction {
    if finalized {
        PollAction::Finished
    } else {
        match p.max_queries {
            Some(m) if p.queries + 1 >= m => PollAction::GiveUp,
            _ => PollAction::WaitAndRetry,
        }
    }
}

/// The state after one more answered query.
pub open spec fn after_query(p: ConfirmationPoller) -> ConfirmationPoller {
    ConfirmationPoller {
        queries: if p.queries < u64::MAX { (p.queries + 1) as u64 } else { p.queries },
        ..p
    }
}

/// Index of the answer on which a poller started in `p` stops, when fed the
/// answers `responses` in order; `None` when it is still waiting after all.
pub open spec fn stop_index(p: ConfirmationPoller, responses: Seq<bool>) -> Option<nat>
    decreases responses.len(),
{
    if responses.len() == 0 {
        None
    } else if poll_action(p, responses[0]) != PollAction::WaitAndRetry {
        Some(0)
    } else {
        match stop_index(after_query(p), responses.drop_first()) {
            Some(i) => Some(i + 1),
            None => None,
        }
    }
}

impl ConfirmationPoller {
    /// A poller that waits until finalized, however long that takes.
    pub fn unbounded() -> (r: Self)
        ensures
            r.queries == 0,
            r.max_queries is None,
    {
        ConfirmationPoller { queries: 0, max_queries: None }
    }

    /// A poller that gives up after `max_queries` unfinalized answers.
    pub fn with_deadline(max_queries: u64) -> (r: Self)
        ensures
            r.queries == 0,
            r.max_queries == Some(max_queries),
    {
        ConfirmationPoller { queries: 0, max_queries: Some(max_queries) }
    }

    /// Records one status answer and says what the caller does next.
    pub fn on_status(&mut self, finalized: bool) -> (r: PollAction)
        ensures
            r == poll_action(*old(self), finalized),
            *final(self) == after_query(*old(self)),
    {
        let r = if finalized {
            PollAction::Finished
        } else {
            match self.max_queries {
                Some(m) => {
                    if self.queries >= m || m - self.queries <= 1 {
                        PollAction::GiveUp
                    } else {
                        PollAction::WaitAndRetry
                    }
                },
                None => PollAction::WaitAndRetry,
            }
        };
        if self.queries < u64::MAX {
            self.queries = self.queries + 1;
        }
        r
    }
}

/// A poller without a deadline stops exactly on the first answer that
/// reports the finalized state: never on an earlier one, and always on that
/// one.
pub proof fn lemma_unbounded_stops_on_first_finalized(p: ConfirmationPoller, responses: Seq<bool>)
    requires
        p.max_queries is None,
    ensures
        stop_index(p, responses) matches Some(i) ==> i < responses.len() && responses[i as int]
            && forall|j: int| 0 <= j < i ==> !responses[j],
        (exists|j: int| 0 <= j < responses.len() && responses[j]) ==> stop_index(p, responses)
            is Some,
    decreases responses.len(),
{
    if responses.len() > 0 && !responses[0] {
        let rest = responses.drop_first();
        lemma_unbounded_stops_on_first_finalized(after_query(p), rest);
        if let Some(i) = stop_index(p, responses) {
            assert forall|j: int| 0 <= j < i implies !responses[j] by {
                if j > 0 {
                    assert(responses[j] == rest[j - 1]);
                }
            }
        }
        if exists|j: int| 0 <= j < responses.len() && responses[j] {
            let j = choose|j: int| 0 <= j < responses.len() && responses[j];
            assert(rest[j - 1]);
        }
    }
}

} // verus!
