//! An in-memory activity log: events are kept in the order they were saved,
//! and readers ask for the most recent ones.
use vstd::prelude::*;
use crate::activity::ActivityEvent;

verus! {

/// The last `limit` events of `log` (all of them when there are fewer), oldest first.
pub open spec fn recent_window(log: Seq<ActivityEvent>, limit: int) -> Seq<ActivityEvent> {
    if limit >= log.len() {
        log
    } else {
        log.subrange(log.len() - limit, log.len() as int)
    }
}

/// Activity events held in memory, in the order they were saved.
pub struct MemoryStore {
    events: Vec<ActivityEvent>,
}

impl View for MemoryStore {
    type V = Seq<ActivityEvent>;

    closed spec fn view(&self) -> Seq<ActivityEvent> {
        self.events@
    }
}

impl MemoryStore {
    /// An empty log.
    pub fn new() -> (store: MemoryStore)
        ensures
            store@ == Seq::<ActivityEvent>::empty(),
    {
        MemoryStore { events: Vec::new() }
    }

    /// Number of saved events.
    pub fn len(&self) -> (n: usize)
        ensures
            n == self@.len(),
    {
        self.events.len()
    }

    /// Appends `event` to the log.
    pub fn save(&mut self, event: ActivityEvent)
        ensures
            final(self)@ == old(self)@.push(event),
    {
        self.events.push(event);
    }

    /// The last `limit` saved events (all of them when fewer were saved), oldest first.
    pub fn recent(&self, limit: usize) -> (events: Vec<ActivityEvent>)
        ensures
            events@ == recent_window(self@, limit as int),
    {
        let len = self.events.len();
        let start = len.saturating_sub(limit);
        let mut out: Vec<ActivityEvent> = Vec::new();
        let mut i = start;
        while i < len
            invariant
                start <= i <= len,
                len == self.events@.len(),
                start == (if limit >= len { 0 } else { len - limit }),
                out@ == self.events@.subrange(start as int, i as int),
            decreases len - i,
        {
            out.push(self.events[i].clone());
            i = i + 1;
            proof {
                assert(out@ =~= self.events@.subrange(start as int, i as int));
            }
        }
        proof {
            assert(recent_window(self@, limit as int) =~= self.events@.subrange(start as int, len as int));
        }
        out
    }
}

impl Default for MemoryStore {
    fn default() -> (store: MemoryStore)
        ensures
            store@ == Seq::<ActivityEvent>::empty(),
    {
        MemoryStore::new()
    }
}

/// Reading back after a write: once `event` is saved, the most recent event is `event`.
pub proof fn law_recent_after_save(log: Seq<ActivityEvent>, event: ActivityEvent)
    ensures
        recent_window(log.push(event), 1) == seq![event],
{
    assert(recent_window(log.push(event), 1) =~= seq![event]);
}

/// Saving keeps the earlier events in place: the last `k + 1` events after saving
/// `event` are the last `k` events before it, then `event`.
pub proof fn law_save_extends_recent(log: Seq<ActivityEvent>, event: ActivityEvent, k: int)
    requires
        0 <= k,
    ensures
        recent_window(log.push(event), k + 1) == recent_window(log, k).push(event),
{
    assert(recent_window(log.push(event), k + 1) =~= recent_window(log, k).push(event));
}

/// The most recent `limit` events are exactly `min(limit, number saved)` events, and
/// they are the tail of the log.
pub proof fn law_recent_is_tail(log: Seq<ActivityEvent>, limit: int)
    requires
        0 <= limit,
    ensures
        recent_window(log, limit).len() == (if limit < log.len() { limit } else { log.len() as int }),
        log.subrange(0, log.len() - recent_window(log, limit).len()) + recent_window(log, limit) == log,
{
    assert(log.subrange(0, log.len() - recent_window(log, limit).len()) + recent_window(log, limit)
        =~= log);
}

/// Asking for at least as many events as were saved gives the whole log.
pub proof fn law_recent_all(log: Seq<ActivityEvent>, limit: int)
    requires
        limit >= log.len(),
    ensures
        recent_window(log, limit) == log,
{
}

} // verus!
