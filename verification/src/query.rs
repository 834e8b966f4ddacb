//! Questions the dashboard asks of a stretch of the activity log: what is the
//! latest reading of a given kind.
use vstd::prelude::*;
use crate::activity::{ActivityEvent, ActivityKind, CpuSnapshot, DiskSnapshot, KindTag, RamSnapshot};
use crate::store::recent_window;

verus! {

/// How many of the most recent events the dashboard looks through.
pub const RECENT_WINDOW: usize = 200;

/// Position of the last event of kind `tag` in `log`, if there is one.
pub open spec fn latest_index(log: Seq<ActivityEvent>, tag: KindTag) -> Option<int>
    decreases log.len(),
{
    if log.len() == 0 {
        None
    } else if log.last().kind.spec_tag() == tag {
        Some(log.len() - 1)
    } else {
        latest_index(log.drop_last(), tag)
    }
}

/// The latest event of a kind is the last one: it has that kind and no later event
/// does; when there is none, no event of the log has that kind.
pub proof fn law_latest_index_is_last(log: Seq<ActivityEvent>, tag: KindTag)
    ensures
        latest_index(log, tag) matches Some(i) ==> 0 <= i < log.len() && log[i].kind.spec_tag() == tag,
        latest_index(log, tag) matches Some(i) ==> forall|j: int|
            i < j < log.len() ==> (#[trigger] log[j]).kind.spec_tag() != tag,
        latest_index(log, tag) is None ==> forall|j: int|
            0 <= j < log.len() ==> (#[trigger] log[j]).kind.spec_tag() != tag,
    decreases log.len(),
{
    if log.len() > 0 && log.last().kind.spec_tag() != tag {
        law_latest_index_is_last(log.drop_last(), tag);
        assert forall|j: int| 0 <= j < log.len() - 1 implies log[j] == log.drop_last()[j] by {}
    }
}

/// Index of the last event of kind `tag` in `events`.
pub fn find_latest(events: &[ActivityEvent], tag: KindTag) -> (found: Option<usize>)
    ensures
        match found {
            None => latest_index(events@, tag) is None,
            Some(i) => latest_index(events@, tag) == Some(i as int),
        },
        found matches Some(i) ==> i < events@.len(),
{
    let mut i = events.len();
    assert(events@.subrange(0, i as int) =~= events@);
    while i > 0
        invariant
            i <= events@.len(),
            latest_index(events@, tag) == latest_index(events@.subrange(0, i as int), tag),
        decreases i,
    {
        let ghost prefix = events@.subrange(0, i as int);
        if events[i - 1].kind.tag() == tag {
            assert(prefix.last() == events@[i - 1]);
            return Some(i - 1);
        }
        assert(prefix.drop_last() =~= events@.subrange(0, i - 1));
        i = i - 1;
    }
    assert(events@.subrange(0, 0) =~= Seq::<ActivityEvent>::empty());
    None
}

/// Typing speed of the last typing-speed event.
pub open spec fn spec_latest_wpm(log: Seq<ActivityEvent>) -> Option<u32> {
    match latest_index(log, KindTag::TypingSpeed) {
        Some(i) => match log[i].kind {
            ActivityKind::TypingSpeed { wpm } => Some(wpm),
            _ => None,
        },
        None => None,
    }
}

/// Program name of the last active-window event.
pub open spec fn spec_latest_application(log: Seq<ActivityEvent>) -> Option<Seq<char>> {
    match latest_index(log, KindTag::ActiveWindow) {
        Some(i) => match log[i].kind {
            ActivityKind::ActiveWindow { app, .. } => Some(app@),
            _ => None,
        },
        None => None,
    }
}

/// Window identifier of the last window-id event.
pub open spec fn spec_latest_window_id(log: Seq<ActivityEvent>) -> Option<usize> {
    match latest_index(log, KindTag::WindowId) {
        Some(i) => match log[i].kind {
            ActivityKind::WindowId { id } => Some(id),
            _ => None,
        },
        None => None,
    }
}

/// Process count of the last process-count event.
pub open spec fn spec_latest_process_count(log: Seq<ActivityEvent>) -> Option<usize> {
    match latest_index(log, KindTag::TotalProcess) {
        Some(i) => match log[i].kind {
            ActivityKind::TotalProcess { process } => Some(process),
            _ => None,
        },
        None => None,
    }
}

/// Snapshot of the last CPU event.
pub open spec fn spec_latest_cpu(log: Seq<ActivityEvent>) -> Option<CpuSnapshot> {
    match latest_index(log, KindTag::Cpu) {
        Some(i) => match log[i].kind {
            ActivityKind::Cpu(s) => Some(s),
            _ => None,
        },
        None => None,
    }
}

/// Snapshot of the last memory event.
pub open spec fn spec_latest_ram(log: Seq<ActivityEvent>) -> Option<RamSnapshot> {
    match latest_index(log, KindTag::Ram) {
        Some(i) => match log[i].kind {
            ActivityKind::Ram(s) => Some(s),
            _ => None,
        },
        None => None,
    }
}

/// Snapshot of the last disk event.
pub open spec fn spec_latest_disk(log: Seq<ActivityEvent>) -> Option<DiskSnapshot> {
    match latest_index(log, KindTag::Disk) {
        Some(i) => match log[i].kind {
            ActivityKind::Disk(s) => Some(s),
            _ => None,
        },
        None => None,
    }
}

/// The most recent typing speed among `events`.
pub fn latest_wpm(events: &[ActivityEvent]) -> (wpm: Option<u32>)
    ensures
        wpm == spec_latest_wpm(events@),
{
    match find_latest(events, KindTag::TypingSpeed) {
        Some(i) => match &events[i].kind {
            ActivityKind::TypingSpeed { wpm } => Some(*wpm),
            _ => None,
        },
        None => None,
    }
}

/// The program that owned the foreground window in the most recent active-window event.
pub fn latest_application(events: &[ActivityEvent]) -> (app: Option<String>)
    ensures
        match app {
            None => spec_latest_application(events@) is None,
            Some(a) => spec_latest_application(events@) == Some(a@),
        },
{
    match find_latest(events, KindTag::ActiveWindow) {
        Some(i) => match &events[i].kind {
            ActivityKind::ActiveWindow { app, .. } => Some(app.clone()),
            _ => None,
        },
        None => None,
    }
}

/// The foreground window identifier in the most recent window-id event.
pub fn latest_window_id(events: &[ActivityEvent]) -> (id: Option<usize>)
    ensures
        id == spec_latest_window_id(events@),
{
    match find_latest(events, KindTag::WindowId) {
        Some(i) => match &events[i].kind {
            ActivityKind::WindowId { id } => Some(*id),
            _ => None,
        },
        None => None,
    }
}

/// The process count in the most recent process-count event.
pub fn latest_process_count(events: &[ActivityEvent]) -> (count: Option<usize>)
    ensures
        count == spec_latest_process_count(events@),
{
    match find_latest(events, KindTag::TotalProcess) {
        Some(i) => match &events[i].kind {
            ActivityKind::TotalProcess { process } => Some(*process),
            _ => None,
        },
        None => None,
    }
}

/// The most recent CPU snapshot.
pub fn latest_cpu_snapshot(events: &[ActivityEvent]) -> (snapshot: Option<CpuSnapshot>)
    ensures
        snapshot == spec_latest_cpu(events@),
{
    match find_latest(events, KindTag::Cpu) {
        Some(i) => match &events[i].kind {
            ActivityKind::Cpu(s) => Some(s.clone()),
            _ => None,
        },
        None => None,
    }
}

/// The most recent memory snapshot.
pub fn latest_ram_snapshot(events: &[ActivityEvent]) -> (snapshot: Option<RamSnapshot>)
    ensures
        snapshot == spec_latest_ram(events@),
{
    match find_latest(events, KindTag::Ram) {
        Some(i) => match &events[i].kind {
            ActivityKind::Ram(s) => Some(s.clone()),
            _ => None,
        },
        None => None,
    }
}

/// The most recent disk snapshot.
pub fn latest_disk_snapshot(events: &[ActivityEvent]) -> (snapshot: Option<DiskSnapshot>)
    ensures
        snapshot == spec_latest_disk(events@),
{
    match find_latest(events, KindTag::Disk) {
        Some(i) => match &events[i].kind {
            ActivityKind::Disk(s) => Some(s.clone()),
            _ => None,
        },
        None => None,
    }
}

/// Reading back after a write: when the last saved event has kind `tag`, the latest
/// event of that kind in any non-empty recent window is that event.
pub proof fn law_latest_after_save(log: Seq<ActivityEvent>, event: ActivityEvent, limit: int)
    requires
        limit >= 1,
    ensures
        latest_index(recent_window(log.push(event), limit), event.kind.spec_tag()) == Some(
            recent_window(log.push(event), limit).len() - 1,
        ),
        recent_window(log.push(event), limit)[recent_window(log.push(event), limit).len() - 1]
            == event,
{
    let w = recent_window(log.push(event), limit);
    assert(w.len() >= 1);
    assert(w.last() == event);
}

/// Typing speed read back: once a typing-speed reading of `wpm` is saved, the latest
/// typing speed in any non-empty recent window is `wpm`.
pub proof fn law_wpm_after_save(log: Seq<ActivityEvent>, event: ActivityEvent, limit: int)
    requires
        limit >= 1,
        event.kind is TypingSpeed,
    ensures
        spec_latest_wpm(recent_window(log.push(event), limit)) == Some(event.kind->wpm),
{
    law_latest_after_save(log, event, limit);
}

/// Application read back: once an active-window reading is saved, the latest
/// application in any non-empty recent window is that reading's program name.
pub proof fn law_application_after_save(log: Seq<ActivityEvent>, event: ActivityEvent, limit: int)
    requires
        limit >= 1,
        event.kind is ActiveWindow,
    ensures
        spec_latest_application(recent_window(log.push(event), limit)) == Some(event.kind->app@),
{
    law_latest_after_save(log, event, limit);
}

/// Readings of other kinds do not hide the latest reading of a kind: appending an
/// event of a different kind leaves the latest event of `tag` where it was.
pub proof fn law_latest_unchanged_by_other_kinds(
    log: Seq<ActivityEvent>,
    event: ActivityEvent,
    tag: KindTag,
)
    requires
        event.kind.spec_tag() != tag,
    ensures
        latest_index(log.push(event), tag) == latest_index(log, tag),
{
    assert(log.push(event).drop_last() =~= log);
}

/// A log with no events has no latest reading of any kind.
pub proof fn law_empty_log_has_no_latest(log: Seq<ActivityEvent>)
    requires
        log.len() == 0,
    ensures
        spec_latest_wpm(log) is None,
        spec_latest_application(log) is None,
        spec_latest_window_id(log) is None,
        spec_latest_process_count(log) is None,
        spec_latest_cpu(log) is None,
        spec_latest_ram(log) is None,
        spec_latest_disk(log) is None,
{
}

/// The newest reading wins: appending an event makes its own reading the latest
/// of its kind.
pub proof fn law_latest_is_newest_reading(log: Seq<ActivityEvent>, e: ActivityEvent)
    ensures
        e.kind matches ActivityKind::TypingSpeed { wpm } ==> spec_latest_wpm(log.push(e)) == Some(wpm),
        e.kind matches ActivityKind::ActiveWindow { app, .. } ==> spec_latest_application(log.push(e))
            == Some(app@),
        e.kind matches ActivityKind::WindowId { id } ==> spec_latest_window_id(log.push(e)) == Some(id),
        e.kind matches ActivityKind::TotalProcess { process } ==> spec_latest_process_count(log.push(e))
            == Some(process),
        e.kind matches ActivityKind::Cpu(c) ==> spec_latest_cpu(log.push(e)) == Some(c),
        e.kind matches ActivityKind::Ram(r) ==> spec_latest_ram(log.push(e)) == Some(r),
        e.kind matches ActivityKind::Disk(d) ==> spec_latest_disk(log.push(e)) == Some(d),
{
    assert(log.push(e).last() == e);
    assert(log.push(e)[log.len() as int] == e);
}

/// Readings of other kinds leave each latest reading as it was.
pub proof fn law_latest_skips_other_kinds(log: Seq<ActivityEvent>, e: ActivityEvent)
    ensures
        !(e.kind is TypingSpeed) ==> spec_latest_wpm(log.push(e)) == spec_latest_wpm(log),
        !(e.kind is ActiveWindow) ==> spec_latest_application(log.push(e)) == spec_latest_application(log),
        !(e.kind is WindowId) ==> spec_latest_window_id(log.push(e)) == spec_latest_window_id(log),
        !(e.kind is TotalProcess) ==> spec_latest_process_count(log.push(e)) == spec_latest_process_count(
            log,
        ),
        !(e.kind is Cpu) ==> spec_latest_cpu(log.push(e)) == spec_latest_cpu(log),
        !(e.kind is Ram) ==> spec_latest_ram(log.push(e)) == spec_latest_ram(log),
        !(e.kind is Disk) ==> spec_latest_disk(log.push(e)) == spec_latest_disk(log),
{
    let l2 = log.push(e);
    assert(l2.drop_last() =~= log);
    law_latest_index_is_last(log, KindTag::TotalProcess);
    law_latest_index_is_last(log, KindTag::TypingSpeed);
    law_latest_index_is_last(log, KindTag::ActiveWindow);
    law_latest_index_is_last(log, KindTag::WindowId);
    law_latest_index_is_last(log, KindTag::Cpu);
    law_latest_index_is_last(log, KindTag::Ram);
    law_latest_index_is_last(log, KindTag::Disk);
    assert forall|i: int| 0 <= i < log.len() implies l2[i] == log[i] by {}
}

/// The process count read back is that of the newest process-count event, and no
/// later event in the log is a process count.
pub proof fn law_process_count_is_newest(log: Seq<ActivityEvent>)
    ensures
        spec_latest_process_count(log) is None <==> forall|j: int|
            0 <= j < log.len() ==> !((#[trigger] log[j]).kind is TotalProcess),
        spec_latest_process_count(log) matches Some(n) ==> exists|i: int|
            0 <= i < log.len() && (#[trigger] log[i]).kind == (ActivityKind::TotalProcess { process: n })
                && forall|j: int| i < j < log.len() ==> !((#[trigger] log[j]).kind is TotalProcess),
{
    law_latest_index_is_last(log, KindTag::TotalProcess);
    if let Some(i) = latest_index(log, KindTag::TotalProcess) {
        assert(log[i].kind is TotalProcess);
    } else {
        assert forall|j: int| 0 <= j < log.len() implies !((#[trigger] log[j]).kind is TotalProcess) by {
            assert(log[j].kind.spec_tag() != KindTag::TotalProcess);
        }
    }
}

} // verus!
