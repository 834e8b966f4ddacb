//! The decisions of the two watchers.
//!
//! The mutating watcher takes one reading per stage at every tick, in a fixed
//! order, turns it into an event, saves it and announces it.
//! The reacting watcher listens to those announcements and hands each event to
//! its reactor. The waiting, reading, saving and sending are done by the caller;
//! what to do at each step is decided here.
use vstd::prelude::*;
use vstd::string::*;
use crate::activity::{ActivityEvent, ActivityKind, CpuSnapshot, DiskSnapshot, KindTag, RamSnapshot};

verus! {

/// The readings of one tick, in the order they are taken.
#[derive(Debug, Clone, Copy, PartialEq, Eq, Structural)]
pub enum TickStage {
    TypingSpeed,
    ActiveWindow,
    ProcessCount,
    Cpu,
    Ram,
    Disk,
}

/// The stages of a tick in order.
pub open spec fn tick_order() -> Seq<TickStage> {
    seq![
        TickStage::TypingSpeed,
        TickStage::ActiveWindow,
        TickStage::ProcessCount,
        TickStage::Cpu,
        TickStage::Ram,
        TickStage::Disk,
    ]
}

impl TickStage {
    pub open spec fn spec_next(self) -> Option<TickStage> {
        match self {
            TickStage::TypingSpeed => Some(TickStage::ActiveWindow),
            TickStage::ActiveWindow => Some(TickStage::ProcessCount),
            TickStage::ProcessCount => Some(TickStage::Cpu),
            TickStage::Cpu => Some(TickStage::Ram),
            TickStage::Ram => Some(TickStage::Disk),
            TickStage::Disk => None,
        }
    }

    /// The stage a tick starts with.
    pub fn first() -> (stage: TickStage)
        ensures
            stage == tick_order()[0],
    {
        TickStage::TypingSpeed
    }

    /// The stage after this one, `None` after the last stage of a tick.
    pub fn next(self) -> (stage: Option<TickStage>)
        ensures
            stage == self.spec_next(),
    {
        match self {
            TickStage::TypingSpeed => Some(TickStage::ActiveWindow),
            TickStage::ActiveWindow => Some(TickStage::ProcessCount),
            TickStage::ProcessCount => Some(TickStage::Cpu),
            TickStage::Cpu => Some(TickStage::Ram),
            TickStage::Ram => Some(TickStage::Disk),
            TickStage::Disk => None,
        }
    }

    /// Whether the event of this stage is announced to listeners after it is saved:
    /// every new event is announced, whatever the stage.
    pub fn broadcasts(self) -> (announce: bool)
        ensures
            announce == true,
    {
        true
    }

    /// The kind of event this stage records.
    pub open spec fn spec_kind_tag(self) -> KindTag {
        match self {
            TickStage::TypingSpeed => KindTag::TypingSpeed,
            TickStage::ActiveWindow => KindTag::ActiveWindow,
            TickStage::ProcessCount => KindTag::TotalProcess,
            TickStage::Cpu => KindTag::Cpu,
            TickStage::Ram => KindTag::Ram,
            TickStage::Disk => KindTag::Disk,
        }
    }

    /// The reading belongs to this stage.
    pub open spec fn spec_accepts(self, reading: SensorReading) -> bool {
        match self {
            TickStage::TypingSpeed => reading is TypingSpeed,
            TickStage::ActiveWindow => reading is ActiveWindow,
            TickStage::ProcessCount => reading is ProcessCount,
            TickStage::Cpu => reading is Cpu,
            TickStage::Ram => reading is Ram,
            TickStage::Disk => reading is Disk,
        }
    }

    /// The event kind this stage records for `reading`: `None` when the reading
    /// belongs to another stage, else the kind that records it, which is always
    /// of this stage's kind.
    pub fn record(self, reading: SensorReading) -> (kind: Option<ActivityKind>)
        ensures
            kind is Some <==> self.spec_accepts(reading),
            kind matches Some(k) ==> records_reading(k, reading) && k.spec_tag() == self.spec_kind_tag(),
    {
        let accepted = match self {
            TickStage::TypingSpeed => matches!(reading, SensorReading::TypingSpeed(_)),
            TickStage::ActiveWindow => matches!(reading, SensorReading::ActiveWindow(_)),
            TickStage::ProcessCount => matches!(reading, SensorReading::ProcessCount(_)),
            TickStage::Cpu => matches!(reading, SensorReading::Cpu(_)),
            TickStage::Ram => matches!(reading, SensorReading::Ram(_)),
            TickStage::Disk => matches!(reading, SensorReading::Disk(_)),
        };
        if accepted {
            Some(kind_for_reading(reading))
        } else {
            None
        }
    }
}

/// Walking a tick from its first stage by `next` visits the six stages once each,
/// in order, and then stops.
pub proof fn law_tick_visits_every_stage_once()
    ensures
        tick_order().len() == 6,
        forall|i: int, j: int|
            0 <= i < j < tick_order().len() ==> tick_order()[i] != tick_order()[j],
        forall|i: int|
            0 <= i < tick_order().len() - 1 ==> (#[trigger] tick_order()[i]).spec_next() == Some(
                tick_order()[i + 1],
            ),
        tick_order()[tick_order().len() - 1].spec_next() is None,
{
}

/// The foreground window as the OS reports it.
#[derive(Debug, Clone, PartialEq, Eq)]
pub struct WindowInfo {
    /// Name of the program that owns the window.
    pub process_name: String,
    pub title: String,
}

/// What was read at one stage of a tick.
#[derive(Debug, Clone, PartialEq, Eq)]
pub enum SensorReading {
    /// Typing speed over the tick interval, in words per minute.
    TypingSpeed(u32),
    /// The foreground window, or `None` when it could not be read.
    ActiveWindow(Option<WindowInfo>),
    ProcessCount(usize),
    Cpu(CpuSnapshot),
    Ram(RamSnapshot),
    Disk(DiskSnapshot),
}

/// `kind` is the event kind that records `reading`. A window that could not be read
/// is recorded as program `"unknown"` with title `"unknown"`.
pub open spec fn records_reading(kind: ActivityKind, reading: SensorReading) -> bool {
    match reading {
        SensorReading::TypingSpeed(wpm) => kind == ActivityKind::TypingSpeed { wpm },
        SensorReading::ActiveWindow(Some(w)) => kind == ActivityKind::ActiveWindow {
            app: w.process_name,
            title: w.title,
        },
        SensorReading::ActiveWindow(None) => kind matches ActivityKind::ActiveWindow { app, title }
            && app@ == "unknown"@ && title@ == "unknown"@,
        SensorReading::ProcessCount(n) => kind == ActivityKind::TotalProcess { process: n },
        SensorReading::Cpu(s) => kind == ActivityKind::Cpu(s),
        SensorReading::Ram(s) => kind == ActivityKind::Ram(s),
        SensorReading::Disk(s) => kind == ActivityKind::Disk(s),
    }
}

/// Turns a reading into the kind of event that records it.
pub fn kind_for_reading(reading: SensorReading) -> (kind: ActivityKind)
    ensures
        records_reading(kind, reading),
{
    match reading {
        SensorReading::TypingSpeed(wpm) => ActivityKind::TypingSpeed { wpm },
        SensorReading::ActiveWindow(Some(w)) => ActivityKind::ActiveWindow {
            app: w.process_name,
            title: w.title,
        },
        SensorReading::ActiveWindow(None) => ActivityKind::ActiveWindow {
            app: String::from_str("unknown"),
            title: String::from_str("unknown"),
        },
        SensorReading::ProcessCount(n) => ActivityKind::TotalProcess { process: n },
        SensorReading::Cpu(s) => ActivityKind::Cpu(s),
        SensorReading::Ram(s) => ActivityKind::Ram(s),
        SensorReading::Disk(s) => ActivityKind::Disk(s),
    }
}

/// Each stage accepts every reading of its own kind and records it as the event of
/// that reading: a typing speed, the window (or "unknown"), the process count and
/// each snapshot unchanged.
pub proof fn law_each_stage_accepts_its_readings(
    wpm: u32,
    window: Option<WindowInfo>,
    count: usize,
    cpu: CpuSnapshot,
    ram: RamSnapshot,
    disk: DiskSnapshot,
)
    ensures
        TickStage::TypingSpeed.spec_accepts(SensorReading::TypingSpeed(wpm)),
        TickStage::ActiveWindow.spec_accepts(SensorReading::ActiveWindow(window)),
        TickStage::ProcessCount.spec_accepts(SensorReading::ProcessCount(count)),
        TickStage::Cpu.spec_accepts(SensorReading::Cpu(cpu)),
        TickStage::Ram.spec_accepts(SensorReading::Ram(ram)),
        TickStage::Disk.spec_accepts(SensorReading::Disk(disk)),
        records_reading(ActivityKind::TypingSpeed { wpm }, SensorReading::TypingSpeed(wpm)),
        records_reading(ActivityKind::TotalProcess { process: count }, SensorReading::ProcessCount(count)),
        records_reading(ActivityKind::Cpu(cpu), SensorReading::Cpu(cpu)),
        records_reading(ActivityKind::Ram(ram), SensorReading::Ram(ram)),
        records_reading(ActivityKind::Disk(disk), SensorReading::Disk(disk)),
{
}

/// A reading belongs to exactly one stage of a tick.
pub proof fn law_reading_belongs_to_one_stage(reading: SensorReading)
    ensures
        exists|i: int| 0 <= i < tick_order().len() && (#[trigger] tick_order()[i]).spec_accepts(reading),
        forall|i: int, j: int|
            0 <= i < tick_order().len() && 0 <= j < tick_order().len() && (#[trigger] tick_order()[i]).spec_accepts(
                reading,
            ) && (#[trigger] tick_order()[j]).spec_accepts(reading) ==> i == j,
{
    match reading {
        SensorReading::TypingSpeed(_) => assert(tick_order()[0].spec_accepts(reading)),
        SensorReading::ActiveWindow(_) => assert(tick_order()[1].spec_accepts(reading)),
        SensorReading::ProcessCount(_) => assert(tick_order()[2].spec_accepts(reading)),
        SensorReading::Cpu(_) => assert(tick_order()[3].spec_accepts(reading)),
        SensorReading::Ram(_) => assert(tick_order()[4].spec_accepts(reading)),
        SensorReading::Disk(_) => assert(tick_order()[5].spec_accepts(reading)),
    }
}

/// What the reacting watcher's channel delivered.
#[derive(Debug, Clone, PartialEq, Eq)]
pub enum Delivery {
    /// An announced event.
    Event(ActivityEvent),
    /// The listener fell behind and this many events were dropped.
    Lagged(u64),
    /// Every sender is gone.
    Closed,
}

/// What the reacting watcher does next.
#[derive(Debug, Clone, PartialEq, Eq)]
pub enum Reaction {
    /// Hand the event to the reactor, then wait for the next delivery.
    React(ActivityEvent),
    /// Wait for the next delivery.
    Skip,
    /// Stop listening.
    Stop,
}

/// Decides what to do with a delivery: react to events, skip over dropped ones,
/// stop once the channel is closed.
pub fn reaction_for(delivery: Delivery) -> (reaction: Reaction)
    ensures
        match delivery {
            Delivery::Event(e) => reaction == Reaction::React(e),
            Delivery::Lagged(_) => reaction == Reaction::Skip,
            Delivery::Closed => reaction == Reaction::Stop,
        },
{
    match delivery {
        Delivery::Event(e) => Reaction::React(e),
        Delivery::Lagged(_) => Reaction::Skip,
        Delivery::Closed => Reaction::Stop,
    }
}

/// A reactor that writes every announced event to standard output.
#[derive(Debug, Clone, Copy, PartialEq, Eq, Structural)]
pub struct LoggingReactor;

} // verus!
