//! The records that the watchers produce: one event per reading, each with the
//! moment it was taken and what was read.
//!
//! Fractional hardware figures (clock speeds, cache sizes, gigabytes, rates,
//! percentages) are single-precision numbers. They travel through the library
//! unchanged, held as their IEEE 754 bit patterns (`f32::to_bits`), and are
//! turned back into numbers (`f32::from_bits`) where they are shown.
use vstd::prelude::*;

verus! {

/// A moment in UTC: whole seconds since the Unix epoch and the nanoseconds past that second.
#[derive(Debug, Clone, Copy, PartialEq, Eq, Structural)]
pub struct Timestamp {
    pub secs: i64,
    pub nanos: u32,
}

/// CPU figures at one moment. Fields named `hard_*` describe the hardware,
/// `soft_*` the live load. Fractional figures are `f32` bit patterns.
#[derive(Debug, PartialEq, Eq)]
pub struct CpuSnapshot {
    /// Base clock (MHz), `f32` bits.
    pub hard_base_speed: u32,
    pub hard_sockets: u8,
    pub hard_cores: u16,
    pub hard_logical_processors: u8,
    pub hard_virtualization: bool,
    /// L1 cache (KB), `f32` bits.
    pub hard_l1_cache: u32,
    /// L2 cache (KB), `f32` bits.
    pub hard_l2_cache: u32,
    /// L3 cache (KB), `f32` bits.
    pub hard_l3_cache: u32,
    /// Utilization (percent), `f32` bits.
    pub soft_utilization: u32,
    /// Current clock (MHz), `f32` bits.
    pub soft_speed_clock: u32,
    pub soft_processes: u32,
    pub soft_threads: u32,
    pub soft_handles: u64,
    /// Time since boot as `HH:MM:SS`.
    pub soft_uptime: String,
}

impl Clone for CpuSnapshot {
    fn clone(&self) -> (copy: Self)
        ensures
            copy == *self,
    {
        CpuSnapshot {
            hard_base_speed: self.hard_base_speed,
            hard_sockets: self.hard_sockets,
            hard_cores: self.hard_cores,
            hard_logical_processors: self.hard_logical_processors,
            hard_virtualization: self.hard_virtualization,
            hard_l1_cache: self.hard_l1_cache,
            hard_l2_cache: self.hard_l2_cache,
            hard_l3_cache: self.hard_l3_cache,
            soft_utilization: self.soft_utilization,
            soft_speed_clock: self.soft_speed_clock,
            soft_processes: self.soft_processes,
            soft_threads: self.soft_threads,
            soft_handles: self.soft_handles,
            soft_uptime: self.soft_uptime.clone(),
        }
    }
}

/// Memory figures at one moment. Sizes in GB are `f32` bit patterns.
#[derive(Debug, PartialEq, Eq)]
pub struct RamSnapshot {
    /// Installed memory (GB), `f32` bits.
    pub hard_capacity: u32,
    /// Mean configured module speed (MHz).
    pub hard_speed: u32,
    pub hard_slots_used: u16,
    pub hard_form_factor: String,
    /// Installed but not visible to the OS (GB), `f32` bits.
    pub soft_hardware_reserve: u32,
    /// In use (GB), `f32` bits.
    pub soft_in_use: u32,
    /// Available (GB), `f32` bits.
    pub soft_available: u32,
    /// Committed (GB), `f32` bits.
    pub soft_in_commited: u32,
    /// Commit still available (GB), `f32` bits.
    pub soft_available_commited: u32,
    /// System cache (GB), `f32` bits.
    pub soft_cached: u32,
    /// Paged pool (GB), `f32` bits.
    pub soft_page_pool: u32,
    /// Non-paged pool (GB), `f32` bits.
    pub soft_non_paged_pool: u32,
}

impl Clone for RamSnapshot {
    fn clone(&self) -> (copy: Self)
        ensures
            copy == *self,
    {
        RamSnapshot {
            hard_capacity: self.hard_capacity,
            hard_speed: self.hard_speed,
            hard_slots_used: self.hard_slots_used,
            hard_form_factor: self.hard_form_factor.clone(),
            soft_hardware_reserve: self.soft_hardware_reserve,
            soft_in_use: self.soft_in_use,
            soft_available: self.soft_available,
            soft_in_commited: self.soft_in_commited,
            soft_available_commited: self.soft_available_commited,
            soft_cached: self.soft_cached,
            soft_page_pool: self.soft_page_pool,
            soft_non_paged_pool: self.soft_non_paged_pool,
        }
    }
}

/// Disk figures at one moment. Sizes are in MB; rates and times are `f32` bit patterns.
#[derive(Debug, PartialEq, Eq)]
pub struct DiskSnapshot {
    pub hard_capacity: u32,
    pub hard_formatted: u32,
    pub hard_system_disk: bool,
    pub hard_type: String,
    pub hard_capacity_in_use: u32,
    /// Read rate (MB/s), `f32` bits.
    pub soft_read_speed: u32,
    /// Write rate (MB/s), `f32` bits.
    pub soft_write_speed: u32,
    /// Busy share of the interval (percent), `f32` bits.
    pub soft_active_time: u32,
    /// Mean time per request (ms), `f32` bits.
    pub soft_average_response_time: u32,
}

impl Clone for DiskSnapshot {
    fn clone(&self) -> (copy: Self)
        ensures
            copy == *self,
    {
        DiskSnapshot {
            hard_capacity: self.hard_capacity,
            hard_formatted: self.hard_formatted,
            hard_system_disk: self.hard_system_disk,
            hard_type: self.hard_type.clone(),
            hard_capacity_in_use: self.hard_capacity_in_use,
            soft_read_speed: self.soft_read_speed,
            soft_write_speed: self.soft_write_speed,
            soft_active_time: self.soft_active_time,
            soft_average_response_time: self.soft_average_response_time,
        }
    }
}

/// What was read.
#[derive(Debug, PartialEq, Eq)]
pub enum ActivityKind {
    /// The foreground window: the program that owns it and its title.
    ActiveWindow { app: String, title: String },
    /// Typing speed over the last interval, in words per minute.
    TypingSpeed { wpm: u32 },
    /// Number of running processes.
    TotalProcess { process: usize },
    /// Identifier of the foreground window.
    WindowId { id: usize },
    Cpu(CpuSnapshot),
    Ram(RamSnapshot),
    Disk(DiskSnapshot),
}

impl Clone for ActivityKind {
    fn clone(&self) -> (copy: Self)
        ensures
            copy == *self,
    {
        match self {
            ActivityKind::ActiveWindow { app, title } => ActivityKind::ActiveWindow {
                app: app.clone(),
                title: title.clone(),
            },
            ActivityKind::TypingSpeed { wpm } => ActivityKind::TypingSpeed { wpm: *wpm },
            ActivityKind::TotalProcess { process } => ActivityKind::TotalProcess { process: *process },
            ActivityKind::WindowId { id } => ActivityKind::WindowId { id: *id },
            ActivityKind::Cpu(s) => ActivityKind::Cpu(s.clone()),
            ActivityKind::Ram(s) => ActivityKind::Ram(s.clone()),
            ActivityKind::Disk(s) => ActivityKind::Disk(s.clone()),
        }
    }
}

/// Which variant an [`ActivityKind`] is, without its data.
#[derive(Debug, Clone, Copy, PartialEq, Eq, Structural)]
pub enum KindTag {
    ActiveWindow,
    TypingSpeed,
    TotalProcess,
    WindowId,
    Cpu,
    Ram,
    Disk,
}

impl ActivityKind {
    pub open spec fn spec_tag(&self) -> KindTag {
        match self {
            ActivityKind::ActiveWindow { .. } => KindTag::ActiveWindow,
            ActivityKind::TypingSpeed { .. } => KindTag::TypingSpeed,
            ActivityKind::TotalProcess { .. } => KindTag::TotalProcess,
            ActivityKind::WindowId { .. } => KindTag::WindowId,
            ActivityKind::Cpu(..) => KindTag::Cpu,
            ActivityKind::Ram(..) => KindTag::Ram,
            ActivityKind::Disk(..) => KindTag::Disk,
        }
    }

    /// The variant of this kind.
    pub fn tag(&self) -> (tag: KindTag)
        ensures
            tag == self.spec_tag(),
    {
        match self {
            ActivityKind::ActiveWindow { .. } => KindTag::ActiveWindow,
            ActivityKind::TypingSpeed { .. } => KindTag::TypingSpeed,
            ActivityKind::TotalProcess { .. } => KindTag::TotalProcess,
            ActivityKind::WindowId { .. } => KindTag::WindowId,
            ActivityKind::Cpu(..) => KindTag::Cpu,
            ActivityKind::Ram(..) => KindTag::Ram,
            ActivityKind::Disk(..) => KindTag::Disk,
        }
    }
}

/// One recorded reading.
#[derive(Debug, PartialEq, Eq)]
pub struct ActivityEvent {
    pub timestamp: Timestamp,
    pub kind: ActivityKind,
}

impl Clone for ActivityEvent {
    fn clone(&self) -> (copy: Self)
        ensures
            copy == *self,
    {
        ActivityEvent { timestamp: self.timestamp, kind: self.kind.clone() }
    }
}

} // verus!
