//! The integer side of a disk reading: device kind, capacities and I/O counter deltas.
use vstd::prelude::*;
use vstd::string::*;
use crate::cpu::sat_diff;

verus! {

/// The kind of storage device being watched, carrying the device's name.
#[derive(Debug, Clone, PartialEq, Eq)]
pub enum TypeDisk {
    SSD(String),
    HDD(String),
}

impl TypeDisk {
    /// The device's name as stored in the variant.
    pub open spec fn device_name(&self) -> Seq<char> {
        match self {
            TypeDisk::SSD(name) => name@,
            TypeDisk::HDD(name) => name@,
        }
    }

    /// The label shown for a disk: its kind, a colon, a space, then its name.
    pub open spec fn spec_name(&self) -> Seq<char> {
        match self {
            TypeDisk::SSD(name) => "SSD: "@ + name@,
            TypeDisk::HDD(name) => "HDD: "@ + name@,
        }
    }

    /// Renders the disk as `"SSD: <name>"` or `"HDD: <name>"`.
    pub fn name(&self) -> (label: String)
        ensures
            label@ == self.spec_name(),
    {
        match self {
            TypeDisk::SSD(name) => String::from_str("SSD: ").concat(name.as_str()),
            TypeDisk::HDD(name) => String::from_str("HDD: ").concat(name.as_str()),
        }
    }
}

/// The kind of disk a seek-penalty query reports: a seek penalty means a spinning disk.
pub fn disk_type_for(incurs_seek_penalty: bool, device: String) -> (kind: TypeDisk)
    ensures
        kind == (if incurs_seek_penalty { TypeDisk::HDD(device) } else { TypeDisk::SSD(device) }),
{
    if incurs_seek_penalty {
        TypeDisk::HDD(device)
    } else {
        TypeDisk::SSD(device)
    }
}

/// Bytes in a mebibyte.
pub const MIB: u64 = 1048576;

/// `q` truncated to 32 bits, as `as u32` does.
pub open spec fn wrap_u32(q: int) -> int {
    q % 0x1_0000_0000
}

/// Whole mebibytes in `bytes`, truncated to 32 bits.
pub fn mib_from_bytes(bytes: u64) -> (mib: u32)
    ensures
        mib == wrap_u32(bytes as int / (MIB as int)),
{
    let q = bytes / MIB;
    assert(q as u32 == q % 0x1_0000_0000) by (bit_vector);
    #[verifier::truncate]
    (q as u32)
}

/// Signed division rounding toward zero, as Rust's `/` does on signed integers.
pub open spec fn div_toward_zero(a: int, b: int) -> int {
    if a >= 0 {
        a / b
    } else {
        -((-a) / b)
    }
}

/// Whole mebibytes in a signed byte length (rounded toward zero), truncated to 32 bits.
pub fn mib_from_length(length: i64) -> (mib: u32)
    ensures
        mib == wrap_u32(div_toward_zero(length as int, MIB as int)),
{
    let q: i64 = if length >= 0 {
        length / 1048576
    } else {
        let magnitude: u64 = (0i128 - (length as i128)) as u64;
        let m: u64 = magnitude / MIB;
        0i64 - (m as i64)
    };
    assert(q as u32 == q % 0x1_0000_0000) by (bit_vector);
    #[verifier::truncate]
    (q as u32)
}

/// Whole mebibytes in use on a volume of `total` bytes with `free` bytes free, truncated to 32 bits.
pub fn mib_in_use(total: u64, free: u64) -> (mib: u32)
    ensures
        mib == wrap_u32(sat_diff(total as int, free as int) / (MIB as int)),
{
    mib_from_bytes(total.saturating_sub(free))
}

/// Cumulative disk-performance counters as the disk reports them.
#[derive(Debug, Clone, Copy, PartialEq, Eq, Structural)]
pub struct DiskPerformance {
    pub bytes_read: i64,
    pub bytes_written: i64,
    /// Time spent reading, in 100-ns ticks.
    pub read_time: i64,
    /// Time spent writing, in 100-ns ticks.
    pub write_time: i64,
    /// Time spent idle, in 100-ns ticks.
    pub idle_time: i64,
    pub read_count: u32,
    pub write_count: u32,
    /// When the counters were read, in 100-ns ticks since boot.
    pub query_time: i64,
}

/// What happened on the disk between two samples. Signed differences are floored at 0;
/// request counts use saturating subtraction.
#[derive(Debug, Clone, Copy, PartialEq, Eq, Structural)]
pub struct DiskActivity {
    /// Length of the interval in 100-ns ticks (always positive).
    pub elapsed: i64,
    pub bytes_read: i64,
    pub bytes_written: i64,
    pub idle_time: i64,
    pub read_time: i64,
    pub write_time: i64,
    pub read_count: u32,
    pub write_count: u32,
}

/// `a - b` floored at 0.
pub open spec fn floor_diff(a: i64, b: i64) -> int {
    if a - b > 0 {
        a - b
    } else {
        0
    }
}

/// The previous disk-performance sample, against which the next one is measured.
#[derive(Debug, Clone, Copy, PartialEq, Eq, Structural)]
pub struct DiskCounters {
    pub last: DiskPerformance,
}

/// A sample with every counter at zero.
pub open spec fn zero_performance() -> DiskPerformance {
    DiskPerformance {
        bytes_read: 0,
        bytes_written: 0,
        read_time: 0,
        write_time: 0,
        idle_time: 0,
        read_count: 0,
        write_count: 0,
        query_time: 0,
    }
}

/// `a - b` fits in an `i64`.
pub open spec fn fits_i64(a: i64, b: i64) -> bool {
    i64::MIN <= a - b <= i64::MAX
}

impl DiskCounters {
    /// Counters before any sample: all zero.
    pub fn new() -> (c: DiskCounters)
        ensures
            c.last == zero_performance(),
    {
        DiskCounters {
            last: DiskPerformance {
                bytes_read: 0,
                bytes_written: 0,
                read_time: 0,
                write_time: 0,
                idle_time: 0,
                read_count: 0,
                write_count: 0,
                query_time: 0,
            },
        }
    }

    /// Every difference that [`DiskCounters::advance`] takes of `s` fits in an `i64`.
    pub open spec fn spec_in_range(self, s: DiskPerformance) -> bool {
        &&& fits_i64(s.query_time, self.last.query_time)
        &&& s.query_time - self.last.query_time > 0 ==> {
            &&& fits_i64(s.bytes_read, self.last.bytes_read)
            &&& fits_i64(s.bytes_written, self.last.bytes_written)
            &&& fits_i64(s.idle_time, self.last.idle_time)
            &&& fits_i64(s.read_time, self.last.read_time)
            &&& fits_i64(s.write_time, self.last.write_time)
        }
    }

    /// What `s` shows against the previous sample: `None` unless time has moved forward.
    pub open spec fn spec_activity(self, s: DiskPerformance) -> Option<DiskActivity> {
        let l = self.last;
        if s.query_time - l.query_time > 0 {
            Some(
                DiskActivity {
                    elapsed: (s.query_time - l.query_time) as i64,
                    bytes_read: floor_diff(s.bytes_read, l.bytes_read) as i64,
                    bytes_written: floor_diff(s.bytes_written, l.bytes_written) as i64,
                    idle_time: floor_diff(s.idle_time, l.idle_time) as i64,
                    read_time: floor_diff(s.read_time, l.read_time) as i64,
                    write_time: floor_diff(s.write_time, l.write_time) as i64,
                    read_count: sat_diff(s.read_count as int, l.read_count as int) as u32,
                    write_count: sat_diff(s.write_count as int, l.write_count as int) as u32,
                },
            )
        } else {
            None
        }
    }

    /// Whether [`DiskCounters::advance`] can take the differences of `s`.
    pub fn in_range(&self, s: &DiskPerformance) -> (ok: bool)
        ensures
            ok == self.spec_in_range(*s),
    {
        let l = &self.last;
        match s.query_time.checked_sub(l.query_time) {
            None => false,
            Some(elapsed) => {
                if elapsed > 0 {
                    s.bytes_read.checked_sub(l.bytes_read).is_some()
                        && s.bytes_written.checked_sub(l.bytes_written).is_some()
                        && s.idle_time.checked_sub(l.idle_time).is_some()
                        && s.read_time.checked_sub(l.read_time).is_some()
                        && s.write_time.checked_sub(l.write_time).is_some()
                } else {
                    true
                }
            },
        }
    }

    /// Measures a new sample against the previous one and keeps it as the new reference.
    pub fn advance(&mut self, s: DiskPerformance) -> (activity: Option<DiskActivity>)
        requires
            old(self).spec_in_range(s),
        ensures
            activity == old(self).spec_activity(s),
            final(self).last == s,
    {
        let l = self.last;
        let elapsed = s.query_time - l.query_time;
        let result = if elapsed > 0 {
            Some(
                DiskActivity {
                    elapsed,
                    bytes_read: floor_at_zero(s.bytes_read - l.bytes_read),
                    bytes_written: floor_at_zero(s.bytes_written - l.bytes_written),
                    idle_time: floor_at_zero(s.idle_time - l.idle_time),
                    read_time: floor_at_zero(s.read_time - l.read_time),
                    write_time: floor_at_zero(s.write_time - l.write_time),
                    read_count: s.read_count.saturating_sub(l.read_count),
                    write_count: s.write_count.saturating_sub(l.write_count),
                },
            )
        } else {
            None
        };
        self.last = s;
        result
    }
}

/// Measuring a sample against itself shows no elapsed time.
pub proof fn law_disk_same_sample_no_activity(s: DiskPerformance)
    ensures
        (DiskCounters { last: s }).spec_in_range(s),
        (DiskCounters { last: s }).spec_activity(s) is None,
{
}

/// Each difference is taken between a counter and the same counter of the previous
/// sample: when no counter went backwards, each field of the activity added to the
/// previous sample's counter gives the new sample's counter.
pub proof fn law_disk_deltas_per_counter(c: DiskCounters, s: DiskPerformance)
    requires
        c.spec_in_range(s),
        s.query_time > c.last.query_time,
        s.bytes_read >= c.last.bytes_read,
        s.bytes_written >= c.last.bytes_written,
        s.idle_time >= c.last.idle_time,
        s.read_time >= c.last.read_time,
        s.write_time >= c.last.write_time,
        s.read_count >= c.last.read_count,
        s.write_count >= c.last.write_count,
    ensures
        c.spec_activity(s) matches Some(a) && {
            &&& c.last.query_time + a.elapsed == s.query_time
            &&& c.last.bytes_read + a.bytes_read == s.bytes_read
            &&& c.last.bytes_written + a.bytes_written == s.bytes_written
            &&& c.last.idle_time + a.idle_time == s.idle_time
            &&& c.last.read_time + a.read_time == s.read_time
            &&& c.last.write_time + a.write_time == s.write_time
            &&& c.last.read_count + a.read_count == s.read_count
            &&& c.last.write_count + a.write_count == s.write_count
        },
{
}

/// A counter that went backwards shows no activity for that counter (0), whatever
/// the other counters did.
pub proof fn law_disk_backwards_counters_floor_at_zero(c: DiskCounters, s: DiskPerformance)
    requires
        c.spec_in_range(s),
        s.query_time > c.last.query_time,
    ensures
        c.spec_activity(s) is Some,
        s.bytes_read <= c.last.bytes_read ==> c.spec_activity(s)->0.bytes_read == 0,
        s.bytes_written <= c.last.bytes_written ==> c.spec_activity(s)->0.bytes_written == 0,
        s.idle_time <= c.last.idle_time ==> c.spec_activity(s)->0.idle_time == 0,
        s.read_time <= c.last.read_time ==> c.spec_activity(s)->0.read_time == 0,
        s.write_time <= c.last.write_time ==> c.spec_activity(s)->0.write_time == 0,
        s.read_count <= c.last.read_count ==> c.spec_activity(s)->0.read_count == 0,
        s.write_count <= c.last.write_count ==> c.spec_activity(s)->0.write_count == 0,
{
}

/// Measuring over two steps adds up to measuring over one: for counters that only
/// grow, the activity from `a` to `b` plus that from `b` to `c` is the activity from
/// `a` to `c`.
pub proof fn law_disk_activity_adds_up(a: DiskPerformance, b: DiskPerformance, c: DiskPerformance)
    requires
        a.query_time < b.query_time < c.query_time,
        a.bytes_read <= b.bytes_read <= c.bytes_read,
        a.bytes_written <= b.bytes_written <= c.bytes_written,
        a.idle_time <= b.idle_time <= c.idle_time,
        a.read_time <= b.read_time <= c.read_time,
        a.write_time <= b.write_time <= c.write_time,
        a.read_count <= b.read_count <= c.read_count,
        a.write_count <= b.write_count <= c.write_count,
        (DiskCounters { last: a }).spec_in_range(c),
    ensures
        ({
            let ab = (DiskCounters { last: a }).spec_activity(b)->0;
            let bc = (DiskCounters { last: b }).spec_activity(c)->0;
            let ac = (DiskCounters { last: a }).spec_activity(c)->0;
            &&& ab.elapsed + bc.elapsed == ac.elapsed
            &&& ab.bytes_read + bc.bytes_read == ac.bytes_read
            &&& ab.bytes_written + bc.bytes_written == ac.bytes_written
            &&& ab.idle_time + bc.idle_time == ac.idle_time
            &&& ab.read_time + bc.read_time == ac.read_time
            &&& ab.write_time + bc.write_time == ac.write_time
            &&& ab.read_count + bc.read_count == ac.read_count
            &&& ab.write_count + bc.write_count == ac.write_count
        }),
{
}

/// Whole mebibytes: for sizes below 2^52 bytes (so the count fits in 32 bits) the
/// result times 2^20 is at most `bytes`, and one more mebibyte is more than `bytes`.
pub proof fn law_mib_is_whole_mebibytes(bytes: u64)
    requires
        bytes < 0x10_0000_0000_0000,
    ensures
        wrap_u32(bytes as int / (MIB as int)) * (MIB as int) <= bytes < (wrap_u32(
            bytes as int / (MIB as int),
        ) + 1) * (MIB as int),
{
    assert(bytes as int / 1048576 < 0x1_0000_0000);
}

fn floor_at_zero(x: i64) -> (y: i64)
    ensures
        y == (if x > 0 { x } else { 0 }),
{
    if x > 0 {
        x
    } else {
        0
    }
}

} // verus!
