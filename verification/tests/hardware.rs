use track_your_day::cpu::{
    filetime_to_u64, format_uptime, power_query_count, tally_processor_topology, CpuBusy, CpuCounters,
    ProcessorRelation,
};
use track_your_day::disk::{
    disk_type_for, mib_from_bytes, mib_from_length, mib_in_use, DiskActivity, DiskCounters, DiskPerformance,
    TypeDisk,
};

#[test]
fn filetime_halves_join() {
    assert_eq!(filetime_to_u64(0, 0), 0);
    assert_eq!(filetime_to_u64(1, 2), (1u64 << 32) + 2);
    assert_eq!(filetime_to_u64(u32::MAX, u32::MAX), u64::MAX);
}

#[test]
fn cpu_counters_measure_busy_time() {
    let mut c = CpuCounters::new();
    assert!(c.total_fits(1000, 500));
    // first sample is measured against zero
    assert_eq!(c.advance(600, 1000, 500), Some(CpuBusy { busy: 900, total: 1500 }));
    assert_eq!(c, CpuCounters { last_idle: 600, last_kernel: 1000, last_user: 500 });
    // kernel time includes idle time
    assert_eq!(c.advance(700, 1200, 600), Some(CpuBusy { busy: 200, total: 300 }));
    // no time passed
    assert_eq!(c.advance(700, 1200, 600), None);
    // idle grew more than the total: busy floors at zero; counters that went back count as zero
    assert_eq!(c.advance(2000, 1300, 500), Some(CpuBusy { busy: 0, total: 100 }));
    assert_eq!(c.last_user, 500);
}

#[test]
fn cpu_total_that_overflows_is_detected() {
    let c = CpuCounters::new();
    assert!(!c.total_fits(u64::MAX, 1));
    assert!(c.total_fits(u64::MAX, 0));
}

#[test]
fn power_query_asks_for_at_least_one_entry() {
    assert_eq!(power_query_count(0), 1);
    assert_eq!(power_query_count(1), 1);
    assert_eq!(power_query_count(16), 16);
}

#[test]
fn topology_counts_sockets_cores_and_caches() {
    let entries = vec![
        ProcessorRelation::ProcessorPackage,
        ProcessorRelation::ProcessorCore,
        ProcessorRelation::Cache { level: 1, size: 32768 },
        ProcessorRelation::Cache { level: 1, size: 32768 },
        ProcessorRelation::Cache { level: 2, size: 1048576 },
        ProcessorRelation::ProcessorCore,
        ProcessorRelation::Other,
        ProcessorRelation::Cache { level: 3, size: 16777216 },
        ProcessorRelation::Cache { level: 4, size: 1 },
    ];
    let t = tally_processor_topology(&entries).unwrap();
    assert_eq!(t.sockets, 1);
    assert_eq!(t.cores, 2);
    assert_eq!(t.l1_sizes, vec![32768, 32768]);
    assert_eq!(t.l2_sizes, vec![1048576]);
    assert_eq!(t.l3_sizes, vec![16777216]);
    let empty = tally_processor_topology(&[]).unwrap();
    assert_eq!((empty.sockets, empty.cores), (0, 0));
}

#[test]
fn topology_counts_that_do_not_fit() {
    let packages = vec![ProcessorRelation::ProcessorPackage; 255];
    assert_eq!(tally_processor_topology(&packages).unwrap().sockets, 255);
    let packages = vec![ProcessorRelation::ProcessorPackage; 256];
    assert!(tally_processor_topology(&packages).is_none());
    let cores = vec![ProcessorRelation::ProcessorCore; 65536];
    assert!(tally_processor_topology(&cores).is_none());
}

#[test]
fn uptime_text() {
    assert_eq!(format_uptime(0), "00:00:00");
    assert_eq!(format_uptime(999), "00:00:00");
    assert_eq!(format_uptime(3_723_000), "01:02:03");
    assert_eq!(format_uptime(86_399_999), "23:59:59");
    assert_eq!(format_uptime(360_000_000), "100:00:00");
    assert_eq!(format_uptime(u64::MAX), format!("{}:{:02}:{:02}", u64::MAX / 1000 / 3600, (u64::MAX / 1000 % 3600) / 60, u64::MAX / 1000 % 60));
}

#[test]
fn disk_names() {
    assert_eq!(TypeDisk::SSD("PhysicalDrive0".to_string()).name(), "SSD: PhysicalDrive0");
    assert_eq!(TypeDisk::HDD("Unknown".to_string()).name(), "HDD: Unknown");
    assert_eq!(disk_type_for(true, "d".to_string()), TypeDisk::HDD("d".to_string()));
    assert_eq!(disk_type_for(false, "d".to_string()), TypeDisk::SSD("d".to_string()));
}

#[test]
fn mebibyte_conversions() {
    assert_eq!(mib_from_bytes(0), 0);
    assert_eq!(mib_from_bytes(1048575), 0);
    assert_eq!(mib_from_bytes(512 * 1048576 + 7), 512);
    assert_eq!(mib_from_bytes(u64::MAX), ((u64::MAX / 1048576) as u32));
    assert_eq!(mib_from_length(256_060_514_304), (256_060_514_304i64 / 1048576) as u32);
    assert_eq!(mib_from_length(-1), 0);
    assert_eq!(mib_from_length(-3 * 1048576 - 5), (-3i64) as u32);
    assert_eq!(mib_from_length(i64::MIN), (i64::MIN / 1048576) as u32);
    assert_eq!(mib_in_use(10 * 1048576, 4 * 1048576), 6);
    assert_eq!(mib_in_use(1048576, 2 * 1048576), 0);
}

fn sample(q: i64, read: i64, idle: i64, reads: u32) -> DiskPerformance {
    DiskPerformance {
        bytes_read: read,
        bytes_written: read / 2,
        read_time: 10 * reads as i64,
        write_time: 5,
        idle_time: idle,
        read_count: reads,
        write_count: 1,
        query_time: q,
    }
}

#[test]
fn disk_counters_measure_activity() {
    let mut c = DiskCounters::new();
    let s1 = sample(10_000_000, 1_000, 4_000_000, 3);
    assert!(c.in_range(&s1));
    let a = c.advance(s1).unwrap();
    assert_eq!(a.elapsed, 10_000_000);
    assert_eq!(c.last, s1);
    let s2 = sample(20_000_000, 3_000, 9_000_000, 5);
    assert_eq!(
        c.advance(s2),
        Some(DiskActivity {
            elapsed: 10_000_000,
            bytes_read: 2_000,
            bytes_written: 1_000,
            idle_time: 5_000_000,
            read_time: 20,
            write_time: 0,
            read_count: 2,
            write_count: 0,
        })
    );
    // counters that went backwards floor at zero
    let s3 = sample(30_000_000, 100, 1, 1);
    let a = c.advance(s3).unwrap();
    assert_eq!((a.bytes_read, a.idle_time, a.read_count), (0, 0, 0));
    // the clock did not move: nothing measured, but the sample is kept
    let s4 = sample(30_000_000, 5_000, 2, 9);
    assert_eq!(c.advance(s4), None);
    assert_eq!(c.last, s4);
}

#[test]
fn disk_differences_that_overflow_are_detected() {
    let mut c = DiskCounters::new();
    c.advance(sample(i64::MAX, 0, 0, 0));
    assert!(!c.in_range(&sample(-2, 0, 0, 0)));
    assert!(c.in_range(&sample(-1, 0, 0, 0)));
    let mut c = DiskCounters::new();
    c.advance(sample(1, i64::MIN, 0, 0));
    assert!(!c.in_range(&sample(2, 1, 0, 0)));
    // with no elapsed time the other counters are not compared
    assert!(c.in_range(&sample(1, 1, 0, 0)));
}

#[test]
fn the_same_disk_sample_twice_shows_no_activity() {
    let mut c = DiskCounters::new();
    let s = sample(42, 1, 2, 3);
    c.advance(s);
    assert!(c.in_range(&s));
    assert_eq!(c.advance(s), None);
}
