use track_your_day::activity::{
    ActivityEvent, ActivityKind, CpuSnapshot, DiskSnapshot, KindTag, RamSnapshot, Timestamp,
};
use track_your_day::query::{
    find_latest, latest_application, latest_cpu_snapshot, latest_disk_snapshot, latest_process_count,
    latest_ram_snapshot, latest_window_id, latest_wpm,
};
use track_your_day::store::MemoryStore;

fn at(secs: i64, kind: ActivityKind) -> ActivityEvent {
    ActivityEvent { timestamp: Timestamp { secs, nanos: 0 }, kind }
}

fn typing(secs: i64, wpm: u32) -> ActivityEvent {
    at(secs, ActivityKind::TypingSpeed { wpm })
}

fn window(secs: i64, app: &str) -> ActivityEvent {
    at(secs, ActivityKind::ActiveWindow { app: app.to_string(), title: format!("{app} title") })
}

fn cpu(uptime: &str) -> CpuSnapshot {
    CpuSnapshot {
        hard_base_speed: 3600.0f32.to_bits(),
        hard_sockets: 1,
        hard_cores: 8,
        hard_logical_processors: 16,
        hard_virtualization: true,
        hard_l1_cache: 512.0f32.to_bits(),
        hard_l2_cache: 4096.0f32.to_bits(),
        hard_l3_cache: 16384.0f32.to_bits(),
        soft_utilization: 12.5f32.to_bits(),
        soft_speed_clock: 2900.0f32.to_bits(),
        soft_processes: 300,
        soft_threads: 4000,
        soft_handles: 120000,
        soft_uptime: uptime.to_string(),
    }
}

fn ram(slots: u16) -> RamSnapshot {
    RamSnapshot {
        hard_capacity: 16.0f32.to_bits(),
        hard_speed: 3200,
        hard_slots_used: slots,
        hard_form_factor: "DIMM".to_string(),
        soft_hardware_reserve: 0.1f32.to_bits(),
        soft_in_use: 8.0f32.to_bits(),
        soft_available: 7.9f32.to_bits(),
        soft_in_commited: 10.0f32.to_bits(),
        soft_available_commited: 8.0f32.to_bits(),
        soft_cached: 3.0f32.to_bits(),
        soft_page_pool: 0.5f32.to_bits(),
        soft_non_paged_pool: 0.25f32.to_bits(),
    }
}

fn disk(in_use: u32) -> DiskSnapshot {
    DiskSnapshot {
        hard_capacity: 512000,
        hard_formatted: 500000,
        hard_system_disk: true,
        hard_type: "SSD: PhysicalDrive0".to_string(),
        hard_capacity_in_use: in_use,
        soft_read_speed: 1.5f32.to_bits(),
        soft_write_speed: 0.5f32.to_bits(),
        soft_active_time: 3.0f32.to_bits(),
        soft_average_response_time: 0.2f32.to_bits(),
    }
}

#[test]
fn new_store_is_empty() {
    let store = MemoryStore::new();
    assert_eq!(store.len(), 0);
    assert!(store.recent(10).is_empty());
    let store = MemoryStore::default();
    assert!(store.recent(usize::MAX).is_empty());
}

#[test]
fn recent_returns_the_last_events_oldest_first() {
    let mut store = MemoryStore::new();
    for i in 0..5 {
        store.save(typing(i, i as u32 * 10));
    }
    assert_eq!(store.len(), 5);
    assert_eq!(store.recent(2), vec![typing(3, 30), typing(4, 40)]);
    assert_eq!(store.recent(5).len(), 5);
    assert_eq!(store.recent(7), store.recent(5));
    assert!(store.recent(0).is_empty());
    assert_eq!(store.recent(usize::MAX)[0], typing(0, 0));
}

#[test]
fn read_after_write_gives_the_event_back() {
    let mut store = MemoryStore::new();
    store.save(window(1, "editor"));
    let e = typing(2, 55);
    store.save(e.clone());
    assert_eq!(store.recent(1), vec![e]);
}

#[test]
fn latest_readings_of_each_kind() {
    let events = vec![
        typing(1, 40),
        window(2, "browser"),
        at(3, ActivityKind::TotalProcess { process: 210 }),
        typing(4, 62),
        at(5, ActivityKind::WindowId { id: 77 }),
        window(6, "terminal"),
        at(7, ActivityKind::Cpu(cpu("00:10:00"))),
        at(8, ActivityKind::Ram(ram(2))),
        at(9, ActivityKind::Disk(disk(1000))),
        at(10, ActivityKind::Cpu(cpu("00:10:02"))),
    ];
    assert_eq!(latest_wpm(&events), Some(62));
    assert_eq!(latest_application(&events), Some("terminal".to_string()));
    assert_eq!(latest_window_id(&events), Some(77));
    assert_eq!(latest_process_count(&events), Some(210));
    assert_eq!(latest_cpu_snapshot(&events), Some(cpu("00:10:02")));
    assert_eq!(latest_ram_snapshot(&events), Some(ram(2)));
    assert_eq!(latest_disk_snapshot(&events), Some(disk(1000)));
    assert_eq!(find_latest(&events, KindTag::TypingSpeed), Some(3));
    assert_eq!(find_latest(&events, KindTag::Cpu), Some(9));
}

#[test]
fn latest_readings_absent() {
    let events = vec![window(1, "editor"), typing(2, 10)];
    assert_eq!(latest_process_count(&events), None);
    assert_eq!(latest_window_id(&events), None);
    assert_eq!(latest_cpu_snapshot(&events), None);
    assert_eq!(latest_ram_snapshot(&events), None);
    assert_eq!(latest_disk_snapshot(&events), None);
    assert_eq!(latest_wpm(&[]), None);
    assert_eq!(latest_application(&[]), None);
    assert_eq!(find_latest(&[], KindTag::Ram), None);
}

#[test]
fn dashboard_window_of_two_hundred_hides_older_readings() {
    let mut store = MemoryStore::new();
    store.save(typing(0, 99));
    for i in 1..=200 {
        store.save(window(i, "editor"));
    }
    assert_eq!(latest_wpm(&store.recent(200)), None);
    assert_eq!(latest_wpm(&store.recent(201)), Some(99));
    store.save(typing(201, 45));
    assert_eq!(latest_wpm(&store.recent(200)), Some(45));
    assert_eq!(store.recent(usize::MAX).len(), 202);
}

#[test]
fn clones_are_equal() {
    let e = at(3, ActivityKind::Ram(ram(4)));
    assert_eq!(e.clone(), e);
    let d = at(4, ActivityKind::Disk(disk(5)));
    assert_eq!(d.clone(), d);
}
