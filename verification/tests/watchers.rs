use track_your_day::activity::{ActivityEvent, ActivityKind, Timestamp};
use track_your_day::keyboard::KeyCounter;
use track_your_day::watcher::{
    kind_for_reading, reaction_for, Delivery, LoggingReactor, Reaction, SensorReading, TickStage, WindowInfo,
};

#[test]
fn key_counter_takes_and_resets() {
    let counter = KeyCounter::new();
    assert_eq!(counter.take_and_reset(), 0);
    let listener = counter.clone();
    for _ in 0..7 {
        listener.record_key_press();
    }
    assert_eq!(counter.take_and_reset(), 7);
    assert_eq!(counter.take_and_reset(), 0);
    listener.record_key_press();
    assert_eq!(listener.take_and_reset(), 1);
}

#[test]
fn tick_stages_in_order() {
    let mut stages = Vec::new();
    let mut stage = Some(TickStage::first());
    while let Some(s) = stage {
        stages.push(s);
        stage = s.next();
    }
    assert_eq!(
        stages,
        vec![
            TickStage::TypingSpeed,
            TickStage::ActiveWindow,
            TickStage::ProcessCount,
            TickStage::Cpu,
            TickStage::Ram,
            TickStage::Disk
        ]
    );
    let announced: Vec<bool> = stages.iter().map(|s| s.broadcasts()).collect();
    assert_eq!(announced, vec![true; 6]);
}

#[test]
fn readings_become_events() {
    assert_eq!(
        kind_for_reading(SensorReading::TypingSpeed(60)),
        ActivityKind::TypingSpeed { wpm: 60 }
    );
    assert_eq!(
        kind_for_reading(SensorReading::ActiveWindow(Some(WindowInfo {
            process_name: "code".to_string(),
            title: "main.rs".to_string()
        }))),
        ActivityKind::ActiveWindow { app: "code".to_string(), title: "main.rs".to_string() }
    );
    assert_eq!(
        kind_for_reading(SensorReading::ActiveWindow(None)),
        ActivityKind::ActiveWindow { app: "unknown".to_string(), title: "unknown".to_string() }
    );
    assert_eq!(
        kind_for_reading(SensorReading::ProcessCount(321)),
        ActivityKind::TotalProcess { process: 321 }
    );
}

#[test]
fn reactions_to_deliveries() {
    let e = ActivityEvent { timestamp: Timestamp { secs: 5, nanos: 7 }, kind: ActivityKind::TypingSpeed { wpm: 3 } };
    assert_eq!(reaction_for(Delivery::Event(e.clone())), Reaction::React(e));
    assert_eq!(reaction_for(Delivery::Lagged(12)), Reaction::Skip);
    assert_eq!(reaction_for(Delivery::Closed), Reaction::Stop);
    let _ = LoggingReactor;
}

#[test]
fn each_stage_records_its_own_kind() {
    assert_eq!(
        TickStage::TypingSpeed.record(SensorReading::TypingSpeed(42)),
        Some(ActivityKind::TypingSpeed { wpm: 42 })
    );
    assert_eq!(
        TickStage::ProcessCount.record(SensorReading::ProcessCount(7)),
        Some(ActivityKind::TotalProcess { process: 7 })
    );
    assert_eq!(
        TickStage::ActiveWindow.record(SensorReading::ActiveWindow(None)),
        Some(ActivityKind::ActiveWindow { app: "unknown".to_string(), title: "unknown".to_string() })
    );
    assert_eq!(TickStage::Cpu.record(SensorReading::ProcessCount(7)), None);
    assert_eq!(TickStage::TypingSpeed.record(SensorReading::ActiveWindow(None)), None);
}
