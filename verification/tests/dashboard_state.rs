use std::collections::VecDeque;
use track_your_day::dashboard::{
    disk_usage_percent, menu_for, push_bounded, push_if_changed, wpm_data_slice, ActiveTab, DashboardState,
    KeyCode, KeyOutcome, KeyPress, PerfMenu, HISTORY_LEN, WINDOW_HISTORY_LEN,
};

fn key(code: KeyCode) -> KeyPress {
    KeyPress { code, control: false }
}

#[test]
fn chart_history_keeps_the_last_samples() {
    let mut h: VecDeque<u64> = VecDeque::new();
    for i in 0..(HISTORY_LEN as u64 + 5) {
        push_bounded(&mut h, i, HISTORY_LEN);
        assert!(h.len() <= HISTORY_LEN);
        assert_eq!(*h.back().unwrap(), i);
    }
    assert_eq!(h.len(), HISTORY_LEN);
    assert_eq!(*h.front().unwrap(), 5);
    assert_eq!(wpm_data_slice(&h), (5..45).collect::<Vec<u64>>());
    assert!(wpm_data_slice(&VecDeque::new()).is_empty());
}

#[test]
fn window_list_skips_repeats() {
    let mut h: VecDeque<String> = VecDeque::new();
    for app in ["a", "a", "b", "b", "a", "c", "d", "e", "f"] {
        push_if_changed(&mut h, app.to_string(), WINDOW_HISTORY_LEN);
    }
    assert_eq!(h, VecDeque::from(vec!["a", "c", "d", "e", "f"].into_iter().map(String::from).collect::<Vec<_>>()));
    push_if_changed(&mut h, "f".to_string(), WINDOW_HISTORY_LEN);
    assert_eq!(h.len(), 5);
    assert_eq!(h.back().unwrap(), "f");
}

#[test]
fn disk_usage_chart_value() {
    assert_eq!(disk_usage_percent(250, 500), 0);
    assert_eq!(disk_usage_percent(500, 500), 100);
    assert_eq!(disk_usage_percent(1000, 500), 200);
    assert_eq!(disk_usage_percent(10, 0), 0);
}

#[test]
fn keys_drive_tabs_and_menu() {
    let mut s = DashboardState::new();
    assert_eq!(s.active_tab, ActiveTab::Activity);
    assert_eq!(s.handle_key(key(KeyCode::Down)), KeyOutcome::Continue);
    assert_eq!(s.current_menu, 0);
    s.handle_key(key(KeyCode::Tab));
    assert_eq!(s.active_tab, ActiveTab::Performance);
    s.handle_key(key(KeyCode::Up));
    assert_eq!((s.current_menu, s.perf_menu), (0, PerfMenu::Cpu));
    for _ in 0..5 {
        s.handle_key(key(KeyCode::Down));
    }
    assert_eq!((s.current_menu, s.perf_menu), (3, PerfMenu::Wifi));
    s.handle_key(key(KeyCode::Up));
    assert_eq!((s.current_menu, s.perf_menu), (2, PerfMenu::Disk));
    s.handle_key(key(KeyCode::Char('x')));
    assert_eq!(s.perf_menu, PerfMenu::Disk);
    s.handle_key(key(KeyCode::Tab));
    assert_eq!(s.active_tab, ActiveTab::Activity);
    assert_eq!(s.current_menu, 2);
}

#[test]
fn quitting_keys() {
    let mut s = DashboardState::new();
    assert_eq!(s.handle_key(key(KeyCode::Char('q'))), KeyOutcome::Quit);
    assert_eq!(s.handle_key(KeyPress { code: KeyCode::Char('q'), control: true }), KeyOutcome::Quit);
    assert_eq!(s.handle_key(KeyPress { code: KeyCode::Char('c'), control: true }), KeyOutcome::Quit);
    assert_eq!(s.handle_key(key(KeyCode::Char('c'))), KeyOutcome::Continue);
    assert_eq!(s.handle_key(KeyPress { code: KeyCode::Other, control: true }), KeyOutcome::Continue);
    assert_eq!(s, DashboardState::new());
}

#[test]
fn menu_positions() {
    assert_eq!(menu_for(0), PerfMenu::Cpu);
    assert_eq!(menu_for(1), PerfMenu::Memory);
    assert_eq!(menu_for(2), PerfMenu::Disk);
    assert_eq!(menu_for(3), PerfMenu::Wifi);
    assert_eq!(menu_for(200), PerfMenu::Wifi);
}

#[test]
fn tab_twice_and_down_up_return_to_the_start() {
    let mut s = DashboardState::new();
    let start = s;
    s.handle_key(key(KeyCode::Tab));
    s.handle_key(KeyPress { code: KeyCode::Tab, control: true });
    assert_eq!(s, start);
    s.handle_key(key(KeyCode::Tab));
    s.handle_key(key(KeyCode::Down));
    let on_memory = s;
    s.handle_key(key(KeyCode::Down));
    s.handle_key(key(KeyCode::Up));
    assert_eq!(s, on_memory);
}
