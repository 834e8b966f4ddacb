//! The dashboard's own state: the short histories behind its charts, the
//! window list, and which tab and utility panel are selected.
use std::collections::VecDeque;
use vstd::prelude::*;

verus! {

/// Number of samples kept for each chart.
pub const HISTORY_LEN: usize = 40;

/// Number of recent foreground programs kept.
pub const WINDOW_HISTORY_LEN: usize = 5;

/// `h` after appending `v` to a history that holds `cap` entries: once full, the
/// oldest entry makes room.
pub open spec fn spec_push_bounded<T>(h: Seq<T>, v: T, cap: int) -> Seq<T> {
    if h.len() == cap && h.len() > 0 {
        h.drop_first().push(v)
    } else {
        h.push(v)
    }
}

/// Appends `value`, first dropping the oldest entry when the history already holds `capacity`.
pub fn push_bounded<T>(history: &mut VecDeque<T>, value: T, capacity: usize)
    ensures
        final(history)@ == spec_push_bounded(old(history)@, value, capacity as int),
{
    if history.len() == capacity {
        let _ = history.pop_front();
    }
    history.push_back(value);
    proof {
        let h = old(history)@;
        if h.len() == capacity && h.len() > 0 {
            assert(h.subrange(1, h.len() as int) =~= h.drop_first());
        }
    }
}

/// `h` after offering `v`: unchanged when `v` equals the newest entry, else `v` is pushed.
pub open spec fn spec_push_if_changed(h: Seq<String>, v: String, cap: int) -> Seq<String> {
    if h.len() > 0 && h.last()@ == v@ {
        h
    } else {
        spec_push_bounded(h, v, cap)
    }
}

/// Records `value` unless it equals the newest entry, keeping at most `capacity` entries.
pub fn push_if_changed(history: &mut VecDeque<String>, value: String, capacity: usize)
    ensures
        final(history)@ == spec_push_if_changed(old(history)@, value, capacity as int),
{
    let n = history.len();
    if n > 0 && history[n - 1] == value {
        return;
    }
    push_bounded(history, value, capacity);
}

/// The samples of a chart history, oldest first.
pub fn wpm_data_slice(history: &VecDeque<u64>) -> (data: Vec<u64>)
    ensures
        data@ == history@,
{
    let mut data: Vec<u64> = Vec::new();
    let mut i: usize = 0;
    while i < history.len()
        invariant
            i <= history@.len(),
            data@ == history@.subrange(0, i as int),
        decreases history@.len() - i,
    {
        data.push(history[i]);
        i = i + 1;
        assert(data@ =~= history@.subrange(0, i as int));
    }
    assert(history@.subrange(0, history@.len() as int) =~= history@);
    data
}

/// Chart value for disk usage: the whole-number ratio of space in use to capacity,
/// times 100 (so 0 until the disk is full), and 0 for an unknown capacity.
pub open spec fn spec_disk_usage_percent(in_use: u32, capacity: u32) -> int {
    if capacity > 0 {
        (in_use / capacity) * 100
    } else {
        0
    }
}

/// The disk-usage chart value; see [`spec_disk_usage_percent`].
pub fn disk_usage_percent(in_use: u32, capacity: u32) -> (percent: u64)
    requires
        capacity == 0 || (in_use / capacity) * 100 <= u32::MAX,
    ensures
        percent == spec_disk_usage_percent(in_use, capacity),
{
    if capacity > 0 {
        ((in_use / capacity) * 100) as u64
    } else {
        0
    }
}

/// The dashboard's tabs.
#[derive(Debug, Clone, Copy, PartialEq, Eq, Structural)]
pub enum ActiveTab {
    Activity,
    Performance,
}

/// The utilities listed on the performance tab, top to bottom.
#[derive(Debug, Clone, Copy, PartialEq, Eq, Structural)]
pub enum PerfMenu {
    Cpu,
    Memory,
    Disk,
    Wifi,
}

pub open spec fn spec_menu_for(index: u8) -> PerfMenu {
    if index == 0 {
        PerfMenu::Cpu
    } else if index == 1 {
        PerfMenu::Memory
    } else if index == 2 {
        PerfMenu::Disk
    } else {
        PerfMenu::Wifi
    }
}

/// The utility at a position of the list (positions past the end select the last).
pub fn menu_for(index: u8) -> (menu: PerfMenu)
    ensures
        menu == spec_menu_for(index),
{
    if index == 0 {
        PerfMenu::Cpu
    } else if index == 1 {
        PerfMenu::Memory
    } else if index == 2 {
        PerfMenu::Disk
    } else {
        PerfMenu::Wifi
    }
}

/// The keys the dashboard tells apart.
#[derive(Debug, Clone, Copy, PartialEq, Eq, Structural)]
pub enum KeyCode {
    Char(char),
    Tab,
    Up,
    Down,
    Other,
}

/// A key press and whether Control was held.
#[derive(Debug, Clone, Copy, PartialEq, Eq, Structural)]
pub struct KeyPress {
    pub code: KeyCode,
    pub control: bool,
}

/// Whether the dashboard keeps running after a key.
#[derive(Debug, Clone, Copy, PartialEq, Eq, Structural)]
pub enum KeyOutcome {
    Quit,
    Continue,
}

/// Which tab and which utility are selected.
#[derive(Debug, Clone, Copy, PartialEq, Eq, Structural)]
pub struct DashboardState {
    pub active_tab: ActiveTab,
    pub perf_menu: PerfMenu,
    /// Position of the selected utility in the list, 0 to 3.
    pub current_menu: u8,
}

/// `q`, or `c` with Control, ends the dashboard.
pub open spec fn spec_quits(key: KeyPress) -> bool {
    key.code == KeyCode::Char('q') || (key.code == KeyCode::Char('c') && key.control)
}

impl DashboardState {
    /// The selected utility is the one at the selected position, and the position is on the list.
    pub open spec fn wf(self) -> bool {
        &&& self.current_menu <= 3
        &&& self.perf_menu == spec_menu_for(self.current_menu)
    }

    /// The state after a key that does not quit: Tab switches tab; on the performance
    /// tab Up and Down move the selection within the list; every key then selects the
    /// utility at the selected position.
    pub open spec fn spec_after(self, key: KeyPress) -> DashboardState {
        let tab = if key.code == KeyCode::Tab {
            if self.active_tab == ActiveTab::Activity {
                ActiveTab::Performance
            } else {
                ActiveTab::Activity
            }
        } else {
            self.active_tab
        };
        let menu = if key.code == KeyCode::Up && self.active_tab == ActiveTab::Performance
            && self.current_menu > 0 {
            (self.current_menu - 1) as u8
        } else if key.code == KeyCode::Down && self.active_tab == ActiveTab::Performance
            && self.current_menu < 3 {
            (self.current_menu + 1) as u8
        } else {
            self.current_menu
        };
        DashboardState { active_tab: tab, perf_menu: spec_menu_for(menu), current_menu: menu }
    }

    /// The state when the dashboard opens: activity tab, first utility selected.
    pub fn new() -> (state: DashboardState)
        ensures
            state == (DashboardState {
                active_tab: ActiveTab::Activity,
                perf_menu: PerfMenu::Cpu,
                current_menu: 0,
            }),
            state.wf(),
    {
        DashboardState { active_tab: ActiveTab::Activity, perf_menu: PerfMenu::Cpu, current_menu: 0 }
    }

    /// Applies a key press. Returns `Quit`, leaving the state as it was, exactly for
    /// the quitting keys.
    pub fn handle_key(&mut self, key: KeyPress) -> (outcome: KeyOutcome)
        ensures
            (outcome == KeyOutcome::Quit) == spec_quits(key),
            spec_quits(key) ==> *final(self) == *old(self),
            !spec_quits(key) ==> *final(self) == old(self).spec_after(key),
    {
        match key.code {
            KeyCode::Char(c) => {
                if c == 'q' || (c == 'c' && key.control) {
                    return KeyOutcome::Quit;
                }
            },
            KeyCode::Tab => {
                self.active_tab = match self.active_tab {
                    ActiveTab::Activity => ActiveTab::Performance,
                    ActiveTab::Performance => ActiveTab::Activity,
                };
            },
            KeyCode::Up => {
                if self.active_tab == ActiveTab::Performance && self.current_menu > 0 {
                    self.current_menu = self.current_menu - 1;
                }
            },
            KeyCode::Down => {
                if self.active_tab == ActiveTab::Performance && self.current_menu < 3 {
                    self.current_menu = self.current_menu + 1;
                }
            },
            KeyCode::Other => {},
        }
        self.perf_menu = menu_for(self.current_menu);
        KeyOutcome::Continue
    }
}

/// Every key keeps the selection on the list and in step with the selected utility.
pub proof fn law_keys_keep_state_well_formed(s: DashboardState, key: KeyPress)
    requires
        s.wf(),
    ensures
        s.spec_after(key).wf(),
{
}

/// Tab pressed twice returns to the same state.
pub proof fn law_tab_twice_is_identity(s: DashboardState, control1: bool, control2: bool)
    requires
        s.wf(),
    ensures
        s.spec_after(KeyPress { code: KeyCode::Tab, control: control1 }).spec_after(
            KeyPress { code: KeyCode::Tab, control: control2 },
        ) == s,
{
}

/// On the performance tab, Up undoes Down wherever Down moved the selection.
pub proof fn law_up_undoes_down(s: DashboardState, control1: bool, control2: bool)
    requires
        s.wf(),
        s.active_tab == ActiveTab::Performance,
        s.current_menu < 3,
    ensures
        s.spec_after(KeyPress { code: KeyCode::Down, control: control1 }).spec_after(
            KeyPress { code: KeyCode::Up, control: control2 },
        ) == s,
{
}

/// On the activity tab the arrow keys change nothing.
pub proof fn law_arrows_ignored_on_activity_tab(s: DashboardState, key: KeyPress)
    requires
        s.wf(),
        s.active_tab == ActiveTab::Activity,
        key.code == KeyCode::Up || key.code == KeyCode::Down,
    ensures
        s.spec_after(key) == s,
{
}

/// A chart history never grows past its capacity, its newest sample is the one just
/// pushed, and it is the tail of the old history followed by that sample.
pub proof fn law_bounded_history<T>(h: Seq<T>, v: T, cap: int)
    requires
        1 <= cap,
        h.len() <= cap,
    ensures
        spec_push_bounded(h, v, cap).len() <= cap,
        spec_push_bounded(h, v, cap).last() == v,
        spec_push_bounded(h, v, cap) == h.push(v).subrange(
            h.push(v).len() - spec_push_bounded(h, v, cap).len(),
            h.push(v).len() as int,
        ),
{
    let r = spec_push_bounded(h, v, cap);
    assert(r =~= h.push(v).subrange(h.push(v).len() - r.len(), h.push(v).len() as int));
}

/// No two neighbouring entries of the window list name the same program.
pub open spec fn no_repeats(h: Seq<String>) -> bool {
    forall|i: int| 0 <= i < h.len() - 1 ==> (#[trigger] h[i])@ != h[i + 1]@
}

/// Offering programs to the window list never puts the same program twice in a row.
pub proof fn law_window_list_has_no_repeats(h: Seq<String>, v: String, cap: int)
    requires
        no_repeats(h),
    ensures
        no_repeats(spec_push_if_changed(h, v, cap)),
{
    let r = spec_push_if_changed(h, v, cap);
    if !(h.len() > 0 && h.last()@ == v@) {
        if h.len() == cap && h.len() > 0 {
            assert forall|i: int| 0 <= i < r.len() - 1 implies (#[trigger] r[i])@ != r[i + 1]@ by {
                assert(r[i] == h[i + 1]);
                if i + 1 < r.len() - 1 {
                    assert(r[i + 1] == h[i + 2]);
                } else {
                    assert(r[i + 1] == v);
                }
            }
        } else {
            assert forall|i: int| 0 <= i < r.len() - 1 implies (#[trigger] r[i])@ != r[i + 1]@ by {
                assert(r[i] == h[i]);
                if i + 1 < r.len() - 1 {
                    assert(r[i + 1] == h[i + 1]);
                } else {
                    assert(r[i + 1] == v);
                }
            }
        }
    }
}

/// The window list records every change of program: a program other than the newest
/// entry becomes the newest entry, and the program already newest leaves the list as it is.
pub proof fn law_window_list_records_changes(h: Seq<String>, v: String, cap: int)
    requires
        1 <= cap,
        h.len() <= cap,
    ensures
        spec_push_if_changed(h, v, cap).len() <= cap,
        spec_push_if_changed(h, v, cap).len() > 0,
        spec_push_if_changed(h, v, cap).last()@ == v@,
        (h.len() > 0 && h.last()@ == v@) ==> spec_push_if_changed(h, v, cap) == h,
        !(h.len() > 0 && h.last()@ == v@) ==> spec_push_if_changed(h, v, cap).last() == v,
{
}

} // verus!
