use status_line::block::{Block, Color, Section, Theme, ThemeHue};
use status_line::compose::fill_suffix;
use status_line::state::{
    DateTime, Event, HostAction, InputMode, ModeSnapshot, State, Tab,
};

fn theme() -> Theme {
    Theme {
        fg: Color::EightBit(1),
        bg: Color::EightBit(2),
        black: Color::EightBit(16),
        red: Color::EightBit(9),
        white: Color::EightBit(15),
        hue: ThemeHue::Dark,
    }
}

fn snapshot(name: Option<&str>, mode: InputMode) -> ModeSnapshot {
    ModeSnapshot { session_name: name.map(|s| s.to_string()), mode, theme: theme() }
}

fn tab(position: usize, name: &str, active: bool) -> Tab {
    Tab { position, name: name.to_string(), active }
}

fn five_tabs(active: usize) -> Vec<Tab> {
    (0..5).map(|i| tab(i, &format!("tab{}", i), i + 1 == active)).collect()
}

fn blk(body: &str, len: usize, tab_index: Option<usize>) -> Block {
    Block { body: body.to_string(), len, tab_index }
}

fn section(blocks: Vec<Block>) -> Section {
    Section::from_blocks(blocks).expect("widths fit")
}

fn state_with_tabs(active: usize) -> State {
    let mut st = State::default();
    st.mode_info = snapshot(Some("main"), InputMode::Normal);
    let (rendered, action) = st.update(Event::TabUpdate(five_tabs(active)));
    assert!(rendered);
    assert_eq!(action, HostAction::Nothing);
    st
}

#[test]
fn default_state_is_empty() {
    let st = State::default();
    assert!(st.tabs.is_empty());
    assert_eq!(st.active_tab_idx, 0);
    assert_eq!(st.mouse_click_pos, 0);
    assert!(!st.should_change_tab);
    assert_eq!(st.mode_info.session_name, None);
}

#[test]
fn mode_update_suppresses_identical_snapshot() {
    let mut st = State::default();
    let (first, _) = st.update(Event::ModeUpdate(snapshot(Some("s"), InputMode::Pane)));
    assert!(first);
    let (second, _) = st.update(Event::ModeUpdate(snapshot(Some("s"), InputMode::Pane)));
    assert!(!second);
    let (third, _) = st.update(Event::ModeUpdate(snapshot(Some("s"), InputMode::Tab)));
    assert!(third);
    let (fourth, _) = st.update(Event::ModeUpdate(snapshot(None, InputMode::Tab)));
    assert!(fourth);
}

#[test]
fn tab_update_sets_one_based_active_index() {
    let mut st = State::default();
    let (rendered, _) = st.update(Event::TabUpdate(five_tabs(3)));
    assert!(rendered);
    assert_eq!(st.active_tab_idx, 3);
    assert_eq!(st.tabs.len(), 5);
    // The same snapshot again changes nothing that needs a render.
    let (again, _) = st.update(Event::TabUpdate(five_tabs(3)));
    assert!(!again);
}

#[test]
fn tab_update_without_active_is_ignored() {
    let mut st = State::default();
    let mut ts = five_tabs(3);
    for t in ts.iter_mut() {
        t.active = false;
    }
    let (rendered, action) = st.update(Event::TabUpdate(ts));
    assert!(!rendered);
    assert_eq!(action, HostAction::Nothing);
    assert!(st.tabs.is_empty());
    assert_eq!(st.active_tab_idx, 0);
}

#[test]
fn scroll_up_clamped_at_tab_count() {
    let mut st = state_with_tabs(5);
    let (rendered, action) = st.update(Event::ScrollUp);
    assert!(rendered);
    assert_eq!(action, HostAction::SwitchTab(5));
}

#[test]
fn scroll_down_clamped_at_one() {
    let mut st = state_with_tabs(1);
    let (rendered, action) = st.update(Event::ScrollDown);
    assert!(rendered);
    assert_eq!(action, HostAction::SwitchTab(1));
}

#[test]
fn scroll_moves_within_range() {
    let mut st = state_with_tabs(3);
    let (_, up) = st.update(Event::ScrollUp);
    assert_eq!(up, HostAction::SwitchTab(4));
    let (_, down) = st.update(Event::ScrollDown);
    assert_eq!(down, HostAction::SwitchTab(2));
}

#[test]
fn left_click_arms_only_on_new_column() {
    let mut st = state_with_tabs(1);
    let (first, _) = st.update(Event::LeftClick(7));
    assert!(first);
    assert!(st.should_change_tab);
    assert_eq!(st.mouse_click_pos, 7);
    st.should_change_tab = false;
    let (second, _) = st.update(Event::LeftClick(7));
    assert!(!second);
    assert!(!st.should_change_tab);
}

#[test]
fn timer_rerenders_only_on_time_change() {
    let mut st = State::default();
    let t1 = DateTime { year: 2024, month: 5, day: 1, hour: 10, minute: 0, second: 0 };
    let (first, action) = st.update(Event::TimerFired(t1));
    assert!(first);
    assert_eq!(action, HostAction::ArmTimer);
    let (second, action2) = st.update(Event::TimerFired(t1));
    assert!(!second);
    assert_eq!(action2, HostAction::ArmTimer);
}

#[test]
fn permission_events() {
    let mut st = State::default();
    let (rendered, action) = st.update(Event::PermissionGranted);
    assert!(!rendered);
    assert_eq!(action, HostAction::SetSelectable(false));
    let (rendered2, action2) = st.update(Event::PermissionDenied);
    assert!(!rendered2);
    assert_eq!(action2, HostAction::Nothing);
    let (rendered3, action3) = st.update(Event::Unknown);
    assert!(!rendered3);
    assert_eq!(action3, HostAction::Nothing);
}

fn plain_sections() -> (Section, Section, Section, Section, Section) {
    let mode = section(vec![blk("[M]", 3, None)]);
    let layout = section(vec![blk("[L]", 3, None)]);
    let tabs = section(vec![
        blk("tab-one", 10, Some(0)),
        blk("tab-two", 8, Some(1)),
        blk("tab-three", 7, Some(2)),
    ]);
    let session = section(vec![blk("[S]", 3, None)]);
    let datetime = section(vec![blk("[D]", 3, None)]);
    (mode, layout, tabs, session, datetime)
}

#[test]
fn render_with_no_tabs_produces_nothing() {
    let mut st = State::default();
    st.should_change_tab = true;
    let (mode, layout, tabs, session, datetime) = plain_sections();
    let (bar, action) = st.render(80, mode, layout, tabs, session, datetime);
    assert_eq!(bar, "");
    assert_eq!(action, None);
    // The early return leaves even the pending click in place.
    assert!(st.should_change_tab);
}

#[test]
fn render_concatenates_bodies_and_appends_fill() {
    let mut st = state_with_tabs(1);
    let (mode, layout, tabs, session, datetime) = plain_sections();
    let (bar, action) = st.render(80, mode, layout, tabs, session, datetime);
    assert_eq!(action, None);
    // mode, layout, pad, three tabs, spacer, session, datetime, then fill
    assert!(bar.starts_with("[M][L]"));
    assert!(bar.contains("tab-onetab-twotab-three"));
    assert!(bar.ends_with(&fill_suffix(&theme())));
}

#[test]
fn render_resolves_pending_click_to_host_index() {
    // Tabs sit at columns [7,17) [17,25) [25,32): a click at 19 is tab 1,
    // exposed to the host as 2.
    let mut st = state_with_tabs(1);
    st.update(Event::LeftClick(19));
    let (mode, layout, tabs, session, datetime) = plain_sections();
    let (_bar, action) = st.render(80, mode, layout, tabs, session, datetime);
    assert_eq!(action, Some(2));
    assert!(!st.should_change_tab);
}

#[test]
fn render_click_on_exclusive_boundary_misses() {
    let mut st = state_with_tabs(1);
    st.update(Event::LeftClick(32));
    let (mode, layout, tabs, session, datetime) = plain_sections();
    let (_bar, action) = st.render(80, mode, layout, tabs, session, datetime);
    assert_eq!(action, None);
    assert!(!st.should_change_tab);
}

#[test]
fn repeated_click_switches_at_most_once() {
    let mut st = state_with_tabs(1);
    st.update(Event::LeftClick(19));
    st.update(Event::LeftClick(19));
    let (mode, layout, tabs, session, datetime) = plain_sections();
    let (_bar, first) = st.render(80, mode, layout, tabs, session, datetime);
    let (mode, layout, tabs, session, datetime) = plain_sections();
    let (_bar2, second) = st.render(80, mode, layout, tabs, session, datetime);
    let switches = [first, second].iter().filter(|a| a.is_some()).count();
    assert!(switches <= 1);
    assert_eq!(first, Some(2));
    assert_eq!(second, None);
}

#[test]
fn render_without_pending_click_issues_no_switch() {
    let mut st = state_with_tabs(1);
    st.mouse_click_pos = 19;
    st.should_change_tab = false;
    let (mode, layout, tabs, session, datetime) = plain_sections();
    let (_bar, action) = st.render(80, mode, layout, tabs, session, datetime);
    assert_eq!(action, None);
}
