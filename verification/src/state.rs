//! The render state and the event adapter: one entry point consumes one
//! host event at a time, updates the held state, and says whether a
//! re-render is needed and which action the host should perform.

use vstd::prelude::*;
use crate::block::Theme;
use crate::compose::{
    bodies_of, click_action, compose, composed_line, concat_bodies, fill_color, fill_of,
    fill_suffix, lemma_composed_tags_bounded, lemma_spec_hit_found, overflow_msg, route_click,
    spec_hit, tab_tags_bounded,
};
use crate::block::{Section, models};

verus! {

/// One tab as the engine reads it: its 0-based position, its name, and
/// whether it is the active one.
#[derive(Clone, Debug)]
pub struct Tab {
    pub position: usize,
    pub name: String,
    pub active: bool,
}

/// Two tabs hold the same data.
pub open spec fn tab_like(a: Tab, b: Tab) -> bool {
    a.position == b.position && a.name@ == b.name@ && a.active == b.active
}

/// Two tab lists hold the same data, position for position.
pub open spec fn tabs_like(a: Seq<Tab>, b: Seq<Tab>) -> bool {
    a.len() == b.len() && forall|i: int| 0 <= i < a.len() ==> tab_like(a[i], b[i])
}

/// The input mode the host reports; the engine only stores and compares it.
#[derive(Clone, Copy, Debug, PartialEq, Eq, Structural)]
pub enum InputMode {
    Normal,
    Locked,
    Resize,
    Pane,
    Tab,
    Scroll,
    EnterSearch,
    Search,
    RenameTab,
    RenamePane,
    Session,
    Move,
    Prompt,
    Tmux,
}

/// The mode and theme snapshot the host delivers: the session name, the
/// current input mode, and the resolved palette entries.
#[derive(Clone, Debug)]
pub struct ModeSnapshot {
    pub session_name: Option<String>,
    pub mode: InputMode,
    pub theme: Theme,
}

/// Two snapshots hold the same data.
pub open spec fn snap_like(a: ModeSnapshot, b: ModeSnapshot) -> bool {
    a.mode == b.mode && a.theme == b.theme && match (a.session_name, b.session_name) {
        (Some(x), Some(y)) => x@ == y@,
        (None, None) => true,
        _ => false,
    }
}

/// A mode update requests a render exactly when the snapshot differs in
/// value from the one already held.
pub open spec fn mode_update_renders(held: ModeSnapshot, delivered: ModeSnapshot) -> bool {
    !snap_like(held, delivered)
}

/// A wall-clock reading, second resolution; the engine only stores and
/// compares it, rendering is a provider's concern.
#[derive(Clone, Copy, Debug, PartialEq, Eq, Structural)]
pub struct DateTime {
    pub year: u16,
    pub month: u8,
    pub day: u8,
    pub hour: u8,
    pub minute: u8,
    pub second: u8,
}

impl Default for DateTime {
    /// All fields zero.
    fn default() -> (r: DateTime)
        ensures
            r == (DateTime { year: 0, month: 0, day: 0, hour: 0, minute: 0, second: 0 }),
    {
        DateTime { year: 0, month: 0, day: 0, hour: 0, minute: 0, second: 0 }
    }
}

/// One host notification, reduced to plain values.
pub enum Event {
    PermissionGranted,
    PermissionDenied,
    ModeUpdate(ModeSnapshot),
    TabUpdate(Vec<Tab>),
    LeftClick(usize),
    ScrollUp,
    ScrollDown,
    TimerFired(DateTime),
    Unknown,
}

/// What the host should do after an event is absorbed. Tab switches carry
/// the 1-based index the host expects.
#[derive(Clone, Copy, Debug, PartialEq, Eq, Structural)]
pub enum HostAction {
    Nothing,
    SwitchTab(u32),
    SetSelectable(bool),
    ArmTimer,
}

/// `i` is the position of the first active tab.
pub open spec fn is_first_active(s: Seq<Tab>, i: int) -> bool {
    0 <= i < s.len() && s[i].active && forall|j: int| 0 <= j < i ==> !s[j].active
}

/// The tab a scroll-up switches to: the next one, clamped at the tab count.
pub open spec fn scroll_up_target(active: int, count: int) -> int {
    if active < count {
        active + 1
    } else {
        count
    }
}

/// The tab a scroll-down switches to: the previous one, clamped at one.
pub open spec fn scroll_down_target(active: int) -> int {
    if active >= 2 {
        active - 1
    } else {
        1
    }
}

/// A left-click arms the pending tab switch exactly when its column differs
/// from the one already recorded.
pub open spec fn click_arms(recorded: usize, col: usize) -> bool {
    recorded != col
}

/// The render state, owned by the adapter and replaced wholesale by events.
pub struct State {
    pub tabs: Vec<Tab>,
    pub active_tab_idx: usize,
    pub mode_info: ModeSnapshot,
    pub mouse_click_pos: usize,
    pub should_change_tab: bool,
    pub now: DateTime,
}

impl State {
    /// The active index is 1-based and never points past the tab list, and
    /// the tab count stays within what the host's 1-based `u32` indices can
    /// name.
    pub open spec fn wf(self) -> bool {
        self.active_tab_idx <= self.tabs@.len() && self.tabs@.len() <= u32::MAX
    }
}

impl Default for State {
    /// The state at plugin start: no tabs, no active tab, default snapshot,
    /// no recorded click, no pending switch, zero clock.
    fn default() -> (r: State)
        ensures
            r.wf(),
            r.tabs@.len() == 0,
            r.active_tab_idx == 0,
            r.mode_info.session_name is None,
            r.mode_info.mode == InputMode::Normal,
            r.mouse_click_pos == 0,
            !r.should_change_tab,
            r.now == (DateTime { year: 0, month: 0, day: 0, hour: 0, minute: 0, second: 0 }),
    {
        State {
            tabs: Vec::new(),
            active_tab_idx: 0,
            mode_info: ModeSnapshot {
                session_name: None,
                mode: InputMode::Normal,
                theme: Theme {
                    fg: crate::block::Color::EightBit(0),
                    bg: crate::block::Color::EightBit(0),
                    black: crate::block::Color::EightBit(0),
                    red: crate::block::Color::EightBit(0),
                    white: crate::block::Color::EightBit(0),
                    hue: crate::block::ThemeHue::Dark,
                },
            },
            mouse_click_pos: 0,
            should_change_tab: false,
            now: DateTime::default(),
        }
    }
}

/// Value comparison of two snapshots.
fn snaps_equal(a: &ModeSnapshot, b: &ModeSnapshot) -> (r: bool)
    ensures
        r == snap_like(*a, *b),
{
    let names_eq = match (&a.session_name, &b.session_name) {
        (Some(x), Some(y)) => x.eq(y),
        (None, None) => true,
        _ => false,
    };
    names_eq && a.mode == b.mode && a.theme == b.theme
}

/// Value comparison of two tab lists.
fn tabs_equal(a: &Vec<Tab>, b: &Vec<Tab>) -> (r: bool)
    ensures
        r == tabs_like(a@, b@),
{
    if a.len() != b.len() {
        return false;
    }
    let mut i: usize = 0;
    while i < a.len()
        invariant
            i <= a.len(),
            a@.len() == b@.len(),
            forall|j: int| 0 <= j < i ==> tab_like(a@[j], b@[j]),
        decreases a.len() - i,
    {
        if a[i].position != b[i].position || a[i].active != b[i].active || !(a[i].name
            == b[i].name) {
            return false;
        }
        i += 1;
    }
    true
}

/// The position of the first tab marked active, if any.
fn find_active(tabs: &Vec<Tab>) -> (r: Option<usize>)
    ensures
        r matches Some(i) ==> is_first_active(tabs@, i as int),
        r is None ==> forall|j: int| 0 <= j < tabs@.len() ==> !tabs@[j].active,
{
    let mut i: usize = 0;
    while i < tabs.len()
        invariant
            i <= tabs.len(),
            forall|j: int| 0 <= j < i ==> !tabs@[j].active,
        decreases tabs.len() - i,
    {
        if tabs[i].active {
            return Some(i);
        }
        i += 1;
    }
    None
}

impl State {
    /// Absorbs one host event. Returns whether a re-render is needed and
    /// the action the host should perform:
    /// - a granted permission makes the pane unselectable, a denied one is
    ///   only logged by the caller;
    /// - mode and timer updates request a render exactly when the held
    ///   value changed;
    /// - a tab snapshot is accepted only when it names an active tab, and
    ///   requests a render when the list or the active index changed;
    /// - a left-click arms the pending tab switch when its column is new;
    /// - scrolling switches tabs directly, clamped to the valid 1-based
    ///   range.
    pub fn update(&mut self, event: Event) -> (r: (bool, HostAction))
        requires
            old(self).wf(),
            event matches Event::TabUpdate(ts) ==> ts@.len() <= u32::MAX,
        ensures
            final(self).wf(),
            event matches Event::PermissionGranted ==> *final(self) == *old(self) && r == (
                false,
                HostAction::SetSelectable(false),
            ),
            event matches Event::PermissionDenied ==> *final(self) == *old(self) && r == (
                false,
                HostAction::Nothing,
            ),
            event matches Event::ModeUpdate(m) ==> *final(self) == (State {
                mode_info: m,
                ..*old(self)
            }) && r.0 == mode_update_renders(old(self).mode_info, m) && r.1
                == HostAction::Nothing,
            event matches Event::TabUpdate(ts) ==> {
                &&& (forall|j: int| 0 <= j < ts@.len() ==> !ts@[j].active) ==> *final(self) == *old(self)
                    && r == (false, HostAction::Nothing)
                &&& forall|i: int|
                    is_first_active(ts@, i) ==> *final(self) == (State {
                        tabs: ts,
                        active_tab_idx: (i + 1) as usize,
                        ..*old(self)
                    }) && r.0 == (old(self).active_tab_idx != i + 1 || !tabs_like(
                        old(self).tabs@,
                        ts@,
                    )) && r.1 == HostAction::Nothing
            },
            event matches Event::LeftClick(col) ==> *final(self) == (State {
                mouse_click_pos: col,
                should_change_tab: old(self).should_change_tab || click_arms(
                    old(self).mouse_click_pos,
                    col,
                ),
                ..*old(self)
            }) && r.0 == click_arms(old(self).mouse_click_pos, col) && r.1 == HostAction::Nothing,
            event matches Event::ScrollUp ==> *final(self) == *old(self) && r.0 && r.1
                == HostAction::SwitchTab(
                scroll_up_target(
                    old(self).active_tab_idx as int,
                    old(self).tabs@.len() as int,
                ) as u32,
            ),
            event matches Event::ScrollDown ==> *final(self) == *old(self) && r.0 && r.1
                == HostAction::SwitchTab(scroll_down_target(old(self).active_tab_idx as int) as u32),
            event matches Event::TimerFired(t) ==> *final(self) == (State { now: t, ..*old(self) }) && r.0
                == (t != old(self).now) && r.1 == HostAction::ArmTimer,
            event matches Event::Unknown ==> *final(self) == *old(self) && r == (
                false,
                HostAction::Nothing,
            ),
    {
        match event {
            Event::PermissionGranted => (false, HostAction::SetSelectable(false)),
            Event::PermissionDenied => (false, HostAction::Nothing),
            Event::ModeUpdate(m) => {
                let changed = !snaps_equal(&self.mode_info, &m);
                self.mode_info = m;
                (changed, HostAction::Nothing)
            }
            Event::TabUpdate(ts) => {
                match find_active(&ts) {
                    Some(pos) => {
                        proof {
                            assert forall|i: int| is_first_active(ts@, i) implies i == pos as int by {
                                if i < pos as int {
                                    assert(!ts@[i].active);
                                } else if i > pos as int {
                                    assert(!ts@[pos as int].active);
                                }
                            }
                        }
                        let idx = pos + 1;
                        let changed = self.active_tab_idx != idx || !tabs_equal(&self.tabs, &ts);
                        self.active_tab_idx = idx;
                        self.tabs = ts;
                        (changed, HostAction::Nothing)
                    }
                    None => (false, HostAction::Nothing),
                }
            }
            Event::LeftClick(col) => {
                let differs = self.mouse_click_pos != col;
                if differs {
                    self.should_change_tab = true;
                }
                self.mouse_click_pos = col;
                (differs, HostAction::Nothing)
            }
            Event::ScrollUp => {
                let target = if self.active_tab_idx < self.tabs.len() {
                    self.active_tab_idx + 1
                } else {
                    self.tabs.len()
                };
                (true, HostAction::SwitchTab(target as u32))
            }
            Event::ScrollDown => {
                let target = if self.active_tab_idx >= 2 {
                    self.active_tab_idx - 1
                } else {
                    1
                };
                (true, HostAction::SwitchTab(target as u32))
            }
            Event::TimerFired(t) => {
                let changed = !(t == self.now);
                self.now = t;
                (changed, HostAction::ArmTimer)
            }
            Event::Unknown => (false, HostAction::Nothing),
        }
    }

    /// One render pass. With no tabs known yet nothing is produced and the
    /// state is left as it is. Otherwise the five provider sections are
    /// composed for `cols` columns, a pending click is resolved against the
    /// composed blocks to the 1-based tab the host should switch to, the
    /// bodies are concatenated, the row-terminating background fill is
    /// appended, and the pending click is consumed.
    pub fn render(
        &mut self,
        cols: usize,
        mode: Section,
        layout: Section,
        tabs: Section,
        session: Section,
        datetime: Section,
    ) -> (r: (String, Option<u32>))
        requires
            mode.wf(),
            layout.wf(),
            tabs.wf(),
            session.wf(),
            datetime.wf(),
            mode.len + layout.len + tabs.len + session.len + datetime.len + 1 + 3
                * overflow_msg().len() <= usize::MAX,
            tab_tags_bounded(models(mode.blocks@)),
            tab_tags_bounded(models(layout.blocks@)),
            tab_tags_bounded(models(tabs.blocks@)),
            tab_tags_bounded(models(session.blocks@)),
            tab_tags_bounded(models(datetime.blocks@)),
        ensures
            old(self).tabs@.len() == 0 ==> *final(self) == *old(self) && r.0@ == Seq::<char>::empty()
                && r.1 is None,
            old(self).tabs@.len() > 0 ==> {
                let line = composed_line(
                    cols as nat,
                    old(self).mode_info.theme,
                    models(mode.blocks@),
                    models(layout.blocks@),
                    models(tabs.blocks@),
                    models(session.blocks@),
                    models(datetime.blocks@),
                );
                &&& *final(self) == (State { should_change_tab: false, ..*old(self) })
                &&& r.0@ == bodies_of(line) + fill_of(fill_color(old(self).mode_info.theme))
                &&& r.1 == click_action(
                    old(self).should_change_tab,
                    spec_hit(line, old(self).mouse_click_pos as int),
                )
            },
    {
        if self.tabs.is_empty() {
            return (String::new(), None);
        }
        let theme = self.mode_info.theme;
        let ghost gm = models(mode.blocks@);
        let ghost gl = models(layout.blocks@);
        let ghost gt = models(tabs.blocks@);
        let ghost gs = models(session.blocks@);
        let ghost gd = models(datetime.blocks@);
        let blocks = compose(cols, &theme, mode, layout, tabs, session, datetime);
        let ghost line = composed_line(cols as nat, theme, gm, gl, gt, gs, gd);
        let hit = route_click(&blocks, self.mouse_click_pos);
        let action: Option<u32> = if self.should_change_tab {
            match hit {
                Some(t) => {
                    proof {
                        lemma_composed_tags_bounded(cols as nat, theme, gm, gl, gt, gs, gd);
                        lemma_spec_hit_found(line, self.mouse_click_pos as int, t);
                    }
                    Some((t + 1) as u32)
                }
                None => None,
            }
        } else {
            None
        };
        let mut bar = concat_bodies(&blocks);
        let fill = fill_suffix(&theme);
        bar.append(fill.as_str());
        self.should_change_tab = false;
        (bar, action)
    }
}

/// Re-render suppression: a mode snapshot equal in value to the held one
/// never requests a render. After any mode update the held snapshot is the
/// delivered one, so delivering the same snapshot twice in a row, the
/// second delivery is suppressed.
pub proof fn lemma_repeated_mode_update_suppressed(m: ModeSnapshot)
    ensures
        !mode_update_renders(m, m),
{
}

/// Click debounce: a left-click at the column already recorded neither
/// requests a render nor arms the pending switch. After any left-click the
/// recorded column is the click's, so of two consecutive clicks at the same
/// column only the first can arm a tab switch, and a render consumes the
/// armed flag exactly once.
pub proof fn lemma_second_click_inert(armed: bool, col: usize)
    ensures
        !click_arms(col, col),
        (armed || click_arms(col, col)) == armed,
{
}

/// Scroll clamping: with at least one tab and a valid active index, both
/// scroll targets stay in the valid 1-based range; scroll-up moves one
/// forward until the last tab, where it stays, and scroll-down moves one
/// back until the first tab, where it stays.
pub proof fn lemma_scroll_clamped(active: int, count: int)
    requires
        1 <= count,
        0 <= active <= count,
    ensures
        1 <= scroll_up_target(active, count) <= count,
        active < count ==> scroll_up_target(active, count) == active + 1,
        active == count ==> scroll_up_target(active, count) == count,
        1 <= scroll_down_target(active) <= count,
        2 <= active ==> scroll_down_target(active) == active - 1,
        active <= 1 ==> scroll_down_target(active) == 1,
{
}

} // verus!
