use vstd::prelude::*;
use crate::settings::{setting_at, Adjustment, Setting, SETTING_COUNT};

verus! {

/// The views of the monitor, in the order the Tab key visits them.
#[derive(Debug, Clone, Copy, PartialEq, Eq, Structural)]
pub enum ActiveTab {
    Dashboard,
    Alerts,
    Settings,
    Suggestions,
}

/// The view that follows `tab` when Tab is pressed.
pub open spec fn next_tab(tab: ActiveTab) -> ActiveTab {
    match tab {
        ActiveTab::Dashboard => ActiveTab::Alerts,
        ActiveTab::Alerts => ActiveTab::Settings,
        ActiveTab::Settings => ActiveTab::Suggestions,
        ActiveTab::Suggestions => ActiveTab::Dashboard,
    }
}

/// The position of `tab` in the tab bar.
pub open spec fn tab_position(tab: ActiveTab) -> int {
    match tab {
        ActiveTab::Dashboard => 0,
        ActiveTab::Alerts => 1,
        ActiveTab::Settings => 2,
        ActiveTab::Suggestions => 3,
    }
}

impl ActiveTab {
    /// The view shown after pressing Tab on this one.
    pub fn next(self) -> (res: ActiveTab)
        ensures
            res == next_tab(self),
    {
        match self {
            ActiveTab::Dashboard => ActiveTab::Alerts,
            ActiveTab::Alerts => ActiveTab::Settings,
            ActiveTab::Settings => ActiveTab::Suggestions,
            ActiveTab::Suggestions => ActiveTab::Dashboard,
        }
    }

    /// The position of this view in the tab bar, from 0.
    pub fn index(self) -> (res: usize)
        ensures
            res == tab_position(self),
            res < 4,
    {
        match self {
            ActiveTab::Dashboard => 0,
            ActiveTab::Alerts => 1,
            ActiveTab::Settings => 2,
            ActiveTab::Suggestions => 3,
        }
    }
}

/// A key as the monitor sees it.
#[derive(Debug, Clone, Copy, PartialEq, Eq, Structural)]
pub enum Key {
    Char(char),
    Tab,
    Up,
    Down,
    Left,
    Right,
    Other,
}

/// A key press, with whether Control was held.
#[derive(Debug, Clone, Copy, PartialEq, Eq, Structural)]
pub struct KeyPress {
    pub code: Key,
    pub ctrl: bool,
}

/// What the keyboard controls: the view shown, the setting selected in the
/// Settings view, and whether the user asked to quit.
#[derive(Debug, Clone, Copy, PartialEq, Eq, Structural)]
pub struct UiState {
    pub active_tab: ActiveTab,
    pub selected_setting: usize,
    pub should_quit: bool,
}

/// The state with the view replaced.
pub open spec fn with_tab(s: UiState, tab: ActiveTab) -> UiState {
    UiState { active_tab: tab, selected_setting: s.selected_setting, should_quit: s.should_quit }
}

/// The state with the selected setting replaced.
pub open spec fn with_selection(s: UiState, sel: usize) -> UiState {
    UiState { active_tab: s.active_tab, selected_setting: sel, should_quit: s.should_quit }
}

/// The state with a quit requested.
pub open spec fn quitting(s: UiState) -> UiState {
    UiState { active_tab: s.active_tab, selected_setting: s.selected_setting, should_quit: true }
}

/// The selection after Up: the previous setting, wrapping from the first to the last.
pub open spec fn selection_up(sel: usize) -> usize {
    if sel > 0 {
        (sel - 1) as usize
    } else {
        (SETTING_COUNT - 1) as usize
    }
}

/// The selection after Down: the next setting, wrapping from the last to the first.
pub open spec fn selection_down(sel: usize) -> usize {
    if sel < SETTING_COUNT - 1 {
        (sel + 1) as usize
    } else {
        0
    }
}

/// The adjustment that Left (`increase == false`) or Right asks for in the
/// Settings view: a step of the selected setting, if the selection names one.
pub open spec fn requested_adjustment(sel: usize, increase: bool) -> Option<Adjustment> {
    match setting_at(sel as int) {
        Some(setting) => Some(Adjustment { setting, increase }),
        None => None,
    }
}

/// The next state and the requested adjustment after a key press.
///
/// `q`/`Q`, and `c`/`C` with Control, quit; Tab moves to the next view;
/// `1` to `4` open a view directly; in the Settings view Up and Down move the
/// selection (wrapping), Left and Right ask for a step down or up of the
/// selected setting. Every other key, and the arrows outside the Settings
/// view, change nothing.
pub open spec fn after_key(s: UiState, k: KeyPress) -> (UiState, Option<Adjustment>) {
    let in_settings = s.active_tab == ActiveTab::Settings;
    match k.code {
        Key::Char(c) => {
            if c == 'q' || c == 'Q' {
                (quitting(s), None)
            } else if c == 'c' || c == 'C' {
                if k.ctrl {
                    (quitting(s), None)
                } else {
                    (s, None)
                }
            } else if c == '1' {
                (with_tab(s, ActiveTab::Dashboard), None)
            } else if c == '2' {
                (with_tab(s, ActiveTab::Alerts), None)
            } else if c == '3' {
                (with_tab(s, ActiveTab::Settings), None)
            } else if c == '4' {
                (with_tab(s, ActiveTab::Suggestions), None)
            } else {
                (s, None)
            }
        },
        Key::Tab => (with_tab(s, next_tab(s.active_tab)), None),
        Key::Up => if in_settings {
            (with_selection(s, selection_up(s.selected_setting)), None)
        } else {
            (s, None)
        },
        Key::Down => if in_settings {
            (with_selection(s, selection_down(s.selected_setting)), None)
        } else {
            (s, None)
        },
        Key::Left => if in_settings {
            (s, requested_adjustment(s.selected_setting, false))
        } else {
            (s, None)
        },
        Key::Right => if in_settings {
            (s, requested_adjustment(s.selected_setting, true))
        } else {
            (s, None)
        },
        Key::Other => (s, None),
    }
}

impl UiState {
    /// The state at start: the Dashboard, the first setting selected, no quit.
    pub fn new() -> (res: UiState)
        ensures
            res.active_tab == ActiveTab::Dashboard,
            res.selected_setting == 0,
            !res.should_quit,
    {
        UiState { active_tab: ActiveTab::Dashboard, selected_setting: 0, should_quit: false }
    }

    /// Applies a key press; returns the adjustment it asks for, if any.
    pub fn handle_key(&mut self, key: KeyPress) -> (adjustment: Option<Adjustment>)
        ensures
            (*final(self), adjustment) == after_key(*old(self), key),
    {
        let in_settings = self.active_tab == ActiveTab::Settings;
        match key.code {
            Key::Char(c) => {
                if c == 'q' || c == 'Q' {
                    self.should_quit = true;
                } else if c == 'c' || c == 'C' {
                    if key.ctrl {
                        self.should_quit = true;
                    }
                } else if c == '1' {
                    self.active_tab = ActiveTab::Dashboard;
                } else if c == '2' {
                    self.active_tab = ActiveTab::Alerts;
                } else if c == '3' {
                    self.active_tab = ActiveTab::Settings;
                } else if c == '4' {
                    self.active_tab = ActiveTab::Suggestions;
                }
                None
            },
            Key::Tab => {
                self.active_tab = self.active_tab.next();
                None
            },
            Key::Up => {
                if in_settings {
                    if self.selected_setting > 0 {
                        self.selected_setting = self.selected_setting - 1;
                    } else {
                        self.selected_setting = SETTING_COUNT - 1;
                    }
                }
                None
            },
            Key::Down => {
                if in_settings {
                    if self.selected_setting < SETTING_COUNT - 1 {
                        self.selected_setting = self.selected_setting + 1;
                    } else {
                        self.selected_setting = 0;
                    }
                }
                None
            },
            Key::Left => {
                if in_settings {
                    Self::adjustment_for(self.selected_setting, false)
                } else {
                    None
                }
            },
            Key::Right => {
                if in_settings {
                    Self::adjustment_for(self.selected_setting, true)
                } else {
                    None
                }
            },
            Key::Other => None,
        }
    }

    fn adjustment_for(sel: usize, increase: bool) -> (res: Option<Adjustment>)
        ensures
            res == requested_adjustment(sel, increase),
    {
        match Setting::from_index(sel) {
            Some(setting) => Some(Adjustment { setting, increase }),
            None => None,
        }
    }
}

/// Pressing Tab four times returns to the view it started from, and the
/// three presses in between show the three other views: Tab visits every view.
pub proof fn law_tab_visits_every_view(t: ActiveTab)
    ensures
        next_tab(next_tab(next_tab(next_tab(t)))) == t,
        next_tab(t) != t,
        next_tab(next_tab(t)) != t,
        next_tab(next_tab(next_tab(t))) != t,
        next_tab(t) != next_tab(next_tab(t)),
        next_tab(t) != next_tab(next_tab(next_tab(t))),
        next_tab(next_tab(t)) != next_tab(next_tab(next_tab(t))),
{
}

/// In the Settings view, Down undoes Up and Up undoes Down, for every valid
/// selection.
pub proof fn law_up_down_undo_each_other(s: UiState, ctrl: bool)
    requires
        s.active_tab == ActiveTab::Settings,
        s.selected_setting < SETTING_COUNT,
    ensures
        after_key(after_key(s, KeyPress { code: Key::Up, ctrl }).0, KeyPress { code: Key::Down, ctrl }).0 == s,
        after_key(after_key(s, KeyPress { code: Key::Down, ctrl }).0, KeyPress { code: Key::Up, ctrl }).0 == s,
{
}

/// No key moves a valid selection out of the list of settings.
pub proof fn law_selection_stays_valid(s: UiState, k: KeyPress)
    requires
        s.selected_setting < SETTING_COUNT,
    ensures
        after_key(s, k).0.selected_setting < SETTING_COUNT,
{
}

/// Once quitting is requested, no key takes it back.
pub proof fn law_quit_is_final(s: UiState, k: KeyPress)
    requires
        s.should_quit,
    ensures
        after_key(s, k).0.should_quit,
{
}

/// A setting is adjusted only from the Settings view, only by Left (a step
/// down) or Right (a step up), and it is the selected setting; in that view
/// with a valid selection, Left and Right always ask for the adjustment.
pub proof fn law_adjustments_come_from_arrows_in_settings(s: UiState, k: KeyPress)
    ensures
        after_key(s, k).1 matches Some(a) ==> {
            &&& s.active_tab == ActiveTab::Settings
            &&& (k.code == Key::Left || k.code == Key::Right)
            &&& a.increase == (k.code == Key::Right)
            &&& setting_at(s.selected_setting as int) == Some(a.setting)
        },
        (s.active_tab == ActiveTab::Settings && s.selected_setting < SETTING_COUNT && (k.code
            == Key::Left || k.code == Key::Right)) ==> after_key(s, k).1 is Some,
        after_key(s, k).1 is Some ==> after_key(s, k).0 == s,
{
}

/// Arrow keys never change the view or request a quit.
pub proof fn law_arrows_keep_view(s: UiState, k: KeyPress)
    requires
        k.code == Key::Up || k.code == Key::Down || k.code == Key::Left || k.code == Key::Right,
    ensures
        after_key(s, k).0.active_tab == s.active_tab,
        after_key(s, k).0.should_quit == s.should_quit,
{
}

/// Up and Down move the selection by one row in the Settings view: Down goes
/// to the next row and from the last row (5) back to the first, Up goes to
/// the previous row and from the first row back to the last; nothing else
/// changes.
pub proof fn law_up_down_move_one_row(s: UiState, ctrl: bool)
    requires
        s.active_tab == ActiveTab::Settings,
    ensures
        s.selected_setting < 5 ==> after_key(s, KeyPress { code: Key::Down, ctrl }).0.selected_setting
            == s.selected_setting + 1,
        s.selected_setting >= 5 ==> after_key(s, KeyPress { code: Key::Down, ctrl }).0.selected_setting
            == 0,
        s.selected_setting > 0 ==> after_key(s, KeyPress { code: Key::Up, ctrl }).0.selected_setting
            == s.selected_setting - 1,
        s.selected_setting == 0 ==> after_key(s, KeyPress { code: Key::Up, ctrl }).0.selected_setting
            == 5,
        after_key(s, KeyPress { code: Key::Down, ctrl }).0.active_tab == s.active_tab,
        after_key(s, KeyPress { code: Key::Up, ctrl }).0.active_tab == s.active_tab,
        after_key(s, KeyPress { code: Key::Down, ctrl }).0.should_quit == s.should_quit,
        after_key(s, KeyPress { code: Key::Up, ctrl }).0.should_quit == s.should_quit,
        after_key(s, KeyPress { code: Key::Down, ctrl }).1 is None,
        after_key(s, KeyPress { code: Key::Up, ctrl }).1 is None,
{
}

/// The view keys: `1` to `4` open the Dashboard, Alerts, Settings and
/// Suggestions views, and Tab goes Dashboard, Alerts, Settings, Suggestions,
/// then back to the Dashboard; `q`, `Q` and Control-`c` quit.
pub proof fn law_view_and_quit_keys(s: UiState, ctrl: bool)
    ensures
        after_key(s, KeyPress { code: Key::Char('1'), ctrl }).0.active_tab == ActiveTab::Dashboard,
        after_key(s, KeyPress { code: Key::Char('2'), ctrl }).0.active_tab == ActiveTab::Alerts,
        after_key(s, KeyPress { code: Key::Char('3'), ctrl }).0.active_tab == ActiveTab::Settings,
        after_key(s, KeyPress { code: Key::Char('4'), ctrl }).0.active_tab == ActiveTab::Suggestions,
        s.active_tab == ActiveTab::Dashboard ==> after_key(s, KeyPress { code: Key::Tab, ctrl }).0.active_tab
            == ActiveTab::Alerts,
        s.active_tab == ActiveTab::Alerts ==> after_key(s, KeyPress { code: Key::Tab, ctrl }).0.active_tab
            == ActiveTab::Settings,
        s.active_tab == ActiveTab::Settings ==> after_key(s, KeyPress { code: Key::Tab, ctrl }).0.active_tab
            == ActiveTab::Suggestions,
        s.active_tab == ActiveTab::Suggestions ==> after_key(s, KeyPress { code: Key::Tab, ctrl }).0.active_tab
            == ActiveTab::Dashboard,
        after_key(s, KeyPress { code: Key::Char('q'), ctrl }).0.should_quit,
        after_key(s, KeyPress { code: Key::Char('Q'), ctrl }).0.should_quit,
        after_key(s, KeyPress { code: Key::Char('c'), ctrl: true }).0.should_quit,
        after_key(s, KeyPress { code: Key::Char('c'), ctrl: false }).0 == s,
{
}

} // verus!
