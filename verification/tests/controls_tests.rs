use vigil::input::{input_needs_restart, input_step, poll_timeout, InputStep, PollOutcome};
use vigil::controls::{ActiveTab, Key, KeyPress, UiState};
use vigil::settings::{Adjustment, Setting};

fn press(code: Key) -> KeyPress {
    KeyPress { code, ctrl: false }
}

fn settings_view(sel: usize) -> UiState {
    UiState { active_tab: ActiveTab::Settings, selected_setting: sel, should_quit: false }
}

#[test]
fn starts_on_dashboard() {
    let s = UiState::new();
    assert_eq!(s.active_tab, ActiveTab::Dashboard);
    assert_eq!(s.selected_setting, 0);
    assert!(!s.should_quit);
}

#[test]
fn tab_cycles_through_all_views() {
    let mut s = UiState::new();
    let mut seen = vec![];
    for _ in 0..4 {
        assert_eq!(s.handle_key(press(Key::Tab)), None);
        seen.push(s.active_tab);
    }
    assert_eq!(
        seen,
        vec![ActiveTab::Alerts, ActiveTab::Settings, ActiveTab::Suggestions, ActiveTab::Dashboard]
    );
}

#[test]
fn next_tab_order() {
    assert_eq!(ActiveTab::Dashboard.next(), ActiveTab::Alerts);
    assert_eq!(ActiveTab::Alerts.next(), ActiveTab::Settings);
    assert_eq!(ActiveTab::Settings.next(), ActiveTab::Suggestions);
    assert_eq!(ActiveTab::Suggestions.next(), ActiveTab::Dashboard);
}

#[test]
fn tab_positions() {
    assert_eq!(ActiveTab::Dashboard.index(), 0);
    assert_eq!(ActiveTab::Alerts.index(), 1);
    assert_eq!(ActiveTab::Settings.index(), 2);
    assert_eq!(ActiveTab::Suggestions.index(), 3);
}

#[test]
fn number_keys_open_views() {
    let mut s = UiState::new();
    s.handle_key(press(Key::Char('3')));
    assert_eq!(s.active_tab, ActiveTab::Settings);
    s.handle_key(press(Key::Char('2')));
    assert_eq!(s.active_tab, ActiveTab::Alerts);
    s.handle_key(press(Key::Char('4')));
    assert_eq!(s.active_tab, ActiveTab::Suggestions);
    s.handle_key(press(Key::Char('1')));
    assert_eq!(s.active_tab, ActiveTab::Dashboard);
    s.handle_key(press(Key::Char('5')));
    assert_eq!(s.active_tab, ActiveTab::Dashboard);
}

#[test]
fn q_quits_in_either_case() {
    let mut s = UiState::new();
    s.handle_key(press(Key::Char('q')));
    assert!(s.should_quit);
    let mut s = UiState::new();
    s.handle_key(press(Key::Char('Q')));
    assert!(s.should_quit);
}

#[test]
fn ctrl_c_quits_but_plain_c_does_not() {
    let mut s = UiState::new();
    s.handle_key(press(Key::Char('c')));
    assert!(!s.should_quit);
    s.handle_key(KeyPress { code: Key::Char('C'), ctrl: true });
    assert!(s.should_quit);
    let mut s = UiState::new();
    s.handle_key(KeyPress { code: Key::Char('c'), ctrl: true });
    assert!(s.should_quit);
}

#[test]
fn up_and_down_wrap_in_settings() {
    let mut s = settings_view(0);
    s.handle_key(press(Key::Up));
    assert_eq!(s.selected_setting, 5);
    s.handle_key(press(Key::Down));
    assert_eq!(s.selected_setting, 0);
    s.handle_key(press(Key::Down));
    assert_eq!(s.selected_setting, 1);
    let mut s = settings_view(5);
    s.handle_key(press(Key::Down));
    assert_eq!(s.selected_setting, 0);
}

#[test]
fn arrows_do_nothing_outside_settings() {
    let mut s = UiState::new();
    assert_eq!(s.handle_key(press(Key::Up)), None);
    assert_eq!(s.handle_key(press(Key::Down)), None);
    assert_eq!(s.handle_key(press(Key::Left)), None);
    assert_eq!(s.handle_key(press(Key::Right)), None);
    assert_eq!(s, UiState::new());
}

#[test]
fn left_and_right_request_adjustments_of_the_selection() {
    let mut s = settings_view(1);
    assert_eq!(
        s.handle_key(press(Key::Right)),
        Some(Adjustment { setting: Setting::CpuThreshold, increase: true })
    );
    assert_eq!(
        s.handle_key(press(Key::Left)),
        Some(Adjustment { setting: Setting::CpuThreshold, increase: false })
    );
    assert_eq!(s, settings_view(1));
    let mut s = settings_view(5);
    assert_eq!(
        s.handle_key(press(Key::Left)),
        Some(Adjustment { setting: Setting::AlertCooldown, increase: false })
    );
}

#[test]
fn adjustment_of_a_selection_past_the_list_is_none() {
    let mut s = settings_view(9);
    assert_eq!(s.handle_key(press(Key::Right)), None);
    s.handle_key(press(Key::Down));
    assert_eq!(s.selected_setting, 0);
    let mut s = settings_view(9);
    s.handle_key(press(Key::Up));
    assert_eq!(s.selected_setting, 8);
}

#[test]
fn other_keys_change_nothing() {
    let mut s = settings_view(2);
    assert_eq!(s.handle_key(press(Key::Other)), None);
    assert_eq!(s.handle_key(press(Key::Char('x'))), None);
    assert_eq!(s, settings_view(2));
}

#[test]
fn quitting_is_final() {
    let mut s = UiState::new();
    s.handle_key(press(Key::Char('q')));
    for code in [Key::Tab, Key::Up, Key::Char('1'), Key::Char('c'), Key::Other] {
        s.handle_key(press(code));
        assert!(s.should_quit);
    }
}

#[test]
fn selection_stays_in_the_list() {
    let mut s = settings_view(0);
    for code in [Key::Up, Key::Up, Key::Down, Key::Down, Key::Down, Key::Up, Key::Left, Key::Right] {
        s.handle_key(press(code));
        assert!(s.selected_setting < 6);
    }
}

#[test]
fn input_loop_steps() {
    assert_eq!(poll_timeout(1_000, 300), 700);
    assert_eq!(poll_timeout(1_000, 1_000), 0);
    assert_eq!(poll_timeout(1_000, 5_000), 0);
    assert_eq!(
        input_step(PollOutcome::KeyPress, 1_000, 10),
        InputStep { forward_key: true, send_tick: false, stop: false }
    );
    assert_eq!(
        input_step(PollOutcome::KeyPress, 1_000, 1_000),
        InputStep { forward_key: true, send_tick: true, stop: false }
    );
    assert_eq!(
        input_step(PollOutcome::KeyOther, 1_000, 2_000),
        InputStep { forward_key: false, send_tick: true, stop: false }
    );
    assert_eq!(
        input_step(PollOutcome::OtherEvent, 1_000, 999),
        InputStep { forward_key: false, send_tick: false, stop: false }
    );
    assert_eq!(
        input_step(PollOutcome::NoEvent, 1_000, 1_500),
        InputStep { forward_key: false, send_tick: true, stop: false }
    );
    assert_eq!(
        input_step(PollOutcome::Failed, 1_000, 5_000),
        InputStep { forward_key: false, send_tick: false, stop: true }
    );
    assert!(input_needs_restart(1000, 1100));
    assert!(!input_needs_restart(1000, 1000));
}
