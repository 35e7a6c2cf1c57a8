use vigil::settings::{step_alert_cooldown, step_refresh_interval, Setting, SETTING_COUNT};

#[test]
fn settings_are_listed_in_order() {
    let all = [
        Setting::RefreshInterval,
        Setting::CpuThreshold,
        Setting::MemoryThreshold,
        Setting::NetworkRxThreshold,
        Setting::NetworkTxThreshold,
        Setting::AlertCooldown,
    ];
    for (i, s) in all.iter().enumerate() {
        assert_eq!(Setting::from_index(i), Some(*s));
        assert_eq!(s.index(), i);
    }
    assert_eq!(Setting::from_index(SETTING_COUNT), None);
    assert_eq!(Setting::from_index(usize::MAX), None);
}

#[test]
fn setting_labels() {
    assert_eq!(Setting::RefreshInterval.label(), "Refresh Interval (ms)");
    assert_eq!(Setting::CpuThreshold.label(), "CPU Threshold (%)");
    assert_eq!(Setting::MemoryThreshold.label(), "Memory Threshold (%)");
    assert_eq!(Setting::NetworkRxThreshold.label(), "Network RX Threshold (MB/s)");
    assert_eq!(Setting::NetworkTxThreshold.label(), "Network TX Threshold (MB/s)");
    assert_eq!(Setting::AlertCooldown.label(), "Alert Cooldown (seconds)");
}

#[test]
fn refresh_interval_steps_by_100_ms() {
    assert_eq!(step_refresh_interval(1000, true), 1100);
    assert_eq!(step_refresh_interval(1000, false), 900);
    assert_eq!(step_refresh_interval(200, false), 100);
}

#[test]
fn refresh_interval_floor_is_100_ms() {
    assert_eq!(step_refresh_interval(150, false), 100);
    assert_eq!(step_refresh_interval(100, false), 100);
    // An interval already below the floor is not raised by a step down.
    assert_eq!(step_refresh_interval(50, false), 50);
    assert_eq!(step_refresh_interval(0, false), 0);
    assert_eq!(step_refresh_interval(50, true), 150);
}

#[test]
fn refresh_interval_saturates() {
    assert_eq!(step_refresh_interval(u64::MAX, true), u64::MAX);
    assert_eq!(step_refresh_interval(u64::MAX - 50, true), u64::MAX);
}

#[test]
fn alert_cooldown_steps_by_one_second() {
    assert_eq!(step_alert_cooldown(10, true), 11);
    assert_eq!(step_alert_cooldown(10, false), 9);
    assert_eq!(step_alert_cooldown(2, false), 1);
    assert_eq!(step_alert_cooldown(1, false), 1);
    assert_eq!(step_alert_cooldown(0, false), 0);
    assert_eq!(step_alert_cooldown(0, true), 1);
    assert_eq!(step_alert_cooldown(u64::MAX, true), u64::MAX);
}

#[test]
fn steps_undo_each_other() {
    for ms in [100u64, 1000, 12345] {
        assert_eq!(step_refresh_interval(step_refresh_interval(ms, true), false), ms);
    }
    for s in [1u64, 10, 999] {
        assert_eq!(step_alert_cooldown(step_alert_cooldown(s, true), false), s);
    }
}

#[test]
fn a_step_down_never_raises() {
    for v in [0u64, 1, 2, 50, 99, 100, 101, 150, 199, 200, 5000, u64::MAX] {
        assert!(step_refresh_interval(v, false) <= v);
        assert!(step_alert_cooldown(v, false) <= v);
        assert!(step_refresh_interval(v, true) >= v);
        assert!(step_alert_cooldown(v, true) >= v);
    }
}
