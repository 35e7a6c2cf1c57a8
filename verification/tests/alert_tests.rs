use vigil::alert::{cooldown_elapsed, seconds_between, AlertLog, AlertType, Timestamp};

fn at(secs: i64, nanos: u32) -> Timestamp {
    Timestamp::new(secs, nanos).unwrap()
}

#[test]
fn alert_type_labels() {
    assert_eq!(AlertType::Cpu.label(), "CPU");
    assert_eq!(AlertType::Memory.label(), "Memory");
    assert_eq!(AlertType::NetworkRx.label(), "Network RX");
    assert_eq!(AlertType::NetworkTx.label(), "Network TX");
}

#[test]
fn timestamp_parts() {
    let t = at(1_700_000_000, 250);
    assert_eq!(t.secs(), 1_700_000_000);
    assert_eq!(t.subsec_nanos(), 250);
    assert!(Timestamp::new(5, 1_000_000_000).is_none());
    assert!(Timestamp::new(5, 999_999_999).is_some());
}

#[test]
fn whole_seconds_round_toward_zero() {
    assert_eq!(seconds_between(&at(12, 500_000_000), &at(10, 0)), 2);
    assert_eq!(seconds_between(&at(10, 0), &at(12, 500_000_000)), -2);
    assert_eq!(seconds_between(&at(10, 999_999_999), &at(10, 0)), 0);
    assert_eq!(seconds_between(&at(11, 0), &at(10, 1)), 0);
    assert_eq!(seconds_between(&at(10, 0), &at(11, 0)), -1);
    assert_eq!(seconds_between(&at(7, 7), &at(7, 7)), 0);
}

#[test]
fn cooldown_checks() {
    assert!(cooldown_elapsed(None, &at(0, 0), 10));
    assert!(!cooldown_elapsed(Some(at(100, 0)), &at(109, 999_999_999), 10));
    assert!(cooldown_elapsed(Some(at(100, 0)), &at(110, 0), 10));
    assert!(cooldown_elapsed(Some(at(100, 0)), &at(100, 0), 0));
    // A cooldown past i64::MAX compares as a negative number of seconds.
    // Very long cooldowns are waited out like any other.
    assert!(!cooldown_elapsed(Some(at(100, 0)), &at(100, 0), u64::MAX));
    assert!(!cooldown_elapsed(Some(at(100, 0)), &at(i64::MAX, 0), u64::MAX));
    assert!(!cooldown_elapsed(Some(at(100, 0)), &at(50, 0), u64::MAX - 99));
    assert!(!cooldown_elapsed(Some(at(100, 0)), &at(50, 0), i64::MAX as u64));
    assert!(cooldown_elapsed(Some(at(0, 0)), &at(i64::MAX, 0), i64::MAX as u64));
    assert!(!cooldown_elapsed(Some(at(0, 0)), &at(i64::MAX, 0), i64::MAX as u64 + 1));
    // A clock that went back does not end the cooldown.
    assert!(!cooldown_elapsed(Some(at(100, 0)), &at(50, 0), 0));
}

#[test]
fn first_alert_is_recorded() {
    let mut log: AlertLog<&str> = AlertLog::new();
    assert!(log.is_empty());
    assert!(log.trigger(AlertType::Cpu, at(100, 0), 10, "cpu high"));
    assert_eq!(log.len(), 1);
    let e = &log.entries()[0];
    assert_eq!(e.alert_type, AlertType::Cpu);
    assert_eq!(e.detail, "cpu high");
    assert_eq!(e.timestamp.secs(), 100);
    assert_eq!(log.last_time(AlertType::Cpu).unwrap().secs(), 100);
    assert!(log.last_time(AlertType::Memory).is_none());
}

#[test]
fn repeat_within_cooldown_is_dropped() {
    let mut log = AlertLog::new();
    assert!(log.trigger(AlertType::Memory, at(100, 0), 10, 1));
    assert!(!log.trigger(AlertType::Memory, at(105, 0), 10, 2));
    assert!(!log.trigger(AlertType::Memory, at(109, 900_000_000), 10, 3));
    assert_eq!(log.len(), 1);
    assert_eq!(log.last_time(AlertType::Memory).unwrap().secs(), 100);
    assert!(log.trigger(AlertType::Memory, at(110, 0), 10, 4));
    assert_eq!(log.len(), 2);
    assert_eq!(log.entries()[1].detail, 4);
}

#[test]
fn cooldown_is_per_type() {
    let mut log = AlertLog::new();
    assert!(log.trigger(AlertType::NetworkRx, at(100, 0), 10, 'a'));
    assert!(log.trigger(AlertType::NetworkTx, at(101, 0), 10, 'b'));
    assert!(!log.trigger(AlertType::NetworkRx, at(102, 0), 10, 'c'));
    assert_eq!(log.len(), 2);
}

#[test]
fn zero_cooldown_records_every_alert() {
    let mut log = AlertLog::new();
    for i in 0..5 {
        assert!(log.trigger(AlertType::Cpu, at(100, 0), 0, i));
    }
    assert_eq!(log.len(), 5);
}

#[test]
fn log_keeps_every_alert_of_the_session() {
    let mut log = AlertLog::new();
    for i in 0..250i64 {
        assert!(log.trigger(AlertType::Cpu, at(i * 10, 0), 10, i));
    }
    assert_eq!(log.len(), 250);
    assert_eq!(log.entries()[0].detail, 0);
    assert_eq!(log.entries()[249].detail, 249);
    let details: Vec<i64> = log.entries().iter().map(|a| a.detail).collect();
    assert_eq!(details, (0..250).collect::<Vec<i64>>());
}

#[test]
fn check_alerts_records_in_metric_order() {
    let mut log = AlertLog::new();
    log.check_alerts(at(100, 0), 10, Some("cpu"), None, Some("rx"), Some("tx"));
    let kinds: Vec<AlertType> = log.entries().iter().map(|a| a.alert_type).collect();
    assert_eq!(kinds, vec![AlertType::Cpu, AlertType::NetworkRx, AlertType::NetworkTx]);
    // Five seconds later only memory is new; the others are still cooling down.
    log.check_alerts(at(105, 0), 10, Some("cpu"), Some("mem"), Some("rx"), None);
    assert_eq!(log.len(), 4);
    assert_eq!(log.entries()[3].alert_type, AlertType::Memory);
    assert_eq!(log.entries()[3].detail, "mem");
}

#[test]
fn check_alerts_without_breaches_changes_nothing() {
    let mut log: AlertLog<u8> = AlertLog::new();
    log.check_alerts(at(100, 0), 10, None, None, None, None);
    assert!(log.is_empty());
    assert!(log.last_time(AlertType::Cpu).is_none());
}

#[test]
fn same_instant_repeat_is_dropped() {
    let mut log = AlertLog::new();
    assert!(log.trigger(AlertType::Cpu, at(100, 5), 1, "first"));
    assert!(!log.trigger(AlertType::Cpu, at(100, 5), 1, "second"));
    assert_eq!(log.len(), 1);
    assert_eq!(log.entries()[0].detail, "first");
}

#[test]
fn newest_first_preview() {
    let mut log = AlertLog::new();
    for i in 0..6i64 {
        log.trigger(AlertType::Cpu, at(i * 20, 0), 10, i);
    }
    let preview: Vec<i64> = log.newest_first(4).iter().map(|a| a.detail).collect();
    assert_eq!(preview, vec![5, 4, 3, 2]);
    let all: Vec<i64> = log.newest_first(usize::MAX).iter().map(|a| a.detail).collect();
    assert_eq!(all, vec![5, 4, 3, 2, 1, 0]);
    assert!(log.newest_first(0).is_empty());
}

#[test]
fn same_type_alerts_stay_a_cooldown_apart() {
    let mut log = AlertLog::new();
    for step in 0..40i64 {
        let now = at(1_000 + step * 3, 250_000_000);
        log.check_alerts(now, 10, Some(step), Some(step), None, Some(step));
    }
    let entries = log.entries();
    for i in 0..entries.len() {
        for j in (i + 1)..entries.len() {
            if entries[i].alert_type == entries[j].alert_type {
                assert!(seconds_between(&entries[j].timestamp, &entries[i].timestamp) >= 10);
            }
        }
    }
    // Offers every 3 s with a 10 s cooldown: one alert per type every 12 s.
    let cpu: Vec<i64> = entries
        .iter()
        .filter(|a| a.alert_type == AlertType::Cpu)
        .map(|a| a.detail)
        .collect();
    assert_eq!(cpu, vec![0, 4, 8, 12, 16, 20, 24, 28, 32, 36]);
}

#[test]
fn huge_cooldown_drops_same_instant_repeat() {
    let mut log = AlertLog::new();
    assert!(log.trigger(AlertType::Cpu, at(100, 0), u64::MAX, 1));
    assert!(!log.trigger(AlertType::Cpu, at(100, 0), u64::MAX, 2));
    assert!(!log.trigger(AlertType::Cpu, at(1_000_000, 0), u64::MAX, 3));
    assert_eq!(log.len(), 1);
}
