use vigil::history::{History, HISTORY_CAPACITY};

#[test]
fn new_history_is_empty() {
    let h: History<u32> = History::new();
    assert_eq!(h.len(), 0);
    assert!(h.values().is_empty());
}

#[test]
fn history_keeps_all_until_full() {
    let mut h = History::new();
    for i in 0..HISTORY_CAPACITY as u32 {
        h.push(i);
    }
    assert_eq!(h.len(), 200);
    assert_eq!(h.values()[0], 0);
    assert_eq!(h.values()[199], 199);
}

#[test]
fn history_drops_oldest_when_full() {
    let mut h = History::new();
    for i in 0..250u32 {
        h.push(i);
    }
    assert_eq!(h.len(), 200);
    let expected: Vec<u32> = (50..250).collect();
    assert_eq!(h.values(), &expected);
}

#[test]
fn history_of_floats() {
    let mut h = History::new();
    h.push(1.5f64);
    h.push(2.5f64);
    assert_eq!(h.values(), &vec![1.5, 2.5]);
}
