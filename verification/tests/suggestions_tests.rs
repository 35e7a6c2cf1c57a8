use vigil::metrics::total_traffic;
use vigil::suggestions::{get_all_suggestions, CpuSeverity, SuggestionColor};

#[test]
fn severity_labels() {
    assert_eq!(CpuSeverity::Moderate.label(), "MODERATE");
    assert_eq!(CpuSeverity::High.label(), "HIGH");
    assert_eq!(CpuSeverity::Critical.label(), "CRITICAL");
}

#[test]
fn severity_tips() {
    let critical = CpuSeverity::Critical.tips();
    assert_eq!(critical.len(), 5);
    assert_eq!(
        critical[0],
        "Kill runaway processes: open Task Manager (Ctrl+Shift+Esc) and end high-CPU tasks."
    );
    let high = CpuSeverity::High.tips();
    assert_eq!(high.len(), 5);
    assert_eq!(high[1], "Disable startup programs: Task Manager > Startup tab.");
    let moderate = CpuSeverity::Moderate.tips();
    assert_eq!(moderate.len(), 4);
    assert_eq!(
        moderate[3],
        "Consider increasing the alert threshold if this is your normal workload."
    );
}

#[test]
fn all_suggestion_categories() {
    let all = get_all_suggestions();
    let titles: Vec<&str> = all.iter().map(|c| c.title).collect();
    assert_eq!(
        titles,
        vec!["CPU Performance", "Memory (RAM)", "Network Usage", "General System Health"]
    );
    let counts: Vec<usize> = all.iter().map(|c| c.tips.len()).collect();
    assert_eq!(counts, vec![7, 7, 6, 7]);
    assert!(matches!(all[0].color_hint, SuggestionColor::Cyan));
    assert!(matches!(all[1].color_hint, SuggestionColor::Magenta));
    assert!(matches!(all[2].color_hint, SuggestionColor::Yellow));
    assert!(matches!(all[3].color_hint, SuggestionColor::Green));
    assert_eq!(
        all[2].tips[5],
        "Restart your router if network speeds are consistently below your plan's rated speed."
    );
}

#[test]
fn traffic_totals() {
    assert_eq!(total_traffic(&vec![]), Some(0));
    assert_eq!(total_traffic(&vec![1500, 0, 2500]), Some(4000));
    assert_eq!(total_traffic(&vec![u64::MAX]), Some(u64::MAX));
    assert_eq!(total_traffic(&vec![u64::MAX, 1]), None);
    assert_eq!(total_traffic(&vec![u64::MAX - 1, 1, 0]), Some(u64::MAX));
}
