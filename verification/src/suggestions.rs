use vstd::prelude::*;

verus! {

/// How far CPU usage is over its threshold.
#[derive(Debug, Clone, Copy, PartialEq, Eq, Structural)]
pub enum CpuSeverity {
    Moderate,
    High,
    Critical,
}

/// The colour in which a suggestion category is drawn.
#[derive(Debug, Clone, Copy, PartialEq, Eq, Structural)]
pub enum SuggestionColor {
    Cyan,
    Magenta,
    Yellow,
    Green,
}

/// A titled group of performance tips.
pub struct SuggestionCategory {
    pub title: &'static str,
    pub color_hint: SuggestionColor,
    pub tips: Vec<&'static str>,
}

/// The text of each string of `s`.
pub open spec fn texts(s: Seq<&'static str>) -> Seq<Seq<char>> {
    s.map_values(|x: &'static str| x@)
}

/// The label of a severity in the suggestions panel.
pub open spec fn severity_label(s: CpuSeverity) -> Seq<char> {
    match s {
        CpuSeverity::Moderate => "MODERATE"@,
        CpuSeverity::High => "HIGH"@,
        CpuSeverity::Critical => "CRITICAL"@,
    }
}

/// The advice given when CPU usage is over its threshold with severity `s`.
pub open spec fn severity_tips(s: CpuSeverity) -> Seq<Seq<char>> {
    match s {
        CpuSeverity::Critical => seq![
            "Kill runaway processes: open Task Manager (Ctrl+Shift+Esc) and end high-CPU tasks."@,
            "Check for malware or crypto miners consuming cycles unexpectedly."@,
            "Force-close frozen applications that may be spinning in a loop."@,
            "Consider rebooting if the issue persists — memory leaks can cause sustained spikes."@,
            "Check cooling: thermal throttling from overheating can cause erratic CPU spikes."@,
        ],
        CpuSeverity::High => seq![
            "Identify top consumers in Task Manager and close unnecessary apps."@,
            "Disable startup programs: Task Manager > Startup tab."@,
            "Update or reinstall drivers — faulty drivers can cause CPU spikes."@,
            "Check for Windows Update running in the background (svchost.exe)."@,
            "Reduce browser tabs or extensions, they are common CPU hogs."@,
        ],
        CpuSeverity::Moderate => seq![
            "Monitor usage over time — a brief spike is usually fine."@,
            "Close background apps you are not actively using."@,
            "Check if antivirus is running a scheduled scan."@,
            "Consider increasing the alert threshold if this is your normal workload."@,
        ],
    }
}

impl CpuSeverity {
    /// The label of this severity in the suggestions panel.
    pub fn label(self) -> (res: &'static str)
        ensures
            res@ == severity_label(self),
    {
        match self {
            CpuSeverity::Moderate => "MODERATE",
            CpuSeverity::High => "HIGH",
            CpuSeverity::Critical => "CRITICAL",
        }
    }

    /// The advice for this severity, most urgent first.
    pub fn tips(self) -> (res: Vec<&'static str>)
        ensures
            texts(res@) == severity_tips(self),
    {
        let res = match self {
            CpuSeverity::Critical => vec![
                "Kill runaway processes: open Task Manager (Ctrl+Shift+Esc) and end high-CPU tasks.",
                "Check for malware or crypto miners consuming cycles unexpectedly.",
                "Force-close frozen applications that may be spinning in a loop.",
                "Consider rebooting if the issue persists — memory leaks can cause sustained spikes.",
                "Check cooling: thermal throttling from overheating can cause erratic CPU spikes.",
            ],
            CpuSeverity::High => vec![
                "Identify top consumers in Task Manager and close unnecessary apps.",
                "Disable startup programs: Task Manager > Startup tab.",
                "Update or reinstall drivers — faulty drivers can cause CPU spikes.",
                "Check for Windows Update running in the background (svchost.exe).",
                "Reduce browser tabs or extensions, they are common CPU hogs.",
            ],
            CpuSeverity::Moderate => vec![
                "Monitor usage over time — a brief spike is usually fine.",
                "Close background apps you are not actively using.",
                "Check if antivirus is running a scheduled scan.",
                "Consider increasing the alert threshold if this is your normal workload.",
            ],
        };
        assert(texts(res@) =~= severity_tips(self));
        res
    }
}

/// The number of suggestion categories on the Suggestions view.
pub const SUGGESTION_CATEGORY_COUNT: usize = 4;
/// The title of the `i`-th suggestion category.
pub open spec fn category_title(i: int) -> Seq<char> {
    if i == 0 {
        "CPU Performance"@
    } else if i == 1 {
        "Memory (RAM)"@
    } else if i == 2 {
        "Network Usage"@
    } else {
        "General System Health"@
    }
}

/// The colour of the `i`-th suggestion category.
pub open spec fn category_color(i: int) -> SuggestionColor {
    if i == 0 {
        SuggestionColor::Cyan
    } else if i == 1 {
        SuggestionColor::Magenta
    } else if i == 2 {
        SuggestionColor::Yellow
    } else {
        SuggestionColor::Green
    }
}

/// The tips of the `i`-th suggestion category.
pub open spec fn category_tips(i: int) -> Seq<Seq<char>> {
    if i == 0 {
        seq![
            "Close applications you are not actively using — each open app consumes CPU cycles even when idle."@,
            "Disable startup programs that launch automatically: Task Manager > Startup tab, then disable anything you do not need."@,
            "Check for Windows Update or antivirus scans running in the background (visible in Task Manager under svchost.exe or your AV process)."@,
            "Reduce browser tabs and extensions — browsers are among the heaviest CPU consumers on most systems."@,
            "Update your device drivers, especially chipset and GPU drivers. Outdated drivers can cause unnecessary CPU overhead."@,
            "If CPU stays high with no obvious cause, run a malware scan — crypto miners and adware are common culprits."@,
            "For sustained high load, check CPU temperatures. Thermal throttling caused by poor cooling reduces effective performance."@,
        ]
    } else if i == 1 {
        seq![
            "Close unused browser tabs — each tab can consume 100-500 MB of RAM."@,
            "Restart applications that have been running for days. Long-running apps can accumulate memory leaks over time."@,
            "Disable startup programs to free RAM on boot: Task Manager > Startup tab."@,
            "Check for memory-heavy background processes in Task Manager and end tasks that are not needed."@,
            "If swap usage is high, your system is running low on physical RAM. Consider closing apps or upgrading your RAM."@,
            "Avoid running virtual machines or emulators unless necessary — they reserve large blocks of RAM."@,
            "Set a larger pagefile (virtual memory) if your system frequently runs out of RAM under heavy workloads."@,
        ]
    } else if i == 2 {
        seq![
            "Pause or schedule large downloads and updates for off-peak hours to keep bandwidth available."@,
            "Check for applications uploading data in the background — cloud sync tools (OneDrive, Dropbox, Google Drive) can saturate upload bandwidth."@,
            "Disable auto-play videos in browsers and streaming apps when you only need audio."@,
            "Use Task Manager > Performance > Open Resource Monitor > Network tab to identify which process is consuming bandwidth."@,
            "If upload traffic is unexpectedly high, check for backup software or telemetry processes running silently."@,
            "Restart your router if network speeds are consistently below your plan's rated speed."@,
        ]
    } else {
        seq![
            "Restart your computer regularly — Windows performs memory cleanup and applies updates on reboot."@,
            "Keep your OS and drivers up to date. Security patches often include performance fixes."@,
            "Run Disk Cleanup (Windows) periodically to remove temporary files that can slow down the system."@,
            "Check your storage drive health using a tool like CrystalDiskInfo — a failing drive causes slowdowns across the whole system."@,
            "Ensure your power plan is set to Balanced or High Performance: Control Panel > Power Options."@,
            "Disable visual effects for better performance: System Properties > Advanced > Performance Settings > Adjust for best performance."@,
            "Scan for malware monthly even if you have an antivirus — some malware disables AV protection."@,
        ]
    }
}

/// Whether `c` is the `i`-th suggestion category.
pub open spec fn is_category(c: SuggestionCategory, i: int) -> bool {
    &&& c.title@ == category_title(i)
    &&& c.color_hint == category_color(i)
    &&& texts(c.tips@) == category_tips(i)
}

/// All performance suggestions shown on the Suggestions view: CPU, memory,
/// network and general system health, in that order.
pub fn get_all_suggestions() -> (res: Vec<SuggestionCategory>)
    ensures
        res@.len() == SUGGESTION_CATEGORY_COUNT,
        forall|i: int| 0 <= i < SUGGESTION_CATEGORY_COUNT ==> is_category(#[trigger] res@[i], i),
{
    let c0_tips = vec![
        "Close applications you are not actively using — each open app consumes CPU cycles even when idle.",
        "Disable startup programs that launch automatically: Task Manager > Startup tab, then disable anything you do not need.",
        "Check for Windows Update or antivirus scans running in the background (visible in Task Manager under svchost.exe or your AV process).",
        "Reduce browser tabs and extensions — browsers are among the heaviest CPU consumers on most systems.",
        "Update your device drivers, especially chipset and GPU drivers. Outdated drivers can cause unnecessary CPU overhead.",
        "If CPU stays high with no obvious cause, run a malware scan — crypto miners and adware are common culprits.",
        "For sustained high load, check CPU temperatures. Thermal throttling caused by poor cooling reduces effective performance.",
    ];
    assert(texts(c0_tips@) =~= category_tips(0));
    let c0 = SuggestionCategory { title: "CPU Performance", color_hint: SuggestionColor::Cyan, tips: c0_tips };
    let c1_tips = vec![
        "Close unused browser tabs — each tab can consume 100-500 MB of RAM.",
        "Restart applications that have been running for days. Long-running apps can accumulate memory leaks over time.",
        "Disable startup programs to free RAM on boot: Task Manager > Startup tab.",
        "Check for memory-heavy background processes in Task Manager and end tasks that are not needed.",
        "If swap usage is high, your system is running low on physical RAM. Consider closing apps or upgrading your RAM.",
        "Avoid running virtual machines or emulators unless necessary — they reserve large blocks of RAM.",
        "Set a larger pagefile (virtual memory) if your system frequently runs out of RAM under heavy workloads.",
    ];
    assert(texts(c1_tips@) =~= category_tips(1));
    let c1 = SuggestionCategory { title: "Memory (RAM)", color_hint: SuggestionColor::Magenta, tips: c1_tips };
    let c2_tips = vec![
        "Pause or schedule large downloads and updates for off-peak hours to keep bandwidth available.",
        "Check for applications uploading data in the background — cloud sync tools (OneDrive, Dropbox, Google Drive) can saturate upload bandwidth.",
        "Disable auto-play videos in browsers and streaming apps when you only need audio.",
        "Use Task Manager > Performance > Open Resource Monitor > Network tab to identify which process is consuming bandwidth.",
        "If upload traffic is unexpectedly high, check for backup software or telemetry processes running silently.",
        "Restart your router if network speeds are consistently below your plan's rated speed.",
    ];
    assert(texts(c2_tips@) =~= category_tips(2));
    let c2 = SuggestionCategory { title: "Network Usage", color_hint: SuggestionColor::Yellow, tips: c2_tips };
    let c3_tips = vec![
        "Restart your computer regularly — Windows performs memory cleanup and applies updates on reboot.",
        "Keep your OS and drivers up to date. Security patches often include performance fixes.",
        "Run Disk Cleanup (Windows) periodically to remove temporary files that can slow down the system.",
        "Check your storage drive health using a tool like CrystalDiskInfo — a failing drive causes slowdowns across the whole system.",
        "Ensure your power plan is set to Balanced or High Performance: Control Panel > Power Options.",
        "Disable visual effects for better performance: System Properties > Advanced > Performance Settings > Adjust for best performance.",
        "Scan for malware monthly even if you have an antivirus — some malware disables AV protection.",
    ];
    assert(texts(c3_tips@) =~= category_tips(3));
    let c3 = SuggestionCategory { title: "General System Health", color_hint: SuggestionColor::Green, tips: c3_tips };
    let res = vec![c0, c1, c2, c3];
    assert(is_category(res@[0], 0));
    assert(is_category(res@[1], 1));
    assert(is_category(res@[2], 2));
    assert(is_category(res@[3], 3));
    res
}

/// The advice for each severity, word for word: five tips for critical,
/// five for high and four for moderate usage, in this order.
pub proof fn law_severity_tips_are_fixed()
    ensures
        severity_tips(CpuSeverity::Critical) == seq![
            "Kill runaway processes: open Task Manager (Ctrl+Shift+Esc) and end high-CPU tasks."@,
            "Check for malware or crypto miners consuming cycles unexpectedly."@,
            "Force-close frozen applications that may be spinning in a loop."@,
            "Consider rebooting if the issue persists — memory leaks can cause sustained spikes."@,
            "Check cooling: thermal throttling from overheating can cause erratic CPU spikes."@,
        ],
        severity_tips(CpuSeverity::High) == seq![
            "Identify top consumers in Task Manager and close unnecessary apps."@,
            "Disable startup programs: Task Manager > Startup tab."@,
            "Update or reinstall drivers — faulty drivers can cause CPU spikes."@,
            "Check for Windows Update running in the background (svchost.exe)."@,
            "Reduce browser tabs or extensions, they are common CPU hogs."@,
        ],
        severity_tips(CpuSeverity::Moderate) == seq![
            "Monitor usage over time — a brief spike is usually fine."@,
            "Close background apps you are not actively using."@,
            "Check if antivirus is running a scheduled scan."@,
            "Consider increasing the alert threshold if this is your normal workload."@,
        ],
        severity_label(CpuSeverity::Critical) == "CRITICAL"@,
        severity_label(CpuSeverity::High) == "HIGH"@,
        severity_label(CpuSeverity::Moderate) == "MODERATE"@,
{
}

/// No tip is given at two different severities: each severity has advice of
/// its own.
pub proof fn law_severity_tips_distinct(a: CpuSeverity, b: CpuSeverity, i: int, j: int)
    requires
        a != b,
        0 <= i < severity_tips(a).len(),
        0 <= j < severity_tips(b).len(),
    ensures
        severity_tips(a)[i] != severity_tips(b)[j],
{
    law_severity_tips_are_fixed();
    reveal_strlit("Kill runaway processes: open Task Manager (Ctrl+Shift+Esc) and end high-CPU tasks.");
    reveal_strlit("Check for malware or crypto miners consuming cycles unexpectedly.");
    reveal_strlit("Force-close frozen applications that may be spinning in a loop.");
    reveal_strlit("Consider rebooting if the issue persists — memory leaks can cause sustained spikes.");
    reveal_strlit("Check cooling: thermal throttling from overheating can cause erratic CPU spikes.");
    reveal_strlit("Identify top consumers in Task Manager and close unnecessary apps.");
    reveal_strlit("Disable startup programs: Task Manager > Startup tab.");
    reveal_strlit("Update or reinstall drivers — faulty drivers can cause CPU spikes.");
    reveal_strlit("Check for Windows Update running in the background (svchost.exe).");
    reveal_strlit("Reduce browser tabs or extensions, they are common CPU hogs.");
    reveal_strlit("Monitor usage over time — a brief spike is usually fine.");
    reveal_strlit("Close background apps you are not actively using.");
    reveal_strlit("Check if antivirus is running a scheduled scan.");
    reveal_strlit("Consider increasing the alert threshold if this is your normal workload.");
    // Each pair of tips differs in length or in one character.
    if a == CpuSeverity::Critical && b == CpuSeverity::High {
        if i == 0 && j == 0 { assert(severity_tips(a)[i].len() != severity_tips(b)[j].len()); }
        if i == 0 && j == 1 { assert(severity_tips(a)[i].len() != severity_tips(b)[j].len()); }
        if i == 0 && j == 2 { assert(severity_tips(a)[i].len() != severity_tips(b)[j].len()); }
        if i == 0 && j == 3 { assert(severity_tips(a)[i].len() != severity_tips(b)[j].len()); }
        if i == 0 && j == 4 { assert(severity_tips(a)[i].len() != severity_tips(b)[j].len()); }
        if i == 1 && j == 0 { assert(severity_tips(a)[i].len() != severity_tips(b)[j].len()); }
        if i == 1 && j == 1 { assert(severity_tips(a)[i].len() != severity_tips(b)[j].len()); }
        if i == 1 && j == 2 { assert(severity_tips(a)[i].len() != severity_tips(b)[j].len()); }
        if i == 1 && j == 3 { assert(severity_tips(a)[i][10] != severity_tips(b)[j][10]); }
        if i == 1 && j == 4 { assert(severity_tips(a)[i].len() != severity_tips(b)[j].len()); }
        if i == 2 && j == 0 { assert(severity_tips(a)[i].len() != severity_tips(b)[j].len()); }
        if i == 2 && j == 1 { assert(severity_tips(a)[i].len() != severity_tips(b)[j].len()); }
        if i == 2 && j == 2 { assert(severity_tips(a)[i].len() != severity_tips(b)[j].len()); }
        if i == 2 && j == 3 { assert(severity_tips(a)[i].len() != severity_tips(b)[j].len()); }
        if i == 2 && j == 4 { assert(severity_tips(a)[i].len() != severity_tips(b)[j].len()); }
        if i == 3 && j == 0 { assert(severity_tips(a)[i].len() != severity_tips(b)[j].len()); }
        if i == 3 && j == 1 { assert(severity_tips(a)[i].len() != severity_tips(b)[j].len()); }
        if i == 3 && j == 2 { assert(severity_tips(a)[i].len() != severity_tips(b)[j].len()); }
        if i == 3 && j == 3 { assert(severity_tips(a)[i].len() != severity_tips(b)[j].len()); }
        if i == 3 && j == 4 { assert(severity_tips(a)[i].len() != severity_tips(b)[j].len()); }
        if i == 4 && j == 0 { assert(severity_tips(a)[i].len() != severity_tips(b)[j].len()); }
        if i == 4 && j == 1 { assert(severity_tips(a)[i].len() != severity_tips(b)[j].len()); }
        if i == 4 && j == 2 { assert(severity_tips(a)[i].len() != severity_tips(b)[j].len()); }
        if i == 4 && j == 3 { assert(severity_tips(a)[i].len() != severity_tips(b)[j].len()); }
        if i == 4 && j == 4 { assert(severity_tips(a)[i].len() != severity_tips(b)[j].len()); }
    }
    if a == CpuSeverity::Critical && b == CpuSeverity::Moderate {
        if i == 0 && j == 0 { assert(severity_tips(a)[i].len() != severity_tips(b)[j].len()); }
        if i == 0 && j == 1 { assert(severity_tips(a)[i].len() != severity_tips(b)[j].len()); }
        if i == 0 && j == 2 { assert(severity_tips(a)[i].len() != severity_tips(b)[j].len()); }
        if i == 0 && j == 3 { assert(severity_tips(a)[i].len() != severity_tips(b)[j].len()); }
        if i == 1 && j == 0 { assert(severity_tips(a)[i].len() != severity_tips(b)[j].len()); }
        if i == 1 && j == 1 { assert(severity_tips(a)[i].len() != severity_tips(b)[j].len()); }
        if i == 1 && j == 2 { assert(severity_tips(a)[i].len() != severity_tips(b)[j].len()); }
        if i == 1 && j == 3 { assert(severity_tips(a)[i].len() != severity_tips(b)[j].len()); }
        if i == 2 && j == 0 { assert(severity_tips(a)[i].len() != severity_tips(b)[j].len()); }
        if i == 2 && j == 1 { assert(severity_tips(a)[i].len() != severity_tips(b)[j].len()); }
        if i == 2 && j == 2 { assert(severity_tips(a)[i].len() != severity_tips(b)[j].len()); }
        if i == 2 && j == 3 { assert(severity_tips(a)[i].len() != severity_tips(b)[j].len()); }
        if i == 3 && j == 0 { assert(severity_tips(a)[i].len() != severity_tips(b)[j].len()); }
        if i == 3 && j == 1 { assert(severity_tips(a)[i].len() != severity_tips(b)[j].len()); }
        if i == 3 && j == 2 { assert(severity_tips(a)[i].len() != severity_tips(b)[j].len()); }
        if i == 3 && j == 3 { assert(severity_tips(a)[i].len() != severity_tips(b)[j].len()); }
        if i == 4 && j == 0 { assert(severity_tips(a)[i].len() != severity_tips(b)[j].len()); }
        if i == 4 && j == 1 { assert(severity_tips(a)[i].len() != severity_tips(b)[j].len()); }
        if i == 4 && j == 2 { assert(severity_tips(a)[i].len() != severity_tips(b)[j].len()); }
        if i == 4 && j == 3 { assert(severity_tips(a)[i].len() != severity_tips(b)[j].len()); }
    }
    if a == CpuSeverity::High && b == CpuSeverity::Critical {
        if i == 0 && j == 0 { assert(severity_tips(a)[i].len() != severity_tips(b)[j].len()); }
        if i == 0 && j == 1 { assert(severity_tips(a)[i].len() != severity_tips(b)[j].len()); }
        if i == 0 && j == 2 { assert(severity_tips(a)[i].len() != severity_tips(b)[j].len()); }
        if i == 0 && j == 3 { assert(severity_tips(a)[i].len() != severity_tips(b)[j].len()); }
        if i == 0 && j == 4 { assert(severity_tips(a)[i].len() != severity_tips(b)[j].len()); }
        if i == 1 && j == 0 { assert(severity_tips(a)[i].len() != severity_tips(b)[j].len()); }
        if i == 1 && j == 1 { assert(severity_tips(a)[i].len() != severity_tips(b)[j].len()); }
        if i == 1 && j == 2 { assert(severity_tips(a)[i].len() != severity_tips(b)[j].len()); }
        if i == 1 && j == 3 { assert(severity_tips(a)[i].len() != severity_tips(b)[j].len()); }
        if i == 1 && j == 4 { assert(severity_tips(a)[i].len() != severity_tips(b)[j].len()); }
        if i == 2 && j == 0 { assert(severity_tips(a)[i].len() != severity_tips(b)[j].len()); }
        if i == 2 && j == 1 { assert(severity_tips(a)[i].len() != severity_tips(b)[j].len()); }
        if i == 2 && j == 2 { assert(severity_tips(a)[i].len() != severity_tips(b)[j].len()); }
        if i == 2 && j == 3 { assert(severity_tips(a)[i].len() != severity_tips(b)[j].len()); }
        if i == 2 && j == 4 { assert(severity_tips(a)[i].len() != severity_tips(b)[j].len()); }
        if i == 3 && j == 0 { assert(severity_tips(a)[i].len() != severity_tips(b)[j].len()); }
        if i == 3 && j == 1 { assert(severity_tips(a)[i][10] != severity_tips(b)[j][10]); }
        if i == 3 && j == 2 { assert(severity_tips(a)[i].len() != severity_tips(b)[j].len()); }
        if i == 3 && j == 3 { assert(severity_tips(a)[i].len() != severity_tips(b)[j].len()); }
        if i == 3 && j == 4 { assert(severity_tips(a)[i].len() != severity_tips(b)[j].len()); }
        if i == 4 && j == 0 { assert(severity_tips(a)[i].len() != severity_tips(b)[j].len()); }
        if i == 4 && j == 1 { assert(severity_tips(a)[i].len() != severity_tips(b)[j].len()); }
        if i == 4 && j == 2 { assert(severity_tips(a)[i].len() != severity_tips(b)[j].len()); }
        if i == 4 && j == 3 { assert(severity_tips(a)[i].len() != severity_tips(b)[j].len()); }
        if i == 4 && j == 4 { assert(severity_tips(a)[i].len() != severity_tips(b)[j].len()); }
    }
    if a == CpuSeverity::High && b == CpuSeverity::Moderate {
        if i == 0 && j == 0 { assert(severity_tips(a)[i].len() != severity_tips(b)[j].len()); }
        if i == 0 && j == 1 { assert(severity_tips(a)[i].len() != severity_tips(b)[j].len()); }
        if i == 0 && j == 2 { assert(severity_tips(a)[i].len() != severity_tips(b)[j].len()); }
        if i == 0 && j == 3 { assert(severity_tips(a)[i].len() != severity_tips(b)[j].len()); }
        if i == 1 && j == 0 { assert(severity_tips(a)[i].len() != severity_tips(b)[j].len()); }
        if i == 1 && j == 1 { assert(severity_tips(a)[i].len() != severity_tips(b)[j].len()); }
        if i == 1 && j == 2 { assert(severity_tips(a)[i].len() != severity_tips(b)[j].len()); }
        if i == 1 && j == 3 { assert(severity_tips(a)[i].len() != severity_tips(b)[j].len()); }
        if i == 2 && j == 0 { assert(severity_tips(a)[i].len() != severity_tips(b)[j].len()); }
        if i == 2 && j == 1 { assert(severity_tips(a)[i].len() != severity_tips(b)[j].len()); }
        if i == 2 && j == 2 { assert(severity_tips(a)[i].len() != severity_tips(b)[j].len()); }
        if i == 2 && j == 3 { assert(severity_tips(a)[i].len() != severity_tips(b)[j].len()); }
        if i == 3 && j == 0 { assert(severity_tips(a)[i].len() != severity_tips(b)[j].len()); }
        if i == 3 && j == 1 { assert(severity_tips(a)[i].len() != severity_tips(b)[j].len()); }
        if i == 3 && j == 2 { assert(severity_tips(a)[i].len() != severity_tips(b)[j].len()); }
        if i == 3 && j == 3 { assert(severity_tips(a)[i].len() != severity_tips(b)[j].len()); }
        if i == 4 && j == 0 { assert(severity_tips(a)[i].len() != severity_tips(b)[j].len()); }
        if i == 4 && j == 1 { assert(severity_tips(a)[i].len() != severity_tips(b)[j].len()); }
        if i == 4 && j == 2 { assert(severity_tips(a)[i].len() != severity_tips(b)[j].len()); }
        if i == 4 && j == 3 { assert(severity_tips(a)[i].len() != severity_tips(b)[j].len()); }
    }
    if a == CpuSeverity::Moderate && b == CpuSeverity::Critical {
        if i == 0 && j == 0 { assert(severity_tips(a)[i].len() != severity_tips(b)[j].len()); }
        if i == 0 && j == 1 { assert(severity_tips(a)[i].len() != severity_tips(b)[j].len()); }
        if i == 0 && j == 2 { assert(severity_tips(a)[i].len() != severity_tips(b)[j].len()); }
        if i == 0 && j == 3 { assert(severity_tips(a)[i].len() != severity_tips(b)[j].len()); }
        if i == 0 && j == 4 { assert(severity_tips(a)[i].len() != severity_tips(b)[j].len()); }
        if i == 1 && j == 0 { assert(severity_tips(a)[i].len() != severity_tips(b)[j].len()); }
        if i == 1 && j == 1 { assert(severity_tips(a)[i].len() != severity_tips(b)[j].len()); }
        if i == 1 && j == 2 { assert(severity_tips(a)[i].len() != severity_tips(b)[j].len()); }
        if i == 1 && j == 3 { assert(severity_tips(a)[i].len() != severity_tips(b)[j].len()); }
        if i == 1 && j == 4 { assert(severity_tips(a)[i].len() != severity_tips(b)[j].len()); }
        if i == 2 && j == 0 { assert(severity_tips(a)[i].len() != severity_tips(b)[j].len()); }
        if i == 2 && j == 1 { assert(severity_tips(a)[i].len() != severity_tips(b)[j].len()); }
        if i == 2 && j == 2 { assert(severity_tips(a)[i].len() != severity_tips(b)[j].len()); }
        if i == 2 && j == 3 { assert(severity_tips(a)[i].len() != severity_tips(b)[j].len()); }
        if i == 2 && j == 4 { assert(severity_tips(a)[i].len() != severity_tips(b)[j].len()); }
        if i == 3 && j == 0 { assert(severity_tips(a)[i].len() != severity_tips(b)[j].len()); }
        if i == 3 && j == 1 { assert(severity_tips(a)[i].len() != severity_tips(b)[j].len()); }
        if i == 3 && j == 2 { assert(severity_tips(a)[i].len() != severity_tips(b)[j].len()); }
        if i == 3 && j == 3 { assert(severity_tips(a)[i].len() != severity_tips(b)[j].len()); }
        if i == 3 && j == 4 { assert(severity_tips(a)[i].len() != severity_tips(b)[j].len()); }
    }
    if a == CpuSeverity::Moderate && b == CpuSeverity::High {
        if i == 0 && j == 0 { assert(severity_tips(a)[i].len() != severity_tips(b)[j].len()); }
        if i == 0 && j == 1 { assert(severity_tips(a)[i].len() != severity_tips(b)[j].len()); }
        if i == 0 && j == 2 { assert(severity_tips(a)[i].len() != severity_tips(b)[j].len()); }
        if i == 0 && j == 3 { assert(severity_tips(a)[i].len() != severity_tips(b)[j].len()); }
        if i == 0 && j == 4 { assert(severity_tips(a)[i].len() != severity_tips(b)[j].len()); }
        if i == 1 && j == 0 { assert(severity_tips(a)[i].len() != severity_tips(b)[j].len()); }
        if i == 1 && j == 1 { assert(severity_tips(a)[i].len() != severity_tips(b)[j].len()); }
        if i == 1 && j == 2 { assert(severity_tips(a)[i].len() != severity_tips(b)[j].len()); }
        if i == 1 && j == 3 { assert(severity_tips(a)[i].len() != severity_tips(b)[j].len()); }
        if i == 1 && j == 4 { assert(severity_tips(a)[i].len() != severity_tips(b)[j].len()); }
        if i == 2 && j == 0 { assert(severity_tips(a)[i].len() != severity_tips(b)[j].len()); }
        if i == 2 && j == 1 { assert(severity_tips(a)[i].len() != severity_tips(b)[j].len()); }
        if i == 2 && j == 2 { assert(severity_tips(a)[i].len() != severity_tips(b)[j].len()); }
        if i == 2 && j == 3 { assert(severity_tips(a)[i].len() != severity_tips(b)[j].len()); }
        if i == 2 && j == 4 { assert(severity_tips(a)[i].len() != severity_tips(b)[j].len()); }
        if i == 3 && j == 0 { assert(severity_tips(a)[i].len() != severity_tips(b)[j].len()); }
        if i == 3 && j == 1 { assert(severity_tips(a)[i].len() != severity_tips(b)[j].len()); }
        if i == 3 && j == 2 { assert(severity_tips(a)[i].len() != severity_tips(b)[j].len()); }
        if i == 3 && j == 3 { assert(severity_tips(a)[i].len() != severity_tips(b)[j].len()); }
        if i == 3 && j == 4 { assert(severity_tips(a)[i].len() != severity_tips(b)[j].len()); }
    }
}

/// The suggestion categories, word for word: each title with its colour and
/// its own tips, in this order.
pub proof fn law_categories_are_fixed()
    ensures
        category_title(0) == "CPU Performance"@,
        category_color(0) == SuggestionColor::Cyan,
        category_tips(0) == seq![
            "Close applications you are not actively using — each open app consumes CPU cycles even when idle."@,
            "Disable startup programs that launch automatically: Task Manager > Startup tab, then disable anything you do not need."@,
            "Check for Windows Update or antivirus scans running in the background (visible in Task Manager under svchost.exe or your AV process)."@,
            "Reduce browser tabs and extensions — browsers are among the heaviest CPU consumers on most systems."@,
            "Update your device drivers, especially chipset and GPU drivers. Outdated drivers can cause unnecessary CPU overhead."@,
            "If CPU stays high with no obvious cause, run a malware scan — crypto miners and adware are common culprits."@,
            "For sustained high load, check CPU temperatures. Thermal throttling caused by poor cooling reduces effective performance."@,
        ],
        category_title(1) == "Memory (RAM)"@,
        category_color(1) == SuggestionColor::Magenta,
        category_tips(1) == seq![
            "Close unused browser tabs — each tab can consume 100-500 MB of RAM."@,
            "Restart applications that have been running for days. Long-running apps can accumulate memory leaks over time."@,
            "Disable startup programs to free RAM on boot: Task Manager > Startup tab."@,
            "Check for memory-heavy background processes in Task Manager and end tasks that are not needed."@,
            "If swap usage is high, your system is running low on physical RAM. Consider closing apps or upgrading your RAM."@,
            "Avoid running virtual machines or emulators unless necessary — they reserve large blocks of RAM."@,
            "Set a larger pagefile (virtual memory) if your system frequently runs out of RAM under heavy workloads."@,
        ],
        category_title(2) == "Network Usage"@,
        category_color(2) == SuggestionColor::Yellow,
        category_tips(2) == seq![
            "Pause or schedule large downloads and updates for off-peak hours to keep bandwidth available."@,
            "Check for applications uploading data in the background — cloud sync tools (OneDrive, Dropbox, Google Drive) can saturate upload bandwidth."@,
            "Disable auto-play videos in browsers and streaming apps when you only need audio."@,
            "Use Task Manager > Performance > Open Resource Monitor > Network tab to identify which process is consuming bandwidth."@,
            "If upload traffic is unexpectedly high, check for backup software or telemetry processes running silently."@,
            "Restart your router if network speeds are consistently below your plan's rated speed."@,
        ],
        category_title(3) == "General System Health"@,
        category_color(3) == SuggestionColor::Green,
        category_tips(3) == seq![
            "Restart your computer regularly — Windows performs memory cleanup and applies updates on reboot."@,
            "Keep your OS and drivers up to date. Security patches often include performance fixes."@,
            "Run Disk Cleanup (Windows) periodically to remove temporary files that can slow down the system."@,
            "Check your storage drive health using a tool like CrystalDiskInfo — a failing drive causes slowdowns across the whole system."@,
            "Ensure your power plan is set to Balanced or High Performance: Control Panel > Power Options."@,
            "Disable visual effects for better performance: System Properties > Advanced > Performance Settings > Adjust for best performance."@,
            "Scan for malware monthly even if you have an antivirus — some malware disables AV protection."@,
        ],
{
}

} // verus!
