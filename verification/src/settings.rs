use vstd::prelude::*;

verus! {

/// The adjustable settings, in the order the Settings view lists them.
#[derive(Debug, Clone, Copy, PartialEq, Eq, Structural)]
pub enum Setting {
    RefreshInterval,
    CpuThreshold,
    MemoryThreshold,
    NetworkRxThreshold,
    NetworkTxThreshold,
    AlertCooldown,
}

/// How many settings the Settings view lists.
pub const SETTING_COUNT: usize = 6;

/// Step of the refresh interval, in milliseconds.
pub const REFRESH_STEP_MS: u64 = 100;

/// Lowest refresh interval that a decrease can reach, in milliseconds.
pub const MIN_REFRESH_MS: u64 = 100;

/// Step of the alert cooldown, in seconds.
pub const COOLDOWN_STEP_SECS: u64 = 1;

/// Lowest alert cooldown that a decrease can reach, in seconds.
pub const MIN_COOLDOWN_SECS: u64 = 1;

/// The setting listed at position `i`, if there is one.
pub open spec fn setting_at(i: int) -> Option<Setting> {
    if i == 0 {
        Some(Setting::RefreshInterval)
    } else if i == 1 {
        Some(Setting::CpuThreshold)
    } else if i == 2 {
        Some(Setting::MemoryThreshold)
    } else if i == 3 {
        Some(Setting::NetworkRxThreshold)
    } else if i == 4 {
        Some(Setting::NetworkTxThreshold)
    } else if i == 5 {
        Some(Setting::AlertCooldown)
    } else {
        None
    }
}

/// The position of `s` in the Settings view.
pub open spec fn setting_position(s: Setting) -> int {
    match s {
        Setting::RefreshInterval => 0,
        Setting::CpuThreshold => 1,
        Setting::MemoryThreshold => 2,
        Setting::NetworkRxThreshold => 3,
        Setting::NetworkTxThreshold => 4,
        Setting::AlertCooldown => 5,
    }
}

/// An adjustment requested from the keyboard: one step up or down of one setting.
#[derive(Debug, Clone, Copy, PartialEq, Eq, Structural)]
pub struct Adjustment {
    pub setting: Setting,
    pub increase: bool,
}

impl Setting {
    /// The setting at position `i` of the Settings view; `None` past the last one.
    pub fn from_index(i: usize) -> (res: Option<Setting>)
        ensures
            res == setting_at(i as int),
    {
        match i {
            0 => Some(Setting::RefreshInterval),
            1 => Some(Setting::CpuThreshold),
            2 => Some(Setting::MemoryThreshold),
            3 => Some(Setting::NetworkRxThreshold),
            4 => Some(Setting::NetworkTxThreshold),
            5 => Some(Setting::AlertCooldown),
            _ => None,
        }
    }

    /// The position of this setting in the Settings view.
    pub fn index(self) -> (res: usize)
        ensures
            res == setting_position(self),
            res < SETTING_COUNT,
    {
        match self {
            Setting::RefreshInterval => 0,
            Setting::CpuThreshold => 1,
            Setting::MemoryThreshold => 2,
            Setting::NetworkRxThreshold => 3,
            Setting::NetworkTxThreshold => 4,
            Setting::AlertCooldown => 5,
        }
    }

    /// The name under which the Settings view lists this setting.
    pub fn label(self) -> (res: &'static str)
        ensures
            res@ == setting_label(self),
    {
        match self {
            Setting::RefreshInterval => "Refresh Interval (ms)",
            Setting::CpuThreshold => "CPU Threshold (%)",
            Setting::MemoryThreshold => "Memory Threshold (%)",
            Setting::NetworkRxThreshold => "Network RX Threshold (MB/s)",
            Setting::NetworkTxThreshold => "Network TX Threshold (MB/s)",
            Setting::AlertCooldown => "Alert Cooldown (seconds)",
        }
    }
}

/// The name under which the Settings view lists `s`.
pub open spec fn setting_label(s: Setting) -> Seq<char> {
    match s {
        Setting::RefreshInterval => "Refresh Interval (ms)"@,
        Setting::CpuThreshold => "CPU Threshold (%)"@,
        Setting::MemoryThreshold => "Memory Threshold (%)"@,
        Setting::NetworkRxThreshold => "Network RX Threshold (MB/s)"@,
        Setting::NetworkTxThreshold => "Network TX Threshold (MB/s)"@,
        Setting::AlertCooldown => "Alert Cooldown (seconds)"@,
    }
}

/// `x + step`, saturating at `u64::MAX`.
pub open spec fn saturating_up(x: u64, step: u64) -> u64 {
    if x + step <= u64::MAX {
        (x + step) as u64
    } else {
        u64::MAX
    }
}

/// `x` one `step` down, but not below `floor`; a value already at or below
/// `floor` stays as it is, so a step down never raises a value.
pub open spec fn floored_down(x: u64, step: u64, floor: u64) -> u64 {
    if x <= floor {
        x
    } else if x - step >= floor {
        (x - step) as u64
    } else {
        floor
    }
}

/// The refresh interval after one step up or down.
pub open spec fn stepped_refresh_interval(ms: u64, increase: bool) -> u64 {
    if increase {
        saturating_up(ms, REFRESH_STEP_MS)
    } else {
        floored_down(ms, REFRESH_STEP_MS, MIN_REFRESH_MS)
    }
}

/// The alert cooldown after one step up or down.
pub open spec fn stepped_alert_cooldown(secs: u64, increase: bool) -> u64 {
    if increase {
        saturating_up(secs, COOLDOWN_STEP_SECS)
    } else {
        floored_down(secs, COOLDOWN_STEP_SECS, MIN_COOLDOWN_SECS)
    }
}

fn floor_step_down(x: u64, step: u64, floor: u64) -> (res: u64)
    ensures
        res == floored_down(x, step, floor),
{
    if x <= floor {
        x
    } else if x - floor >= step {
        x - step
    } else {
        floor
    }
}

/// One step of the refresh interval: 100 ms up (saturating), or 100 ms down
/// but not below 100 ms (an interval already at or below 100 ms stays).
pub fn step_refresh_interval(ms: u64, increase: bool) -> (res: u64)
    ensures
        res == stepped_refresh_interval(ms, increase),
{
    if increase {
        ms.saturating_add(REFRESH_STEP_MS)
    } else {
        floor_step_down(ms, REFRESH_STEP_MS, MIN_REFRESH_MS)
    }
}

/// One step of the alert cooldown: one second up (saturating), or one second
/// down but not below one second (a cooldown already at or below one second
/// stays).
pub fn step_alert_cooldown(secs: u64, increase: bool) -> (res: u64)
    ensures
        res == stepped_alert_cooldown(secs, increase),
{
    if increase {
        secs.saturating_add(COOLDOWN_STEP_SECS)
    } else {
        floor_step_down(secs, COOLDOWN_STEP_SECS, MIN_COOLDOWN_SECS)
    }
}

/// Every setting sits at the position the Settings view lists it, and the
/// six positions name six settings.
pub proof fn law_setting_positions(s: Setting, i: int)
    ensures
        setting_at(setting_position(s)) == Some(s),
        0 <= setting_position(s) < SETTING_COUNT,
        setting_at(i) is Some <==> 0 <= i < SETTING_COUNT,
        setting_at(i) matches Some(t) ==> setting_position(t) == i,
{
}

/// A step down never raises the refresh interval and a step up never lowers it; a
/// step down does not take it below 100 ms, and leaves a value already at
/// or below 100 ms as it is; a value at or above 100 ms stays so after
/// either step.
pub proof fn law_refresh_interval_bounds(ms: u64)
    ensures
        stepped_refresh_interval(ms, false) <= ms,
        stepped_refresh_interval(ms, true) >= ms,
        ms > MIN_REFRESH_MS ==> stepped_refresh_interval(ms, false) >= MIN_REFRESH_MS,
        ms <= MIN_REFRESH_MS ==> stepped_refresh_interval(ms, false) == ms,
        ms >= MIN_REFRESH_MS ==> stepped_refresh_interval(ms, false) >= MIN_REFRESH_MS && stepped_refresh_interval(ms, true) >= MIN_REFRESH_MS,
{
}

/// A step up and a step down of the refresh interval undo each other away
/// from its bounds.
pub proof fn law_refresh_interval_steps_undo(ms: u64)
    ensures
        MIN_REFRESH_MS <= ms <= u64::MAX - REFRESH_STEP_MS ==> stepped_refresh_interval(
            stepped_refresh_interval(ms, true),
            false,
        ) == ms,
        ms >= MIN_REFRESH_MS + REFRESH_STEP_MS ==> stepped_refresh_interval(
            stepped_refresh_interval(ms, false),
            true,
        ) == ms,
{
}

/// A step down never raises the alert cooldown and a step up never lowers it; a
/// step down does not take it below one second, and leaves a value already at
/// or below one second as it is; a value at or above one second stays so after
/// either step.
pub proof fn law_alert_cooldown_bounds(secs: u64)
    ensures
        stepped_alert_cooldown(secs, false) <= secs,
        stepped_alert_cooldown(secs, true) >= secs,
        secs > MIN_COOLDOWN_SECS ==> stepped_alert_cooldown(secs, false) >= MIN_COOLDOWN_SECS,
        secs <= MIN_COOLDOWN_SECS ==> stepped_alert_cooldown(secs, false) == secs,
        secs >= MIN_COOLDOWN_SECS ==> stepped_alert_cooldown(secs, false) >= MIN_COOLDOWN_SECS && stepped_alert_cooldown(secs, true) >= MIN_COOLDOWN_SECS,
{
}

/// A step up and a step down of the alert cooldown undo each other away
/// from its bounds.
pub proof fn law_alert_cooldown_steps_undo(secs: u64)
    ensures
        MIN_COOLDOWN_SECS <= secs <= u64::MAX - COOLDOWN_STEP_SECS ==> stepped_alert_cooldown(
            stepped_alert_cooldown(secs, true),
            false,
        ) == secs,
        secs >= MIN_COOLDOWN_SECS + COOLDOWN_STEP_SECS ==> stepped_alert_cooldown(
            stepped_alert_cooldown(secs, false),
            true,
        ) == secs,
{
}

} // verus!
