//! The power-scheme automation: on battery for too long, or with too little
//! charge left, choose the power saver scheme; back on mains, leave it.

use vstd::prelude::*;

use crate::config::PowerConfig;

verus! {

/// The battery and mains state, as the system reports it.
#[derive(Clone, Copy, Debug, PartialEq, Eq, Structural)]
pub struct SystemPowerStatus {
    pub is_plugged_in: bool,
    pub is_battery_saver_enabled: bool,
    pub remaining_percentage: u32,
    pub remaining_time: u32,
}

impl SystemPowerStatus {
    /// The status from the system's raw fields: the AC line status (1 for
    /// online), the system status flag (1 for battery saver on), the battery
    /// life percentage and the battery life time in seconds.
    pub fn from_raw(ac_line_status: u8, system_status_flag: u8, battery_percent: u8, battery_time: u32) -> (s: Self)
        ensures
            s == (SystemPowerStatus {
                is_plugged_in: ac_line_status == 1,
                is_battery_saver_enabled: system_status_flag == 1,
                remaining_percentage: battery_percent as u32,
                remaining_time: battery_time,
            }),
    {
        SystemPowerStatus {
            is_plugged_in: ac_line_status == 1,
            is_battery_saver_enabled: system_status_flag == 1,
            remaining_percentage: battery_percent as u32,
            remaining_time: battery_time,
        }
    }
}

/// What one second of the power automation does.
#[derive(Clone, Copy, Debug, PartialEq, Eq, Structural)]
pub struct PowerPlan {
    /// Make the power saver scheme the active one.
    pub use_saver: bool,
    /// If the power saver scheme is the active one, make the high-performance
    /// scheme active instead.
    pub leave_saver: bool,
    /// The seconds on battery, counted up to the next second.
    pub on_battery_secs: u32,
}

pub open spec fn power_plan(config: PowerConfig, status: SystemPowerStatus, on_battery_secs: u32) -> PowerPlan {
    if !config.enabled {
        PowerPlan { use_saver: false, leave_saver: false, on_battery_secs }
    } else {
        PowerPlan {
            use_saver: (config.timer != 0 && on_battery_secs > config.timer) || (config.percentage
                != 0 && !status.is_plugged_in && status.remaining_percentage < config.percentage),
            leave_saver: status.is_plugged_in,
            on_battery_secs: if status.is_plugged_in {
                0
            } else if on_battery_secs < u32::MAX {
                (on_battery_secs + 1) as u32
            } else {
                on_battery_secs
            },
        }
    }
}

/// Decides one second of the power automation, from its settings, the power
/// status and the seconds spent on battery so far.
pub fn plan_power(config: &PowerConfig, status: &SystemPowerStatus, on_battery_secs: u32) -> (p: PowerPlan)
    ensures
        p == power_plan(*config, *status, on_battery_secs),
{
    if !config.enabled {
        return PowerPlan { use_saver: false, leave_saver: false, on_battery_secs };
    }
    let too_long = config.timer != 0 && on_battery_secs > config.timer;
    let too_low = config.percentage != 0 && !status.is_plugged_in && status.remaining_percentage
        < config.percentage;
    let secs = if status.is_plugged_in {
        0
    } else {
        on_battery_secs.saturating_add(1)
    };
    PowerPlan { use_saver: too_long || too_low, leave_saver: status.is_plugged_in, on_battery_secs: secs }
}

} // verus!
