//! The utility's settings: on/off toggles and the per-automation options.

use vstd::prelude::*;

verus! {

/// The microphone-routing automation.
#[derive(Clone, Debug, PartialEq, Eq)]
pub struct MicrophoneConfig {
    pub enabled: bool,
    /// The executable names whose capture triggers routing, in any case.
    pub apps: Vec<String>,
}

/// The power-scheme automation.
#[derive(Clone, Copy, Debug, PartialEq, Eq, Structural)]
pub struct PowerConfig {
    pub enabled: bool,
    /// Seconds on battery after which the power saver scheme is chosen; 0 for never.
    pub timer: u32,
    /// Battery percentage under which the power saver scheme is chosen; 0 for never.
    pub percentage: u32,
}

/// The startup-items automation.
#[derive(Clone, Debug, PartialEq, Eq)]
pub struct AutoStartConfig {
    pub enabled: bool,
    pub apps: Vec<String>,
}

/// The taskbar automation.
#[derive(Clone, Debug, PartialEq, Eq)]
pub struct TaskbarConfig {
    pub enabled: bool,
    pub apps: Vec<String>,
}

/// All settings.
#[derive(Clone, Debug, PartialEq, Eq)]
pub struct Config {
    /// Run with Windows.
    pub startup: bool,
    /// Turn Wi-Fi off while Ethernet is plugged in.
    pub ethernet: bool,
    pub microphone: MicrophoneConfig,
    pub power: PowerConfig,
    pub autostart: AutoStartConfig,
    pub taskbar: TaskbarConfig,
}

impl Default for MicrophoneConfig {
    fn default() -> (c: Self)
        ensures
            !c.enabled,
            c.apps@.len() == 0,
    {
        MicrophoneConfig { enabled: false, apps: Vec::new() }
    }
}

impl Default for PowerConfig {
    fn default() -> (c: Self)
        ensures
            c == (PowerConfig { enabled: false, timer: 0, percentage: 0 }),
    {
        PowerConfig { enabled: false, timer: 0, percentage: 0 }
    }
}

impl Default for AutoStartConfig {
    fn default() -> (c: Self)
        ensures
            !c.enabled,
            c.apps@.len() == 0,
    {
        AutoStartConfig { enabled: false, apps: Vec::new() }
    }
}

impl Default for TaskbarConfig {
    fn default() -> (c: Self)
        ensures
            !c.enabled,
            c.apps@.len() == 0,
    {
        TaskbarConfig { enabled: false, apps: Vec::new() }
    }
}

impl Default for Config {
    /// Everything off and empty, with no power thresholds.
    fn default() -> (c: Self)
        ensures
            !c.startup,
            !c.ethernet,
            !c.microphone.enabled,
            c.microphone.apps@.len() == 0,
            c.power == (PowerConfig { enabled: false, timer: 0, percentage: 0 }),
            !c.autostart.enabled,
            c.autostart.apps@.len() == 0,
            !c.taskbar.enabled,
            c.taskbar.apps@.len() == 0,
    {
        Config {
            startup: false,
            ethernet: false,
            microphone: MicrophoneConfig::default(),
            power: PowerConfig::default(),
            autostart: AutoStartConfig::default(),
            taskbar: TaskbarConfig::default(),
        }
    }
}

impl Config {
    /// The settings of a first run: everything off, and power thresholds of
    /// 300 seconds and 60 percent.
    pub fn new() -> (c: Self)
        ensures
            !c.startup,
            !c.ethernet,
            !c.microphone.enabled,
            c.microphone.apps@.len() == 0,
            c.power == (PowerConfig { enabled: false, timer: 300, percentage: 60 }),
            !c.autostart.enabled,
            c.autostart.apps@.len() == 0,
            !c.taskbar.enabled,
            c.taskbar.apps@.len() == 0,
    {
        Config {
            startup: false,
            ethernet: false,
            microphone: MicrophoneConfig { enabled: false, apps: Vec::new() },
            power: PowerConfig { enabled: false, timer: 300, percentage: 60 },
            autostart: AutoStartConfig { enabled: false, apps: Vec::new() },
            taskbar: TaskbarConfig { enabled: false, apps: Vec::new() },
        }
    }

    pub fn toggle_startup(&mut self)
        ensures
            *final(self) == (Config { startup: !old(self).startup, ..*old(self) }),
    {
        self.startup = !self.startup;
    }

    pub fn toggle_ethernet(&mut self)
        ensures
            *final(self) == (Config { ethernet: !old(self).ethernet, ..*old(self) }),
    {
        self.ethernet = !self.ethernet;
    }

    pub fn toggle_microphone(&mut self)
        ensures
            final(self).microphone.enabled == !old(self).microphone.enabled,
            *final(self) == (Config {
                microphone: MicrophoneConfig {
                    enabled: final(self).microphone.enabled,
                    ..old(self).microphone
                },
                ..*old(self)
            }),
    {
        self.microphone.enabled = !self.microphone.enabled;
    }

    pub fn toggle_power(&mut self)
        ensures
            *final(self) == (Config {
                power: PowerConfig { enabled: !old(self).power.enabled, ..old(self).power },
                ..*old(self)
            }),
    {
        self.power.enabled = !self.power.enabled;
    }

    pub fn toggle_autostart(&mut self)
        ensures
            final(self).autostart.enabled == !old(self).autostart.enabled,
            *final(self) == (Config {
                autostart: AutoStartConfig {
                    enabled: final(self).autostart.enabled,
                    ..old(self).autostart
                },
                ..*old(self)
            }),
    {
        self.autostart.enabled = !self.autostart.enabled;
    }

    pub fn toggle_taskbar(&mut self)
        ensures
            final(self).taskbar.enabled == !old(self).taskbar.enabled,
            *final(self) == (Config {
                taskbar: TaskbarConfig { enabled: final(self).taskbar.enabled, ..old(self).taskbar },
                ..*old(self)
            }),
    {
        self.taskbar.enabled = !self.taskbar.enabled;
    }

    /// Sets both power thresholds, keeping whether the automation is on.
    pub fn set_power(&mut self, timer: u32, percentage: u32)
        ensures
            *final(self) == (Config {
                power: PowerConfig { enabled: old(self).power.enabled, timer, percentage },
                ..*old(self)
            }),
    {
        self.power = PowerConfig { enabled: self.power.enabled, timer, percentage };
    }
}

} // verus!
