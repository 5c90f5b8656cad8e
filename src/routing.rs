//! The routing state machine: once per poll it looks at the output devices, the
//! current default and the capturing processes, and switches the default output
//! between the communication and the general device class.
//!
//! A tick is a short exchange: the machine names the next thing to look up
//! (a [`TickAction`]), the caller does it and hands the result back (a
//! [`TickEvent`]), until the machine says the tick is over. Only the finished
//! tick's outcome changes the [`RoutingState`].

use vstd::prelude::*;

use crate::device::{Device, DeviceClass};
use crate::error::AudioDeviceError;
use crate::session::{capturing_of, is_capturing};

verus! {

/// The one value that persists from poll to poll.
#[derive(Clone, Copy, Debug, PartialEq, Eq, Structural)]
pub struct RoutingState {
    /// Whether, as of the last completed poll, a monitored process was capturing.
    pub is_communication_active: bool,
}

/// The stage a tick has reached, by what it waits for.
#[derive(Clone, Copy, Debug, PartialEq, Eq, Structural)]
pub enum Stage {
    ListingDevices,
    ReadingDefault,
    QueryingSessions,
    Switching,
    Done,
}

/// How a tick ended.
#[derive(Debug)]
pub enum TickOutcome {
    /// Routing is disabled, or there are fewer than two output devices.
    Skipped,
    /// A lookup or the switch failed; the next tick starts over.
    Aborted(AudioDeviceError),
    /// The tick ran to its end; `switched_to` is the device it switched to.
    Completed { capturing: bool, switched_to: Option<String> },
}

/// What the caller is to do next.
#[derive(Debug)]
pub enum TickAction {
    /// Enumerate the active output devices.
    EnumerateRender,
    /// Read the current default output device.
    GetDefaultRender,
    /// List the processes capturing on the default capture device.
    ListCapturingProcesses,
    /// Make the device with this id the default output.
    SetDefaultOutput(String),
    /// The tick is over.
    Finish(TickOutcome),
}

/// What the caller observed, in answer to the last action.
#[derive(Debug)]
pub enum TickEvent {
    RenderDevices(Vec<Device>),
    DefaultRender(Device),
    CapturingProcesses(Vec<String>),
    SwitchDone,
    /// The last action failed.
    Failed(AudioDeviceError),
}

/// One poll in progress.
#[derive(Debug)]
pub struct Tick {
    pub stage: Stage,
    /// The routing state when the tick began.
    pub active: bool,
    /// The monitored process names.
    pub monitored: Vec<String>,
    /// The output devices, once enumerated.
    pub devices: Vec<Device>,
    /// The class of the default output, once read.
    pub default_class: DeviceClass,
    /// Whether a monitored process is capturing, once known.
    pub capturing: bool,
    /// The id of the device being switched to.
    pub target: String,
}

/// The class the default output should move to: from general to
/// communication when capture starts, back when it stops. Nothing when the
/// capture status is unchanged, or the default is not of the class to leave.
pub open spec fn wants_class(active: bool, default_class: DeviceClass, capturing: bool) -> Option<DeviceClass> {
    if !active && capturing && default_class == DeviceClass::General {
        Some(DeviceClass::Communication)
    } else if active && !capturing && default_class == DeviceClass::Communication {
        Some(DeviceClass::General)
    } else {
        None
    }
}

/// `i` is the first position of a device of class `c`.
pub open spec fn is_first_of_class(devices: Seq<Device>, c: DeviceClass, i: int) -> bool {
    &&& 0 <= i < devices.len()
    &&& devices[i].class == c
    &&& forall|j: int| 0 <= j < i ==> devices[j].class != c
}

/// The first position of a device of class `c`, in enumeration order.
pub open spec fn first_of_class(devices: Seq<Device>, c: DeviceClass) -> Option<int> {
    if exists|i: int| 0 <= i < devices.len() && devices[i].class == c {
        Some(choose|i: int| is_first_of_class(devices, c, i))
    } else {
        None
    }
}

/// The position of the device a tick switches to, if it switches.
pub open spec fn switch_target(
    active: bool,
    devices: Seq<Device>,
    default_class: DeviceClass,
    capturing: bool,
) -> Option<int> {
    match wants_class(active, default_class, capturing) {
        Some(c) => first_of_class(devices, c),
        None => None,
    }
}

/// The routing state after a tick with this outcome.
pub open spec fn next_active(active: bool, outcome: TickOutcome) -> bool {
    match outcome {
        TickOutcome::Completed { capturing, .. } => capturing,
        _ => active,
    }
}

/// The routing state after a run of ticks that began in state `init`.
pub open spec fn active_after(init: bool, outcomes: Seq<TickOutcome>) -> bool
    decreases outcomes.len(),
{
    if outcomes.len() == 0 {
        init
    } else {
        next_active(active_after(init, outcomes.drop_last()), outcomes.last())
    }
}

/// Whether the event answers what a tick at this stage waits for.
pub open spec fn accepts_spec(stage: Stage, event: TickEvent) -> bool {
    match event {
        TickEvent::RenderDevices(_) => stage == Stage::ListingDevices,
        TickEvent::DefaultRender(_) => stage == Stage::ReadingDefault,
        TickEvent::CapturingProcesses(_) => stage == Stage::QueryingSessions,
        TickEvent::SwitchDone => stage == Stage::Switching,
        TickEvent::Failed(_) => stage != Stage::Done,
    }
}

/// A device of class `c` at position `w` means there is a first one.
proof fn lemma_first_below(devices: Seq<Device>, c: DeviceClass, w: int)
    requires
        0 <= w < devices.len(),
        devices[w].class == c,
    ensures
        exists|i: int| is_first_of_class(devices, c, i),
    decreases w,
{
    if exists|j: int| 0 <= j < w && devices[j].class == c {
        let j = choose|j: int| 0 <= j < w && devices[j].class == c;
        lemma_first_below(devices, c, j);
    } else {
        assert(is_first_of_class(devices, c, w));
    }
}

/// Where a device of class `c` exists, the first one has a position.
pub proof fn lemma_first_of_class(devices: Seq<Device>, c: DeviceClass)
    ensures
        match first_of_class(devices, c) {
            Some(i) => is_first_of_class(devices, c, i),
            None => forall|j: int| 0 <= j < devices.len() ==> devices[j].class != c,
        },
{
    if exists|i: int| 0 <= i < devices.len() && devices[i].class == c {
        let w = choose|i: int| 0 <= i < devices.len() && devices[i].class == c;
        lemma_first_below(devices, c, w);
    }
}

/// The first device of class `c`, in enumeration order.
pub fn find_class(devices: &Vec<Device>, c: DeviceClass) -> (r: Option<usize>)
    ensures
        match r {
            Some(i) => i < devices.len() && first_of_class(devices@, c) == Some(i as int),
            None => first_of_class(devices@, c) is None,
        },
{
    let mut i: usize = 0;
    while i < devices.len()
        invariant
            i <= devices.len(),
            forall|j: int| 0 <= j < i ==> devices@[j].class != c,
        decreases devices.len() - i,
    {
        if devices[i].class == c {
            assert(is_first_of_class(devices@, c, i as int));
            return Some(i);
        }
        i = i + 1;
    }
    None
}

/// The device a tick switches to, given the routing state, the output devices,
/// the default's class and whether a monitored process is capturing.
pub fn plan_switch(active: bool, devices: &Vec<Device>, default_class: DeviceClass, capturing: bool) -> (r:
    Option<usize>)
    ensures
        match r {
            Some(i) => i < devices.len() && switch_target(active, devices@, default_class, capturing)
                == Some(i as int),
            None => switch_target(active, devices@, default_class, capturing) is None,
        },
{
    if !active && capturing && default_class == DeviceClass::General {
        find_class(devices, DeviceClass::Communication)
    } else if active && !capturing && default_class == DeviceClass::Communication {
        find_class(devices, DeviceClass::General)
    } else {
        None
    }
}

/// No flapping: once a tick has completed with a capture status, a tick that
/// sees the same devices, the same default class and the same capture status
/// issues no switch.
pub proof fn lemma_no_flap(
    active: bool,
    devices: Seq<Device>,
    default_class: DeviceClass,
    capturing: bool,
    switched_to: Option<String>,
)
    ensures
        switch_target(
            next_active(active, TickOutcome::Completed { capturing, switched_to }),
            devices,
            default_class,
            capturing,
        ) is None,
{
}

/// When capture starts while a general device is the default and a
/// communication device exists, the tick switches, and to a communication
/// device: the first one enumerated.
pub proof fn lemma_capture_start_switches(devices: Seq<Device>)
    requires
        exists|i: int| 0 <= i < devices.len() && devices[i].class == DeviceClass::Communication,
    ensures
        switch_target(false, devices, DeviceClass::General, true) matches Some(i) && is_first_of_class(
            devices,
            DeviceClass::Communication,
            i,
        ),
{
    lemma_first_of_class(devices, DeviceClass::Communication);
}

/// The routing state after a run of ticks is the capture status that the last
/// completed tick observed, whether or not it switched; with no completed tick
/// it is the initial state. Skipped ticks and ticks aborted by a failed lookup
/// or a failed switch leave it alone, so the next tick tries again.
pub proof fn lemma_state_follows_last_completed(init: bool, outcomes: Seq<TickOutcome>)
    ensures
        (forall|k: int| 0 <= k < outcomes.len() ==> !(#[trigger] outcomes[k] is Completed))
            ==> active_after(init, outcomes) == init,
        forall|k: int|
            0 <= k < outcomes.len() && #[trigger] outcomes[k] is Completed && (forall|m: int|
                k < m < outcomes.len() ==> !(#[trigger] outcomes[m] is Completed)) ==> active_after(
                init,
                outcomes,
            ) == outcomes[k]->capturing,
    decreases outcomes.len(),
{
    if outcomes.len() > 0 {
        let rest = outcomes.drop_last();
        lemma_state_follows_last_completed(init, rest);
        assert forall|k: int| 0 <= k < rest.len() implies #[trigger] rest[k] == outcomes[k] by {}
        let n = outcomes.len() - 1;
        if !(outcomes[n] is Completed) {
            assert forall|k: int|
                0 <= k < outcomes.len() && #[trigger] outcomes[k] is Completed && (forall|m: int|
                    k < m < outcomes.len() ==> !(#[trigger] outcomes[m] is Completed)) implies active_after(
                init,
                outcomes,
            ) == outcomes[k]->capturing by {
                assert(k < n);
                assert(rest[k] is Completed);
                assert forall|m: int| k < m < rest.len() implies !(#[trigger] rest[m] is Completed) by {
                    assert(rest[m] == outcomes[m]);
                }
            }
        }
    }
}

impl RoutingState {
    /// The state at startup: no communication routing.
    pub fn new() -> (s: Self)
        ensures
            !s.is_communication_active,
    {
        RoutingState { is_communication_active: false }
    }

    pub fn is_communication_active(&self) -> (r: bool)
        ensures
            r == self.is_communication_active,
    {
        self.is_communication_active
    }

    /// Begins a poll. Nothing is looked up when routing is disabled.
    pub fn start_tick(&self, routing_enabled: bool, monitored: Vec<String>) -> (r: (Tick, TickAction))
        ensures
            r.0.active == self.is_communication_active,
            r.0.monitored@ == monitored@,
            routing_enabled ==> r.0.stage == Stage::ListingDevices && r.1 is EnumerateRender,
            !routing_enabled ==> r.0.stage == Stage::Done && r.1 matches TickAction::Finish(
                TickOutcome::Skipped,
            ),
    {
        let stage = if routing_enabled {
            Stage::ListingDevices
        } else {
            Stage::Done
        };
        let tick = Tick {
            stage,
            active: self.is_communication_active,
            monitored,
            devices: Vec::new(),
            default_class: DeviceClass::Unknown,
            capturing: false,
            target: String::new(),
        };
        if routing_enabled {
            (tick, TickAction::EnumerateRender)
        } else {
            (tick, TickAction::Finish(TickOutcome::Skipped))
        }
    }

    /// Records how a tick ended: a completed tick sets the state to what it
    /// observed, whether or not it switched; a skipped or aborted one leaves
    /// the state as it was.
    pub fn finish_tick(&mut self, outcome: &TickOutcome)
        ensures
            final(self).is_communication_active == next_active(
                old(self).is_communication_active,
                *outcome,
            ),
    {
        match outcome {
            TickOutcome::Completed { capturing, .. } => {
                self.is_communication_active = *capturing;
            },
            _ => {},
        }
    }
}

impl Tick {
    /// Whether `event` answers what this tick waits for.
    pub fn accepts(&self, event: &TickEvent) -> (r: bool)
        ensures
            r == accepts_spec(self.stage, *event),
    {
        match event {
            TickEvent::RenderDevices(_) => self.stage == Stage::ListingDevices,
            TickEvent::DefaultRender(_) => self.stage == Stage::ReadingDefault,
            TickEvent::CapturingProcesses(_) => self.stage == Stage::QueryingSessions,
            TickEvent::SwitchDone => self.stage == Stage::Switching,
            TickEvent::Failed(_) => self.stage != Stage::Done,
        }
    }

    /// Takes the answer to the last action and names the next one.
    pub fn advance(&mut self, event: TickEvent) -> (a: TickAction)
        requires
            accepts_spec(old(self).stage, event),
        ensures
            final(self).active == old(self).active,
            final(self).monitored@ == old(self).monitored@,
            match event {
                TickEvent::Failed(e) => {
                    &&& final(self).stage == Stage::Done
                    &&& a matches TickAction::Finish(TickOutcome::Aborted(f)) && f == e
                },
                TickEvent::RenderDevices(ds) => if ds.len() < 2 {
                    final(self).stage == Stage::Done && a matches TickAction::Finish(
                        TickOutcome::Skipped,
                    )
                } else {
                    &&& final(self).stage == Stage::ReadingDefault
                    &&& final(self).devices@ == ds@
                    &&& a is GetDefaultRender
                },
                TickEvent::DefaultRender(d) => {
                    &&& final(self).stage == Stage::QueryingSessions
                    &&& final(self).devices@ == old(self).devices@
                    &&& final(self).default_class == d.class
                    &&& a is ListCapturingProcesses
                },
                TickEvent::CapturingProcesses(names) => {
                    let c = capturing_of(names@, old(self).monitored@);
                    &&& final(self).capturing == c
                    &&& match switch_target(
                        old(self).active,
                        old(self).devices@,
                        old(self).default_class,
                        c,
                    ) {
                        Some(i) => {
                            &&& final(self).stage == Stage::Switching
                            &&& final(self).target@ == old(self).devices@[i].device_id@
                            &&& a matches TickAction::SetDefaultOutput(id) && id@
                                == old(self).devices@[i].device_id@
                        },
                        None => {
                            &&& final(self).stage == Stage::Done
                            &&& a matches TickAction::Finish(
                                TickOutcome::Completed { capturing, switched_to },
                            ) && capturing == c && switched_to is None
                        },
                    }
                },
                TickEvent::SwitchDone => {
                    &&& final(self).stage == Stage::Done
                    &&& a matches TickAction::Finish(
                        TickOutcome::Completed { capturing, switched_to },
                    ) && capturing == old(self).capturing && (switched_to matches Some(id) && id@
                        == old(self).target@)
                },
            },
    {
        match event {
            TickEvent::Failed(e) => {
                self.stage = Stage::Done;
                TickAction::Finish(TickOutcome::Aborted(e))
            },
            TickEvent::RenderDevices(ds) => {
                if ds.len() < 2 {
                    self.stage = Stage::Done;
                    TickAction::Finish(TickOutcome::Skipped)
                } else {
                    self.devices = ds;
                    self.stage = Stage::ReadingDefault;
                    TickAction::GetDefaultRender
                }
            },
            TickEvent::DefaultRender(d) => {
                self.default_class = d.class;
                self.stage = Stage::QueryingSessions;
                TickAction::ListCapturingProcesses
            },
            TickEvent::CapturingProcesses(names) => {
                let c = is_capturing(&names, &self.monitored);
                self.capturing = c;
                match plan_switch(self.active, &self.devices, self.default_class, c) {
                    Some(i) => {
                        let id = self.devices[i].device_id.clone();
                        self.target = self.devices[i].device_id.clone();
                        self.stage = Stage::Switching;
                        TickAction::SetDefaultOutput(id)
                    },
                    None => {
                        self.stage = Stage::Done;
                        TickAction::Finish(TickOutcome::Completed { capturing: c, switched_to: None })
                    },
                }
            },
            TickEvent::SwitchDone => {
                self.stage = Stage::Done;
                let id = self.target.clone();
                TickAction::Finish(TickOutcome::Completed { capturing: self.capturing, switched_to: Some(id) })
            },
        }
    }
}

} // verus!
