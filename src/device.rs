//! Audio endpoints and the heuristic that sorts them into classes.

use vstd::prelude::*;

use crate::text::{chars_of, find_substring, has_substring, lower_of, lowercase};

verus! {

/// The direction of an audio endpoint.
#[derive(Clone, Copy, Debug, PartialEq, Eq, Structural)]
pub enum DeviceType {
    /// A capture endpoint (a microphone).
    Input,
    /// A render endpoint (speakers, headphones).
    Output,
}

/// The coarse class of an endpoint, as far as routing is concerned.
#[derive(Clone, Copy, Debug, PartialEq, Eq, Structural)]
pub enum DeviceClass {
    /// Meant for calls: headphones and headsets.
    Communication,
    /// Meant for everything else: speakers.
    General,
    /// Neither token occurs in the description.
    Unknown,
}

pub open spec fn headphone_token() -> Seq<char> {
    seq!['h', 'e', 'a', 'd', 'p', 'h', 'o', 'n', 'e']
}

pub open spec fn speaker_token() -> Seq<char> {
    seq!['s', 'p', 'e', 'a', 'k', 'e', 'r']
}

/// The class of a description that is already in lower case. This substring
/// rule is a fuzzy heuristic (it knows English words only), and it is the one
/// classification rule there is: "headphone" wins over "speaker".
pub open spec fn class_of(lowered: Seq<char>) -> DeviceClass {
    if has_substring(lowered, headphone_token()) {
        DeviceClass::Communication
    } else if has_substring(lowered, speaker_token()) {
        DeviceClass::General
    } else {
        DeviceClass::Unknown
    }
}

/// Classifies a description that the caller has already lower-cased.
pub fn classify_lowered(lowered: &str) -> (r: DeviceClass)
    ensures
        r == class_of(lowered@),
{
    let cs = chars_of(lowered);
    let headphone: Vec<char> = vec!['h', 'e', 'a', 'd', 'p', 'h', 'o', 'n', 'e'];
    let speaker: Vec<char> = vec!['s', 'p', 'e', 'a', 'k', 'e', 'r'];
    assert(headphone@ == headphone_token());
    assert(speaker@ == speaker_token());
    if find_substring(&cs, &headphone).is_some() {
        DeviceClass::Communication
    } else if find_substring(&cs, &speaker).is_some() {
        DeviceClass::General
    } else {
        DeviceClass::Unknown
    }
}

/// Classifies a device description, ignoring case.
pub fn classify(description: &str) -> (r: DeviceClass)
    ensures
        r == class_of(lower_of(description@)),
{
    let lowered = lowercase(description);
    classify_lowered(lowered.as_str())
}

/// An active audio endpoint as one enumeration saw it.
#[derive(Clone, Debug)]
pub struct Device {
    /// The endpoint's identifier, stable while the device stays plugged in.
    pub device_id: String,
    pub direction: DeviceType,
    /// The device description that the class is derived from.
    pub device_type: String,
    /// The friendly name, for display only.
    pub device_name: String,
    pub class: DeviceClass,
}

impl Device {
    /// The class agrees with the description.
    pub open spec fn wf(&self) -> bool {
        self.class == class_of(lower_of(self.device_type@))
    }

    /// A device whose class is derived from its description.
    pub fn new(direction: DeviceType, device_id: String, device_type: String, device_name: String) -> (d: Self)
        ensures
            d.wf(),
            d.direction == direction,
            d.device_id@ == device_id@,
            d.device_type@ == device_type@,
            d.device_name@ == device_name@,
    {
        let class = classify(device_type.as_str());
        Device { device_id, direction, device_type, device_name, class }
    }
}

} // verus!
