//! Which processes are capturing audio, from the sessions of the capture device.

use vstd::prelude::*;

use crate::text::{contains_name, lower_of, lowercase};

verus! {

/// The state of an audio session.
#[derive(Clone, Copy, Debug, PartialEq, Eq, Structural)]
pub enum SessionState {
    Inactive,
    Active,
    Expired,
}

/// One audio session of an endpoint, as enumerated.
#[derive(Clone, Copy, Debug, PartialEq, Eq, Structural)]
pub struct AudioSession {
    pub owning_process_id: u32,
    pub state: SessionState,
    pub is_system_sounds: bool,
}

impl AudioSession {
    /// An active session that is not the system-sounds session.
    pub open spec fn counts(self) -> bool {
        !self.is_system_sounds && self.state == SessionState::Active
    }

    /// Whether this session's process is to be resolved and reported.
    pub fn is_candidate(&self) -> (r: bool)
        ensures
            r == self.counts(),
    {
        !self.is_system_sounds && self.state == SessionState::Active
    }
}

/// `n` is the non-empty resolved name of a session that counts.
pub open spec fn reported(sessions: Seq<AudioSession>, names: Seq<String>, n: Seq<char>) -> bool {
    &&& n.len() > 0
    &&& exists|i: int| 0 <= i < sessions.len() && sessions[i].counts() && #[trigger] names[i]@ == n
}

/// The processes that are capturing, from the sessions of the capture device.
/// `names[i]` is what the process resolver gave for `sessions[i]`: the empty
/// string where it failed, or where the session was not resolved at all. Such
/// a session is skipped and the scan goes on. Each name is reported once.
pub fn active_capturing_processes(sessions: &Vec<AudioSession>, names: &Vec<String>) -> (r: Vec<String>)
    requires
        names.len() == sessions.len(),
    ensures
        forall|k: int| 0 <= k < r.len() ==> reported(sessions@, names@, #[trigger] r@[k]@),
        forall|i: int|
            0 <= i < sessions.len() && sessions@[i].counts() && #[trigger] names@[i]@.len() > 0
                ==> exists|k: int| 0 <= k < r.len() && #[trigger] r@[k]@ == names@[i]@,
        forall|a: int, b: int| 0 <= a < b < r.len() ==> r@[a]@ != r@[b]@,
{
    let mut r: Vec<String> = Vec::new();
    let mut i: usize = 0;
    while i < sessions.len()
        invariant
            names.len() == sessions.len(),
            i <= sessions.len(),
            forall|k: int| 0 <= k < r.len() ==> reported(sessions@, names@, #[trigger] r@[k]@),
            forall|j: int|
                0 <= j < i && sessions@[j].counts() && #[trigger] names@[j]@.len() > 0
                    ==> exists|k: int| 0 <= k < r.len() && #[trigger] r@[k]@ == names@[j]@,
            forall|a: int, b: int| 0 <= a < b < r.len() ==> r@[a]@ != r@[b]@,
        decreases sessions.len() - i,
    {
        let s = &sessions[i];
        let ghost r0 = r@;
        if s.is_candidate() && !names[i].as_str().is_empty() && !contains_name(&r, &names[i]) {
            r.push(names[i].clone());
            proof {
                assert(r@[r.len() - 1]@ == names@[i as int]@);
                assert forall|j: int|
                    0 <= j < i && sessions@[j].counts() && #[trigger] names@[j]@.len() > 0
                        implies exists|k: int| 0 <= k < r.len() && #[trigger] r@[k]@ == names@[j]@ by {
                    let k = choose|k: int| 0 <= k < r0.len() && #[trigger] r0[k]@ == names@[j]@;
                    assert(r@[k]@ == names@[j]@);
                }
            }
        }
        i = i + 1;
    }
    r
}

/// Some capturing process has a monitored name, ignoring case.
pub open spec fn capturing_of(active: Seq<String>, monitored: Seq<String>) -> bool {
    exists|i: int, j: int|
        0 <= i < active.len() && 0 <= j < monitored.len() && lower_of(#[trigger] active[i]@)
            == lower_of(#[trigger] monitored[j]@)
}

/// A session whose process could not be resolved is skipped, and the scan
/// goes on: where each session that counts either failed to resolve or
/// resolved to a name that is not monitored, the processes reported from them
/// make the capture status false.
pub proof fn lemma_unresolved_sessions_not_capturing(
    sessions: Seq<AudioSession>,
    names: Seq<String>,
    monitored: Seq<String>,
    active: Seq<String>,
)
    requires
        names.len() == sessions.len(),
        forall|i: int, j: int|
            0 <= i < sessions.len() && sessions[i].counts() && names[i]@.len() > 0 && 0 <= j
                < monitored.len() ==> lower_of(#[trigger] names[i]@) != lower_of(
                #[trigger] monitored[j]@,
            ),
        forall|k: int| 0 <= k < active.len() ==> reported(sessions, names, #[trigger] active[k]@),
    ensures
        !capturing_of(active, monitored),
{
    if capturing_of(active, monitored) {
        let (i, j) = choose|i: int, j: int|
            0 <= i < active.len() && 0 <= j < monitored.len() && lower_of(#[trigger] active[i]@)
                == lower_of(#[trigger] monitored[j]@);
        assert(reported(sessions, names, active[i]@));
        let s = choose|s: int|
            0 <= s < sessions.len() && sessions[s].counts() && #[trigger] names[s]@ == active[i]@;
        assert(lower_of(names[s]@) != lower_of(monitored[j]@));
    }
}

/// The lower-case form of each name.
pub fn lowercase_all(v: &Vec<String>) -> (r: Vec<String>)
    ensures
        r.len() == v.len(),
        forall|k: int| 0 <= k < v.len() ==> #[trigger] r@[k]@ == lower_of(v@[k]@),
{
    let mut r: Vec<String> = Vec::new();
    let mut k: usize = 0;
    while k < v.len()
        invariant
            k <= v.len(),
            r.len() == k,
            forall|m: int| 0 <= m < k ==> #[trigger] r@[m]@ == lower_of(v@[m]@),
        decreases v.len() - k,
    {
        r.push(lowercase(v[k].as_str()));
        k = k + 1;
    }
    r
}

/// Whether the two lists share a name, exactly.
pub fn shares_name(a: &Vec<String>, b: &Vec<String>) -> (r: bool)
    ensures
        r == exists|i: int, j: int|
            0 <= i < a.len() && 0 <= j < b.len() && #[trigger] a@[i]@ == #[trigger] b@[j]@,
{
    let mut i: usize = 0;
    while i < a.len()
        invariant
            i <= a.len(),
            forall|x: int, j: int|
                0 <= x < i && 0 <= j < b.len() ==> #[trigger] a@[x]@ != #[trigger] b@[j]@,
        decreases a.len() - i,
    {
        if contains_name(b, &a[i]) {
            return true;
        }
        i = i + 1;
    }
    false
}

/// Whether a monitored application is capturing: the capturing processes and
/// the monitored names share a name, ignoring case.
pub fn is_capturing(active: &Vec<String>, monitored: &Vec<String>) -> (r: bool)
    ensures
        r == capturing_of(active@, monitored@),
{
    let la = lowercase_all(active);
    let lm = lowercase_all(monitored);
    let r = shares_name(&la, &lm);
    proof {
        if r {
            let (i, j) = choose|i: int, j: int|
                0 <= i < la.len() && 0 <= j < lm.len() && #[trigger] la@[i]@ == #[trigger] lm@[j]@;
            assert(lower_of(active@[i]@) == lower_of(monitored@[j]@));
        } else {
            assert forall|i: int, j: int|
                0 <= i < active.len() && 0 <= j < monitored.len() implies lower_of(
                #[trigger] active@[i]@,
            ) != lower_of(#[trigger] monitored@[j]@) by {
                assert(la@[i]@ != lm@[j]@);
            }
        }
    }
    r
}

} // verus!
