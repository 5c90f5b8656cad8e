//! Startup items: which programs start with Windows, and whether each is
//! approved to. The registry and the startup folders are read by the caller;
//! this module joins what was read.

use vstd::prelude::*;

use crate::text::contains_name;

verus! {

#[derive(Clone, Copy, Debug, PartialEq, Eq, Structural)]
pub enum StartupGroup {
    User,
    System,
}

/// Where an item is registered.
#[derive(Clone, Copy, Debug, PartialEq, Eq, Structural)]
pub enum StartupKind {
    Registry,
    Folder,
}

/// A program registered to start, in a Run key or a startup folder.
#[derive(Clone, Debug)]
pub struct StartupItem {
    pub kind: StartupKind,
    pub group: StartupGroup,
    /// The Run key or the folder that holds the item.
    pub path: String,
    pub name: String,
}

/// A startup item with its approval state.
#[derive(Clone, Debug)]
pub struct StartupState {
    pub kind: StartupKind,
    pub group: StartupGroup,
    pub path: String,
    /// The approval key that holds the item's state.
    pub state_path: String,
    pub name: String,
    /// Whether the item is allowed to start.
    pub state: bool,
}

/// A value of one of the approval keys, with the state it records.
#[derive(Clone, Debug)]
pub struct ApprovalEntry {
    /// The subkey of the approval key, such as `Run` or `StartupFolder`.
    pub key: String,
    /// The value's name, which is the item's name.
    pub name: String,
    pub enabled: bool,
}

/// The key under which Explorer records which startup items are approved.
pub const STARTUP_APPROVED_PATH: &'static str = "SOFTWARE\\Microsoft\\Windows\\CurrentVersion\\Explorer\\StartupApproved\\";

/// The first byte of an approval value that allows the item to start.
pub const APPROVAL_ENABLED: u8 = 2;

/// The first byte of an approval value that keeps the item from starting.
pub const APPROVAL_DISABLED: u8 = 3;

pub open spec fn state_view(s: StartupState) -> (
    StartupKind,
    StartupGroup,
    Seq<char>,
    Seq<char>,
    Seq<char>,
    bool,
) {
    (s.kind, s.group, s.path@, s.state_path@, s.name@, s.state)
}

pub open spec fn states_view(v: Seq<StartupState>) -> Seq<
    (StartupKind, StartupGroup, Seq<char>, Seq<char>, Seq<char>, bool),
> {
    v.map_values(|s: StartupState| state_view(s))
}

/// `i` is the first position of an item named `name`.
pub open spec fn is_first_named(items: Seq<StartupItem>, name: Seq<char>, i: int) -> bool {
    &&& 0 <= i < items.len()
    &&& items[i].name@ == name
    &&& forall|j: int| 0 <= j < i ==> items[j].name@ != name
}

/// The first position of an item named `name`.
pub open spec fn first_named(items: Seq<StartupItem>, name: Seq<char>) -> Option<int> {
    if exists|i: int| 0 <= i < items.len() && items[i].name@ == name {
        Some(choose|i: int| is_first_named(items, name, i))
    } else {
        None
    }
}

/// The states of the items that an approval value names, in the order of the
/// approval values; each takes the first item of that name.
pub open spec fn item_states(items: Seq<StartupItem>, entries: Seq<ApprovalEntry>) -> Seq<
    (StartupKind, StartupGroup, Seq<char>, Seq<char>, Seq<char>, bool),
>
    decreases entries.len(),
{
    if entries.len() == 0 {
        Seq::empty()
    } else {
        let rest = item_states(items, entries.drop_last());
        let e = entries.last();
        match first_named(items, e.name@) {
            Some(i) => rest.push(
                (
                    items[i].kind,
                    items[i].group,
                    items[i].path@,
                    STARTUP_APPROVED_PATH@ + e.key@,
                    e.name@,
                    e.enabled,
                ),
            ),
            None => rest,
        }
    }
}

/// The first item named `name`.
fn find_item_named(items: &Vec<StartupItem>, name: &String) -> (r: Option<usize>)
    ensures
        match r {
            Some(i) => i < items.len() && first_named(items@, name@) == Some(i as int),
            None => first_named(items@, name@) is None,
        },
{
    let mut i: usize = 0;
    while i < items.len()
        invariant
            i <= items.len(),
            forall|j: int| 0 <= j < i ==> items@[j].name@ != name@,
        decreases items.len() - i,
    {
        if items[i].name == *name {
            assert(is_first_named(items@, name@, i as int));
            return Some(i);
        }
        i = i + 1;
    }
    None
}

/// Joins startup items with the approval values: one state for each approval
/// value that names an item.
pub fn get_startup_item_state(items: &Vec<StartupItem>, entries: &Vec<ApprovalEntry>) -> (r: Vec<
    StartupState,
>)
    ensures
        states_view(r@) == item_states(items@, entries@),
{
    let mut r: Vec<StartupState> = Vec::new();
    let mut i: usize = 0;
    while i < entries.len()
        invariant
            i <= entries.len(),
            states_view(r@) == item_states(items@, entries@.take(i as int)),
        decreases entries.len() - i,
    {
        let e = &entries[i];
        proof {
            assert(entries@.take(i + 1).drop_last() =~= entries@.take(i as int));
            assert(entries@.take(i + 1).last() == entries@[i as int]);
        }
        match find_item_named(items, &e.name) {
            Some(k) => {
                let item = &items[k];
                let state_path = STARTUP_APPROVED_PATH.to_owned().concat(e.key.as_str());
                let ghost before = r@;
                r.push(
                    StartupState {
                        kind: item.kind,
                        group: item.group,
                        path: item.path.clone(),
                        state_path,
                        name: e.name.clone(),
                        state: e.enabled,
                    },
                );
                assert(states_view(r@) =~= states_view(before).push(state_view(r@[r.len() - 1])));
            },
            None => {},
        }
        i = i + 1;
    }
    assert(entries@.take(entries.len() as int) =~= entries@);
    r
}

/// The startup states of one group: its registry items, then its folder
/// items, joined with the group's approval values.
pub fn get_startup_items_by_group(
    registry_items: Vec<StartupItem>,
    folder_items: Vec<StartupItem>,
    entries: &Vec<ApprovalEntry>,
) -> (r: Vec<StartupState>)
    ensures
        states_view(r@) == item_states(registry_items@ + folder_items@, entries@),
{
    let mut items = registry_items;
    let mut folder = folder_items;
    items.append(&mut folder);
    get_startup_item_state(&items, entries)
}

/// The startup states of the user, then those of the system.
pub fn get_all_startup_items(user: Vec<StartupState>, system: Vec<StartupState>) -> (r: Vec<
    StartupState,
>)
    ensures
        r@ == user@ + system@,
{
    let mut r = user;
    let mut s = system;
    r.append(&mut s);
    r
}

/// The state an approval value records, from its first 32-bit word: 2 for
/// enabled, 3 for disabled; any other value records none.
pub fn approval_state(first_word: u32) -> (r: Option<bool>)
    ensures
        first_word == APPROVAL_ENABLED ==> r == Some(true),
        first_word == APPROVAL_DISABLED ==> r == Some(false),
        first_word != APPROVAL_ENABLED && first_word != APPROVAL_DISABLED ==> r is None,
{
    if first_word == APPROVAL_DISABLED as u32 {
        Some(false)
    } else if first_word == APPROVAL_ENABLED as u32 {
        Some(true)
    } else {
        None
    }
}

/// The byte an approval value is written with.
pub fn approval_byte(enabled: bool) -> (b: u8)
    ensures
        b == if enabled {
            APPROVAL_ENABLED
        } else {
            APPROVAL_DISABLED
        },
{
    if enabled {
        APPROVAL_ENABLED
    } else {
        APPROVAL_DISABLED
    }
}

/// `s` is named in `names`.
pub open spec fn listed(names: Seq<String>, s: StartupState) -> bool {
    exists|j: int| 0 <= j < names.len() && #[trigger] names[j]@ == s.name@
}

/// The positions, in increasing order, of the items whose name is listed.
pub fn listed_items(items: &Vec<StartupState>, names: &Vec<String>) -> (r: Vec<usize>)
    ensures
        forall|k: int| 0 <= k < r.len() ==> r@[k] < items.len() && listed(names@, items@[#[trigger] r@[k] as int]),
        forall|i: int| 0 <= i < items.len() && listed(names@, #[trigger] items@[i]) ==> r@.contains(i as usize),
        forall|a: int, b: int| 0 <= a < b < r.len() ==> r@[a] < r@[b],
{
    let mut r: Vec<usize> = Vec::new();
    let mut i: usize = 0;
    while i < items.len()
        invariant
            i <= items.len(),
            forall|k: int| 0 <= k < r.len() ==> r@[k] < i && listed(names@, items@[#[trigger] r@[k] as int]),
            forall|x: int| 0 <= x < i && listed(names@, #[trigger] items@[x]) ==> r@.contains(x as usize),
            forall|a: int, b: int| 0 <= a < b < r.len() ==> r@[a] < r@[b],
        decreases items.len() - i,
    {
        if contains_name(names, &items[i].name) {
            let ghost before = r@;
            r.push(i);
            proof {
                assert(r@[r.len() - 1] == i);
                assert forall|x: int| 0 <= x < i + 1 && listed(names@, #[trigger] items@[x]) implies r@.contains(x as usize) by {
                    if x < i {
                        let k = choose|k: int| 0 <= k < before.len() && before[k] == x as usize;
                        assert(r@[k] == x as usize);
                    }
                }
            }
        }
        i = i + 1;
    }
    r
}

} // verus!
