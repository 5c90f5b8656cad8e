//! Process names: from an image path or a module name to the lower-case name
//! that the monitored lists hold. Reading them from the system is the
//! caller's part.

use vstd::prelude::*;

use crate::text::{chars_of, find_substring, has_substring, lower_of, lowercase, occurs_at};

verus! {

/// The position of the last character of `s[..n]` equal to `a` or `b`, or -1.
pub open spec fn last_index_in(s: Seq<char>, n: int, a: char, b: char) -> int
    decreases n,
{
    if n <= 0 {
        -1
    } else if s[n - 1] == a || s[n - 1] == b {
        n - 1
    } else {
        last_index_in(s, n - 1, a, b)
    }
}

/// The last component of a path, after the last `\` or `/`.
pub open spec fn file_name_of(path: Seq<char>) -> Seq<char> {
    path.subrange(last_index_in(path, path.len() as int, '\\', '/') + 1, path.len() as int)
}

/// A file name without its extension: the part before the last dot, unless
/// that dot is the first character or there is none.
pub open spec fn stem_of(name: Seq<char>) -> Seq<char> {
    let d = last_index_in(name, name.len() as int, '.', '.');
    if d <= 0 {
        name
    } else {
        name.subrange(0, d)
    }
}

pub open spec fn exe_suffix() -> Seq<char> {
    seq!['.', 'e', 'x', 'e']
}

/// `i` is the first position at which `t` occurs in `s`.
pub open spec fn is_first_occurrence(s: Seq<char>, t: Seq<char>, i: int) -> bool {
    occurs_at(s, t, i) && forall|j: int| 0 <= j < i ==> !occurs_at(s, t, j)
}

/// The part of `s` before the first occurrence of `t`; all of `s` without one.
pub open spec fn before_first(s: Seq<char>, t: Seq<char>) -> Seq<char> {
    if has_substring(s, t) {
        s.subrange(0, choose|i: int| is_first_occurrence(s, t, i))
    } else {
        s
    }
}

/// The executable name for a module's base name.
pub open spec fn executable_name_of(module_name: Seq<char>) -> Seq<char> {
    before_first(lower_of(module_name), exe_suffix())
}

/// The views of a list of strings.
pub open spec fn views(v: Seq<String>) -> Seq<Seq<char>> {
    v.map_values(|s: String| s@)
}

/// The non-empty executable names of a list of module names, in order.
pub open spec fn executable_names(module_names: Seq<String>) -> Seq<Seq<char>>
    decreases module_names.len(),
{
    if module_names.len() == 0 {
        Seq::empty()
    } else {
        let rest = executable_names(module_names.drop_last());
        let n = executable_name_of(module_names.last()@);
        if n.len() == 0 {
            rest
        } else {
            rest.push(n)
        }
    }
}

/// The names of `names` that equal `name`, in order.
pub open spec fn equal_to(names: Seq<Seq<char>>, name: Seq<char>) -> Seq<Seq<char>>
    decreases names.len(),
{
    if names.len() == 0 {
        Seq::empty()
    } else {
        let rest = equal_to(names.drop_last(), name);
        if names.last() == name {
            rest.push(name)
        } else {
            rest
        }
    }
}

/// The position of the last character equal to `a` or `b`.
fn last_index_of(cs: &Vec<char>, a: char, b: char) -> (r: Option<usize>)
    ensures
        match r {
            Some(i) => i < cs.len() && last_index_in(cs@, cs.len() as int, a, b) == i,
            None => last_index_in(cs@, cs.len() as int, a, b) == -1,
        },
{
    let mut n: usize = cs.len();
    while n > 0 && cs[n - 1] != a && cs[n - 1] != b
        invariant
            n <= cs.len(),
            last_index_in(cs@, cs.len() as int, a, b) == last_index_in(cs@, n as int, a, b),
        decreases n,
    {
        n = n - 1;
    }
    if n == 0 {
        None
    } else {
        Some(n - 1)
    }
}

/// The process name for an executable's image path: its file name without
/// extension, in lower case.
pub fn process_name_from_image_path(path: &str) -> (r: String)
    ensures
        r@ == lower_of(stem_of(file_name_of(path@))),
{
    let cs = chars_of(path);
    let start = match last_index_of(&cs, '\\', '/') {
        Some(i) => i + 1,
        None => 0,
    };
    let name = path.substring_char(start, cs.len());
    let ncs = chars_of(name);
    let end = match last_index_of(&ncs, '.', '.') {
        Some(d) => if d > 0 {
            d
        } else {
            ncs.len()
        },
        None => ncs.len(),
    };
    let stem = name.substring_char(0, end);
    assert(stem@ == stem_of(file_name_of(path@)));
    lowercase(stem)
}

/// The file name of an image path, extension and all, in lower case.
pub fn file_name_from_image_path(path: &str) -> (r: String)
    ensures
        r@ == lower_of(file_name_of(path@)),
{
    let cs = chars_of(path);
    let start = match last_index_of(&cs, '\\', '/') {
        Some(i) => i + 1,
        None => 0,
    };
    lowercase(path.substring_char(start, cs.len()))
}

/// The executable name for a module's base name: in lower case, and cut
/// before the first ".exe".
pub fn executable_name(module_name: &str) -> (r: String)
    ensures
        r@ == executable_name_of(module_name@),
{
    let lowered = lowercase(module_name);
    let cs = chars_of(lowered.as_str());
    let exe: Vec<char> = vec!['.', 'e', 'x', 'e'];
    assert(exe@ == exe_suffix());
    match find_substring(&cs, &exe) {
        Some(i) => {
            assert(is_first_occurrence(cs@, exe@, i as int));
            lowered.as_str().substring_char(0, i).to_owned()
        },
        None => lowered,
    }
}

/// The executable names of the running processes, from their module base
/// names, where the name is not empty (the caller gives an empty string for a
/// process it could not open).
pub fn get_processes_exec_name(module_names: &Vec<String>) -> (r: Vec<String>)
    ensures
        views(r@) == executable_names(module_names@),
{
    let mut r: Vec<String> = Vec::new();
    let mut i: usize = 0;
    while i < module_names.len()
        invariant
            i <= module_names.len(),
            views(r@) == executable_names(module_names@.take(i as int)),
        decreases module_names.len() - i,
    {
        let n = executable_name(module_names[i].as_str());
        proof {
            assert(module_names@.take(i + 1).drop_last() =~= module_names@.take(i as int));
            assert(module_names@.take(i + 1).last() == module_names@[i as int]);
        }
        if !n.as_str().is_empty() {
            let ghost before = r@;
            r.push(n);
            assert(views(r@) =~= views(before).push(n@));
        }
        i = i + 1;
    }
    assert(module_names@.take(module_names.len() as int) =~= module_names@);
    r
}

/// The executable names of the running processes that equal `name`.
pub fn get_processes_by_name(module_names: &Vec<String>, name: &str) -> (r: Vec<String>)
    ensures
        views(r@) == equal_to(executable_names(module_names@), name@),
{
    let all = get_processes_exec_name(module_names);
    let wanted: String = name.to_owned();
    let mut r: Vec<String> = Vec::new();
    let mut i: usize = 0;
    while i < all.len()
        invariant
            i <= all.len(),
            views(all@) == executable_names(module_names@),
            wanted@ == name@,
            views(r@) == equal_to(views(all@).take(i as int), name@),
        decreases all.len() - i,
    {
        proof {
            assert(views(all@).take(i + 1).drop_last() =~= views(all@).take(i as int));
            assert(views(all@).take(i + 1).last() == all@[i as int]@);
        }
        if all[i] == wanted {
            let ghost before = r@;
            r.push(all[i].clone());
            assert(views(r@) =~= views(before).push(name@));
        }
        i = i + 1;
    }
    assert(views(all@).take(all.len() as int) =~= views(all@));
    r
}

} // verus!
