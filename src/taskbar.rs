//! The taskbar automation: keep the taskbar hidden unless a listed program has
//! a maximized window.

use vstd::prelude::*;

use crate::text::contains_name;

verus! {

/// The taskbar's size in pixels.
#[derive(Clone, Copy, Debug, PartialEq, Eq, Structural)]
pub struct TaskbarSize {
    pub height: u32,
    pub width: u32,
}

impl TaskbarSize {
    pub fn new() -> (s: Self)
        ensures
            s == (TaskbarSize { height: 0, width: 0 }),
    {
        TaskbarSize { height: 0, width: 0 }
    }

    /// The size of the taskbar's rectangle, each side taken modulo 2^32 as the
    /// system's signed coordinates are read unsigned.
    pub fn from_rect(left: i32, top: i32, right: i32, bottom: i32) -> (s: Self)
        ensures
            s.height as int == (bottom as int - top as int) % 0x1_0000_0000,
            s.width as int == (right as int - left as int) % 0x1_0000_0000,
    {
        let h: i64 = bottom as i64 - top as i64;
        let w: i64 = right as i64 - left as i64;
        let height: u32 = if h >= 0 {
            h as u32
        } else {
            (h + 0x1_0000_0000) as u32
        };
        let width: u32 = if w >= 0 {
            w as u32
        } else {
            (w + 0x1_0000_0000) as u32
        };
        TaskbarSize { height, width }
    }
}

impl Default for TaskbarSize {
    fn default() -> (s: Self)
        ensures
            s == (TaskbarSize { height: 0, width: 0 }),
    {
        TaskbarSize::new()
    }
}

/// A top-level window, as the caller enumerated it.
#[derive(Clone, Debug)]
pub struct WindowInfo {
    pub visible: bool,
    pub maximized: bool,
    /// The lower-case file name of the window's process.
    pub process_name: String,
}

/// A visible, maximized window of a listed program.
pub open spec fn keeps_taskbar(w: WindowInfo, apps: Seq<String>) -> bool {
    &&& w.visible
    &&& w.maximized
    &&& exists|j: int| 0 <= j < apps.len() && #[trigger] apps[j]@ == w.process_name@
}

/// Whether the taskbar is to auto-hide: no listed program has a visible,
/// maximized window.
pub fn should_hide_taskbar(windows: &Vec<WindowInfo>, apps: &Vec<String>) -> (r: bool)
    ensures
        r == !exists|i: int| 0 <= i < windows.len() && keeps_taskbar(#[trigger] windows@[i], apps@),
{
    let mut i: usize = 0;
    while i < windows.len()
        invariant
            i <= windows.len(),
            forall|k: int| 0 <= k < i ==> !keeps_taskbar(#[trigger] windows@[k], apps@),
        decreases windows.len() - i,
    {
        let w = &windows[i];
        if w.visible && w.maximized && contains_name(apps, &w.process_name) {
            assert(keeps_taskbar(windows@[i as int], apps@));
            return false;
        }
        i = i + 1;
    }
    true
}

} // verus!
