//! Windows on screen: which entries of the system's window list are shown
//! to the user, and what is recorded of each.
use vstd::prelude::*;
use crate::platform::{file_name_of, path_file_name};
use crate::text::{decimal, i32_to_string, law_parse_formatted, parse_i32, parse_i32_spec, signed_decimal};

verus! {

/// A window of another application, as the program records it.
/// (Its on-screen rectangle is kept beside it by the caller.)
#[derive(Debug, Clone)]
pub struct ActiveWindow {
    pub title: String,
    pub app_name: String,
    pub exec_name: String,
    pub window_id: String,
    pub process_id: u32,
    pub memory: u32,
}

/// What the system's window list reports of one window, in plain values.
#[derive(Debug, Clone)]
pub struct WindowInfo {
    /// The window is currently on screen.
    pub on_screen: bool,
    /// The window layer; ordinary application windows lie in `0..=100`.
    pub layer: i32,
    /// The window's bounds could be read.
    pub has_bounds: bool,
    /// The bounds are narrower or lower than 50 points.
    pub too_small: bool,
    /// The process that owns the window.
    pub process_id: i32,
    /// The owning application is the active one.
    pub is_active: bool,
    /// The bundle identifier of the owning application (empty when unknown).
    pub bundle_identifier: String,
    /// The name of the owning application.
    pub app_name: String,
    /// The window title.
    pub title: String,
    /// The path of the owning application's bundle (empty when unknown).
    pub bundle_path: String,
    /// The memory the window uses, in bytes.
    pub memory: i32,
    /// The window number.
    pub window_number: i32,
}

/// Whether a window of the system's list is shown: on screen, in an
/// ordinary layer, at least 50 points in both directions, owned by a real
/// process that is not the Dock, and, when only the active window is
/// asked for, owned by the active application.
pub open spec fn window_listed(w: WindowInfo, only_active: bool) -> bool {
    &&& w.on_screen
    &&& 0 <= w.layer <= 100
    &&& w.has_bounds
    &&& !w.too_small
    &&& w.process_id != 0
    &&& !(only_active && !w.is_active)
    &&& w.bundle_identifier@ != "com.apple.dock"@
}

/// An `i32` reinterpreted as a `u32` (as `x as u32` does).
pub open spec fn as_u32(x: int) -> int {
    if x >= 0 { x } else { x + 4294967296 }
}

/// The executable name recorded for a bundle path.
pub open spec fn exec_name_for(bundle_path: Seq<char>) -> Seq<char> {
    if bundle_path.len() == 0 {
        match file_name_of(bundle_path) {
            Some(n) => n,
            None => Seq::<char>::empty(),
        }
    } else {
        Seq::<char>::empty()
    }
}

/// Whether `w` is the record made of the list entry `info`.
pub open spec fn window_of(w: ActiveWindow, info: WindowInfo) -> bool {
    &&& w.app_name@ == info.app_name@
    &&& w.title@ == info.title@
    &&& w.exec_name@ == exec_name_for(info.bundle_path@)
    &&& w.window_id@ == signed_decimal(info.window_number as int)
    &&& w.process_id == as_u32(info.process_id as int)
    &&& w.memory == as_u32(info.memory as int)
}

/// The positions of the listed entries among the first `n` entries, in order.
pub open spec fn listed_positions(infos: Seq<WindowInfo>, only_active: bool, n: nat) -> Seq<int>
    decreases n,
{
    if n == 0 {
        Seq::<int>::empty()
    } else {
        let before = listed_positions(infos, only_active, (n - 1) as nat);
        if window_listed(infos[n - 1], only_active) {
            before.push(n - 1)
        } else {
            before
        }
    }
}

/// Whether `w` is the empty record.
pub open spec fn is_empty_window(w: ActiveWindow) -> bool {
    &&& w.title@.len() == 0
    &&& w.app_name@.len() == 0
    &&& w.exec_name@.len() == 0
    &&& w.window_id@.len() == 0
    &&& w.process_id == 0
    &&& w.memory == 0
}

impl ActiveWindow {
    /// The record used when no window is found: every text empty, every
    /// number zero.
    pub fn empty() -> (res: ActiveWindow)
        ensures
            is_empty_window(res),
    {
        ActiveWindow {
            title: String::new(),
            app_name: String::new(),
            exec_name: String::new(),
            window_id: String::new(),
            process_id: 0,
            memory: 0,
        }
    }
}

fn to_u32(x: i32) -> (res: u32)
    ensures
        res == as_u32(x as int),
{
    if x >= 0 {
        x as u32
    } else {
        (x as i64 + 4294967296i64) as u32
    }
}

/// The executable name recorded for a bundle path: the path's final
/// component when the path is empty, and nothing otherwise.
pub fn exec_name_from(bundle_path: &str) -> (res: String)
    ensures
        res@ == exec_name_for(bundle_path@),
{
    if bundle_path.is_empty() {
        match path_file_name(bundle_path) {
            Some(n) => n,
            None => String::new(),
        }
    } else {
        String::new()
    }
}

/// Whether a window of the system's list is shown (see `window_listed`).
pub fn is_listed(w: &WindowInfo, only_active: bool) -> (res: bool)
    ensures
        res == window_listed(*w, only_active),
{
    if !w.on_screen {
        return false;
    }
    if w.layer < 0 || w.layer > 100 {
        return false;
    }
    if !w.has_bounds || w.too_small {
        return false;
    }
    if w.process_id == 0 {
        return false;
    }
    if only_active && !w.is_active {
        return false;
    }
    let dock = "com.apple.dock".to_string();
    !(w.bundle_identifier == dock)
}

/// The record made of a list entry.
pub fn window_from_info(info: &WindowInfo) -> (res: ActiveWindow)
    ensures
        window_of(res, *info),
{
    ActiveWindow {
        app_name: info.app_name.clone(),
        title: info.title.clone(),
        exec_name: exec_name_from(info.bundle_path.as_str()),
        window_id: i32_to_string(info.window_number),
        process_id: to_u32(info.process_id),
        memory: to_u32(info.memory),
    }
}

/// The windows shown from the system's window list, in list order, each
/// with the position of its entry in the list.
pub fn get_windows_informations(infos: &Vec<WindowInfo>, only_active: bool) -> (res: Vec<(usize, ActiveWindow)>)
    ensures
        res@.len() == listed_positions(infos@, only_active, infos@.len() as nat).len(),
        forall|j: int| 0 <= j < res@.len() ==> {
            &&& #[trigger] res@[j].0 == listed_positions(infos@, only_active, infos@.len() as nat)[j]
            &&& window_of(res@[j].1, infos@[res@[j].0 as int])
        },
{
    let mut res: Vec<(usize, ActiveWindow)> = Vec::new();
    let mut i: usize = 0;
    while i < infos.len()
        invariant
            i <= infos@.len(),
            res@.len() == listed_positions(infos@, only_active, i as nat).len(),
            forall|j: int| 0 <= j < res@.len() ==> {
                &&& #[trigger] res@[j].0 == listed_positions(infos@, only_active, i as nat)[j]
                &&& res@[j].0 < infos@.len()
                &&& window_of(res@[j].1, infos@[res@[j].0 as int])
            },
        decreases infos.len() - i,
    {
        if is_listed(&infos[i], only_active) {
            let w = window_from_info(&infos[i]);
            res.push((i, w));
        }
        i = i + 1;
    }
    res
}

/// Facts about the listed positions: they are increasing, and a position
/// is among them exactly when its entry is shown.
pub proof fn law_listed_positions(infos: Seq<WindowInfo>, only_active: bool, n: nat)
    requires
        n <= infos.len(),
    ensures
        forall|a: int, b: int| 0 <= a < b < listed_positions(infos, only_active, n).len()
            ==> listed_positions(infos, only_active, n)[a] < listed_positions(infos, only_active, n)[b],
        forall|j: int| 0 <= j < listed_positions(infos, only_active, n).len() ==> {
            let p = #[trigger] listed_positions(infos, only_active, n)[j];
            0 <= p < n && window_listed(infos[p], only_active)
        },
        forall|p: int| 0 <= p < n && window_listed(#[trigger] infos[p], only_active)
            ==> listed_positions(infos, only_active, n).contains(p),
    decreases n,
{
    if n > 0 {
        law_listed_positions(infos, only_active, (n - 1) as nat);
        let before = listed_positions(infos, only_active, (n - 1) as nat);
        let now = listed_positions(infos, only_active, n);
        assert forall|p: int| 0 <= p < n && window_listed(#[trigger] infos[p], only_active)
            implies now.contains(p) by {
            if p < n - 1 {
                assert(before.contains(p));
                let k = choose|k: int| 0 <= k < before.len() && before[k] == p;
                assert(now[k] == p);
            } else {
                assert(now[now.len() - 1] == p);
            }
        }
    }
}

/// The active window: the first shown window, or the empty record when
/// none is shown.
pub open spec fn active_window_of(listed: Seq<ActiveWindow>, w: ActiveWindow) -> bool {
    if listed.len() > 0 {
        w == listed[0]
    } else {
        is_empty_window(w)
    }
}

/// Window access through the macOS window server.
pub struct MacosAPI {}

/// Window access on Windows (no window listing there yet).
pub struct Win32API {}

impl MacosAPI {
    /// The active window among the windows shown for the active
    /// application: the first of them, or the empty record.
    pub fn get_active_window(&self, windows: Vec<ActiveWindow>) -> (res: ActiveWindow)
        ensures
            active_window_of(windows@, res),
    {
        let mut windows = windows;
        if windows.len() > 0 {
            windows.swap_remove(0)
        } else {
            ActiveWindow::empty()
        }
    }

    /// The process to bring forward for a window id: the id read as a
    /// decimal `i32`. The id must be one.
    pub fn activate(&self, window_id: String) -> (pid: i32)
        requires
            parse_i32_spec(window_id@) is Some,
        ensures
            parse_i32_spec(window_id@) == Some(pid as int),
    {
        match parse_i32(window_id.as_str()) {
            Some(pid) => pid,
            None => 0,
        }
    }
}

/// The process that activating the window with id `window_id` brings
/// forward: the id read as a decimal `i32` process id. The id must be one.
pub fn activate(window_id: String) -> (pid: i32)
    requires
        parse_i32_spec(window_id@) is Some,
    ensures
        parse_i32_spec(window_id@) == Some(pid as int),
{
    let api = MacosAPI {};
    api.activate(window_id)
}

/// Only the active application's windows: the windows listed when only
/// the active window is asked for are those listed in full whose owning
/// application is active, in the same order.
pub proof fn law_active_listing_filters_full_listing(infos: Seq<WindowInfo>, n: nat)
    requires
        n <= infos.len(),
    ensures
        listed_positions(infos, true, n)
            == listed_positions(infos, false, n).filter(|p: int| infos[p].is_active),
    decreases n,
{
    let pred = |p: int| infos[p].is_active;
    if n == 0 {
        reveal(Seq::filter);
        assert(listed_positions(infos, false, 0).filter(pred) =~= Seq::<int>::empty());
    } else {
        law_active_listing_filters_full_listing(infos, (n - 1) as nat);
        let before = listed_positions(infos, false, (n - 1) as nat);
        if window_listed(infos[n - 1], false) {
            before.lemma_filter_push(n - 1, pred);
        }
    }
}

/// Bringing a captured window forward finds its process again: the
/// decimal process id recorded for a listed window (as sending text writes
/// it on macOS) reads back, through `activate`, as the process that owns
/// the window.
pub proof fn law_activation_finds_owner(w: ActiveWindow, info: WindowInfo)
    requires
        window_listed(info, false),
        window_of(w, info),
        info.process_id > 0,
    ensures
        parse_i32_spec(decimal(w.process_id as nat)) == Some(info.process_id as int),
{
    law_parse_formatted(info.process_id as int);
}

/// Only the Dock is left out for its bundle: an entry that is on screen,
/// in a layer from 0 to 100, with readable bounds that are not too small,
/// owned by a real process (that is active, when only the active window is
/// asked for) is shown exactly when its bundle identifier is not
/// `com.apple.dock`; every other Apple application, Safari among them, is
/// shown.
pub proof fn law_only_the_dock_is_hidden(w: WindowInfo, only_active: bool)
    requires
        w.on_screen,
        0 <= w.layer <= 100,
        w.has_bounds,
        !w.too_small,
        w.process_id != 0,
        only_active ==> w.is_active,
    ensures
        window_listed(w, only_active) <==> w.bundle_identifier@ != "com.apple.dock"@,
        w.bundle_identifier@ == "com.apple.Safari"@ ==> window_listed(w, only_active),
{
    reveal_strlit("com.apple.dock");
    reveal_strlit("com.apple.Safari");
    if w.bundle_identifier@ == "com.apple.Safari"@ {
        assert(w.bundle_identifier@[10] != "com.apple.dock"@[10]);
    }
}

/// The active window is the front one: for a non-empty list of listed
/// windows, it is the first of them, whatever the list's length.
pub proof fn law_active_window_is_first(listed: Seq<ActiveWindow>, w: ActiveWindow)
    requires
        listed.len() > 0,
        active_window_of(listed, w),
    ensures
        w == listed[0],
{
}

} // verus!
