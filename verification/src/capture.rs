//! The state of the window-capture assistant and the decisions of its
//! capture loop and commands.
use vstd::prelude::*;
use crate::dict::Dict;
use crate::platform::{path_push, pushed_path, TargetOs};
use crate::text::{decimal, lemma_split_nonempty, split_on, split_string, u32_to_string, views};
use crate::window::ActiveWindow;

verus! {

/// Pause after a pass that captured nothing, in milliseconds.
pub const CHECK_INTERVAL_MS: u64 = 200;

/// Pause after a pass that captured a window, in milliseconds.
pub const CAPTURE_INTERVAL_MS: u64 = 600;

/// Pause between bringing a window forward and typing into it, in
/// milliseconds.
pub const ACTIVATE_DELAY_MS: u64 = 500;

/// The applications watched when no `append_apps` setting is stored.
pub open spec fn default_apps() -> Seq<char> {
    "微信,WeChat"@
}

/// The names of the watched applications: the `append_apps` setting (or
/// the default list) split at commas.
pub open spec fn watched_apps(setting: Option<Seq<char>>) -> Seq<Seq<char>> {
    match setting {
        Some(s) => split_on(s, ','),
        None => split_on(default_apps(), ','),
    }
}

/// The shared state of the assistant.
pub struct AppState {
    /// The capture loop is (to be) running.
    pub is_capture: bool,
    /// Settings, such as `append_apps` and `session_id`.
    pub data: Dict,
    /// The window last captured, which text is sent to.
    pub window: Option<ActiveWindow>,
}

/// What one pass of the capture loop decided.
#[derive(Debug, Clone, Copy, PartialEq, Eq, Structural)]
pub enum CaptureAction {
    /// The active window belongs to this program; nothing changes.
    SkipOwn,
    /// The active window belongs to an application that is not watched;
    /// the captured window is forgotten.
    Ignore,
    /// The active window was captured and is to be announced.
    Capture,
}

impl CaptureAction {
    /// How long the loop pauses after this pass.
    pub fn pause_ms(&self) -> (ms: u64)
        ensures
            ms == (if *self == CaptureAction::Capture { CAPTURE_INTERVAL_MS } else { CHECK_INTERVAL_MS }),
    {
        match self {
            CaptureAction::Capture => CAPTURE_INTERVAL_MS,
            _ => CHECK_INTERVAL_MS,
        }
    }
}

/// What sending text needs to do.
#[derive(Debug)]
pub enum SendPlan {
    /// No window was captured: nothing is sent.
    NoWindow,
    /// Bring the window with this id forward (when the platform can), wait,
    /// then type the text.
    Type { activate: Option<String> },
}

/// Whether the name `name` is among the watched applications.
pub open spec fn is_watched(setting: Option<Seq<char>>, name: Seq<char>) -> bool {
    watched_apps(setting).contains(name)
}

/// The `append_apps` setting of a settings map.
pub open spec fn apps_setting(data: Map<Seq<char>, Seq<char>>) -> Option<Seq<char>> {
    if data.contains_key("append_apps"@) { Some(data["append_apps"@]) } else { None }
}

/// The names of the watched applications (`append_apps` split at commas,
/// or the default list).
pub fn app_names(setting: Option<String>) -> (res: Vec<String>)
    ensures
        views(res@) == watched_apps(match setting { Some(s) => Some(s@), None => None }),
{
    match setting {
        Some(s) => split_string(s.as_str(), ','),
        None => split_string("微信,WeChat", ','),
    }
}

/// Whether `name` is one of `names`.
pub fn contains_name(names: &Vec<String>, name: &String) -> (res: bool)
    ensures
        res == views(names@).contains(name@),
{
    let mut i: usize = 0;
    while i < names.len()
        invariant
            i <= names@.len(),
            forall|j: int| 0 <= j < i ==> names@[j]@ != name@,
        decreases names.len() - i,
    {
        if names[i] == *name {
            assert(views(names@)[i as int] == name@);
            return true;
        }
        i = i + 1;
    }
    assert forall|j: int| 0 <= j < views(names@).len() implies views(names@)[j] != name@ by {
        assert(views(names@)[j] == names@[j]@);
    }
    false
}

impl AppState {
    /// The state at start-up: not capturing, no settings, no window.
    pub fn default() -> (res: AppState)
        ensures
            !res.is_capture,
            res.data@ == Map::<Seq<char>, Seq<char>>::empty(),
            res.window is None,
    {
        AppState { is_capture: false, data: Dict::new(), window: None }
    }

    /// Starts capturing. Returns whether a capture loop is to be started:
    /// not when one is already running.
    pub fn window_start(&mut self) -> (started: bool)
        ensures
            started == !old(self).is_capture,
            final(self).is_capture,
            final(self).data@ == old(self).data@,
            final(self).window == old(self).window,
    {
        if self.is_capture {
            return false;
        }
        self.is_capture = true;
        true
    }

    /// Stops capturing; a running loop ends at its next pass.
    pub fn window_stop(&mut self)
        ensures
            !final(self).is_capture,
            final(self).data@ == old(self).data@,
            final(self).window == old(self).window,
    {
        self.is_capture = false;
    }

    /// One pass of the capture loop, given the process id of this program
    /// and the window that is active now.
    pub fn observe_window(&mut self, own_pid: u32, active: ActiveWindow) -> (action: CaptureAction)
        ensures
            final(self).is_capture == old(self).is_capture,
            final(self).data@ == old(self).data@,
            active.process_id == own_pid ==> action == CaptureAction::SkipOwn
                && final(self).window == old(self).window,
            active.process_id != own_pid && !is_watched(apps_setting(old(self).data@), active.app_name@)
                ==> action == CaptureAction::Ignore && final(self).window is None,
            active.process_id != own_pid && is_watched(apps_setting(old(self).data@), active.app_name@)
                ==> action == CaptureAction::Capture && final(self).window == Some(active),
    {
        if active.process_id == own_pid {
            return CaptureAction::SkipOwn;
        }
        let setting = self.data.get("append_apps");
        let names = app_names(setting);
        if !contains_name(&names, &active.app_name) {
            self.window = None;
            return CaptureAction::Ignore;
        }
        self.window = Some(active);
        CaptureAction::Capture
    }

    /// Takes the captured window for sending text to it, and says how to
    /// bring it forward: by process id on macOS, by window id on Windows,
    /// not at all elsewhere. The captured window is forgotten.
    pub fn send_text(&mut self, os: TargetOs) -> (plan: SendPlan)
        ensures
            final(self).window is None,
            final(self).is_capture == old(self).is_capture,
            final(self).data@ == old(self).data@,
            match old(self).window {
                None => plan is NoWindow,
                Some(w) => match plan {
                    SendPlan::NoWindow => false,
                    SendPlan::Type { activate } => match os {
                        TargetOs::Macos => activate matches Some(id) && id@ == decimal(w.process_id as nat),
                        TargetOs::Windows => activate matches Some(id) && id@ == w.window_id@,
                        _ => activate is None,
                    },
                },
            },
    {
        let taken = self.window.take();
        match taken {
            None => SendPlan::NoWindow,
            Some(w) => {
                let activate = match os {
                    TargetOs::Macos => Some(u32_to_string(w.process_id)),
                    TargetOs::Windows => Some(w.window_id),
                    _ => None,
                };
                SendPlan::Type { activate }
            },
        }
    }

    /// The stored session id, if any.
    pub fn session_id(&self) -> (res: Option<String>)
        ensures
            match res {
                Some(s) => self.data@.contains_key("session_id"@) && self.data@["session_id"@] == s@,
                None => !self.data@.contains_key("session_id"@),
            },
    {
        self.data.get("session_id")
    }
}

/// How to fetch and start the helper program.
#[derive(Debug)]
pub struct HelperLaunch {
    /// Where to download the helper from.
    pub download_url: String,
    /// Where to store it and run it from.
    pub program: String,
    /// The arguments to start it with.
    pub args: Vec<String>,
}

/// The file name of the helper of version `version`: `cli-<version>`, with
/// `.exe` on Windows.
pub open spec fn helper_file_name(version: Seq<char>, os: TargetOs) -> Seq<char> {
    if os == TargetOs::Windows { "cli-"@ + version + ".exe"@ } else { "cli-"@ + version }
}

/// Where the helper is stored: in the documents directory on macOS and
/// Windows; on other systems the documents directory itself is used.
pub open spec fn helper_program(docs_dir: Seq<char>, version: Seq<char>, os: TargetOs) -> Seq<char> {
    if os == TargetOs::Macos || os == TargetOs::Windows {
        pushed_path(docs_dir, helper_file_name(version, os))
    } else {
        docs_dir
    }
}

/// A value of a settings map, or a default.
pub open spec fn value_or(m: Map<Seq<char>, Seq<char>>, key: Seq<char>, default: Seq<char>) -> Seq<char> {
    if m.contains_key(key) { m[key] } else { default }
}

/// The launch plan for the helper, given the session id, the release
/// information of the update service, the documents directory and the
/// system: `None` when the release names no download URL. The version
/// defaults to `0.0.0`, and the helper is started as `-u <session id>`.
pub fn plan_helper_launch(session_id: String, info: &Dict, docs_dir: &str, os: TargetOs) -> (res: Option<HelperLaunch>)
    ensures
        value_or(info@, "download_url"@, Seq::<char>::empty()).len() == 0 <==> res is None,
        res matches Some(l) ==> {
            &&& l.download_url@ == value_or(info@, "download_url"@, Seq::<char>::empty())
            &&& l.program@ == helper_program(docs_dir@, value_or(info@, "version"@, "0.0.0"@), os)
            &&& views(l.args@) == seq!["-u"@, session_id@]
        },
{
    let version = match info.get("version") {
        Some(v) => v,
        None => "0.0.0".to_string(),
    };
    let download_url = match info.get("download_url") {
        Some(u) => u,
        None => String::new(),
    };
    if download_url.as_str().is_empty() {
        return None;
    }
    let program = if os == TargetOs::Macos || os == TargetOs::Windows {
        let mut name = "cli-".to_string();
        name.append(version.as_str());
        if os == TargetOs::Windows {
            name.append(".exe");
        }
        path_push(docs_dir, name.as_str())
    } else {
        docs_dir.to_string()
    };
    let mut args: Vec<String> = Vec::new();
    args.push("-u".to_string());
    args.push(session_id);
    assert(views(args@) =~= seq!["-u"@, session_id@]);
    Some(HelperLaunch { download_url, program, args })
}

/// Splitting a string free of the separator gives the string alone.
pub proof fn lemma_split_without_separator(s: Seq<char>, sep: char)
    requires
        !s.contains(sep),
    ensures
        split_on(s, sep) == seq![s],
    decreases s.len(),
{
    if s.len() > 0 {
        assert(!s.drop_last().contains(sep)) by {
            if s.drop_last().contains(sep) {
                let k = choose|k: int| 0 <= k < s.drop_last().len() && s.drop_last()[k] == sep;
                assert(s[k] == sep);
            }
        }
        lemma_split_without_separator(s.drop_last(), sep);
        assert(s.last() != sep) by {
            assert(s[s.len() - 1] == s.last());
        }
        assert(s.drop_last().push(s.last()) =~= s);
        assert(split_on(s, sep) =~= seq![s]);
    } else {
        assert(s =~= Seq::<char>::empty());
    }
}

/// Appending separator-free text extends the last piece of a split.
pub proof fn lemma_split_append_plain(x: Seq<char>, b: Seq<char>, sep: char)
    requires
        !b.contains(sep),
    ensures
        split_on(x + b, sep) == split_on(x, sep).update(
            split_on(x, sep).len() - 1,
            split_on(x, sep).last() + b,
        ),
    decreases b.len(),
{
    lemma_split_nonempty(x, sep);
    if b.len() == 0 {
        assert(x + b =~= x);
        assert(split_on(x, sep).last() + b =~= split_on(x, sep).last());
        assert(split_on(x, sep).update(split_on(x, sep).len() - 1, split_on(x, sep).last())
            =~= split_on(x, sep));
    } else {
        let c = b.drop_last();
        assert(!c.contains(sep)) by {
            if c.contains(sep) {
                let k = choose|k: int| 0 <= k < c.len() && c[k] == sep;
                assert(b[k] == sep);
            }
        }
        lemma_split_append_plain(x, c, sep);
        assert(b.last() != sep) by {
            assert(b[b.len() - 1] == b.last());
        }
        assert((x + b).drop_last() =~= x + c);
        assert((x + b).last() == b.last());
        let p = split_on(x, sep);
        let q = split_on(x + c, sep);
        assert(q.len() == p.len());
        assert(split_on(x + b, sep) =~= p.update(p.len() - 1, p.last() + b)) by {
            assert(q.last() == p.last() + c);
            assert(p.last() + c.push(b.last()) =~= p.last() + b);
            assert(c.push(b.last()) =~= b);
            assert(q.last().push(b.last()) =~= p.last() + b);
        }
    }
}

/// Splitting `a,b` with neither part holding a comma gives the two parts.
pub proof fn lemma_split_two(a: Seq<char>, b: Seq<char>, sep: char)
    requires
        !a.contains(sep),
        !b.contains(sep),
    ensures
        split_on(a.push(sep) + b, sep) == seq![a, b],
{
    lemma_split_without_separator(a, sep);
    assert(a.push(sep).drop_last() =~= a);
    assert(split_on(a.push(sep), sep) =~= seq![a, Seq::<char>::empty()]);
    lemma_split_append_plain(a.push(sep), b, sep);
    assert(Seq::<char>::empty() + b =~= b);
    assert(seq![a, Seq::<char>::empty()].update(1, Seq::<char>::empty() + b) =~= seq![a, b]);
}

/// Applications are matched by their whole name, never by a part of it:
/// with no `append_apps` setting, exactly the applications named `微信` or
/// `WeChat` are watched (so `企业微信` is not), and with a setting that
/// holds one name, exactly the application of that name is watched.
pub proof fn law_watched_by_whole_name(name: Seq<char>, single: Seq<char>)
    ensures
        is_watched(None, name) <==> (name == "微信"@ || name == "WeChat"@),
        !single.contains(',') ==> (is_watched(Some(single), name) <==> name == single),
{
    reveal_strlit("微信,WeChat");
    reveal_strlit("微信");
    reveal_strlit("WeChat");
    let a = "微信"@;
    let b = "WeChat"@;
    assert(!a.contains(',')) by {
        if a.contains(',') {
            let k = choose|k: int| 0 <= k < a.len() && a[k] == ',';
        }
    }
    assert(!b.contains(',')) by {
        if b.contains(',') {
            let k = choose|k: int| 0 <= k < b.len() && b[k] == ',';
        }
    }
    assert(default_apps() =~= a.push(',') + b);
    lemma_split_two(a, b, ',');
    assert(watched_apps(None) == seq![a, b]);
    assert(seq![a, b].contains(name) <==> (name == a || name == b)) by {
        if seq![a, b].contains(name) {
            let k = choose|k: int| 0 <= k < 2 && seq![a, b][k] == name;
        }
        if name == a {
            assert(seq![a, b][0] == name);
        }
        if name == b {
            assert(seq![a, b][1] == name);
        }
    }
    if !single.contains(',') {
        lemma_split_without_separator(single, ',');
        if seq![single].contains(name) {
            let k = choose|k: int| 0 <= k < 1 && seq![single][k] == name;
        }
        if name == single {
            assert(seq![single][0] == name);
        }
    }
}

/// A release's version names its helper: on macOS the helper is stored as
/// `cli-<version>` in the documents directory, and on every system two
/// different versions give two different file names.
pub proof fn law_helper_named_by_version(docs_dir: Seq<char>, v1: Seq<char>, v2: Seq<char>, os: TargetOs)
    ensures
        helper_program(docs_dir, v1, TargetOs::Macos) == pushed_path(docs_dir, "cli-"@ + v1),
        helper_file_name(v1, os).subrange(0, 4) == "cli-"@,
        helper_file_name(v1, os).subrange(4, 4 + v1.len() as int) == v1,
        v1 != v2 ==> helper_file_name(v1, os) != helper_file_name(v2, os),
{
    reveal_strlit("cli-");
    reveal_strlit(".exe");
    let n1 = helper_file_name(v1, os);
    let n2 = helper_file_name(v2, os);
    assert(n1.subrange(0, 4) =~= "cli-"@);
    assert(n1.subrange(4, 4 + v1.len() as int) =~= v1);
    if v1 != v2 && n1 == n2 {
        assert(".exe"@.len() == 4);
        assert("cli-"@.len() == 4);
        if os == TargetOs::Windows {
            assert(n1.len() == 8 + v1.len());
            assert(n2.len() == 8 + v2.len());
        } else {
            assert(n1.len() == 4 + v1.len());
            assert(n2.len() == 4 + v2.len());
        }
        assert(n2.subrange(4, 4 + v2.len() as int) =~= v2);
        assert(v1 =~= v2);
    }
}

} // verus!
