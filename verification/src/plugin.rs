//! The helper-process plugin: whether the helper is wanted, with which
//! arguments, which version of it is installed, and how its supervisor
//! loop reacts.
use vstd::prelude::*;
use crate::dict::Dict;
use crate::error::Error;
use crate::text::views;

verus! {

/// A release offered by the update service.
#[derive(Debug)]
pub struct ServerVersion {
    pub version: String,
    pub download_url: String,
}

/// The installed helper release.
#[derive(Debug)]
pub struct CrrentVersion {
    pub version: String,
    pub executable_path: String,
}

/// Plugin configuration: the update endpoints, as URL strings that may
/// hold the placeholders `{{current_version}}`, `{{target}}` and `{{arch}}`.
#[derive(Debug)]
pub struct Config {
    pub endpoints: Vec<String>,
}

/// Pause of the supervisor loop between passes, in milliseconds.
pub const SUPERVISE_INTERVAL_MS: u64 = 1000;

/// The plugin state.
pub struct Wxmessage {
    /// The helper is wanted.
    pub is_running: bool,
    /// The configuration the plugin was set up with.
    pub config: Config,
    /// The arguments the helper is started with.
    pub params: Vec<String>,
    /// The installed helper release, once one is known.
    pub version: Option<CrrentVersion>,
}

/// What the supervisor learnt since its last decision.
#[derive(Debug, Clone, Copy, PartialEq, Eq, Structural)]
pub enum ChildStatus {
    /// No helper process is held.
    Absent,
    /// The helper is still running.
    Running,
    /// The helper has exited.
    Exited,
    /// Waiting for the helper failed.
    Unknown,
}

/// An event of the supervisor loop.
#[derive(Debug, Clone, Copy, PartialEq, Eq, Structural)]
pub enum SupervisorEvent {
    /// A new pass begins.
    Tick,
    /// An update check ended; `true` when a new helper was installed.
    UpdateChecked(bool),
    /// The helper process was polled.
    ChildPolled(ChildStatus),
}

/// What the supervisor loop does next.
#[derive(Debug, Clone, Copy, PartialEq, Eq, Structural)]
pub enum SupervisorAction {
    /// Check for an update.
    CheckUpdate,
    /// Restart the helper, then begin a new pass at once.
    Restart,
    /// Poll the helper process.
    PollChild,
    /// Kill and forget the helper process, if any, then pause.
    StopChild,
    /// Forget the helper process, then pause.
    DropChild,
    /// Pause.
    Sleep,
}

/// The supervisor's decision for an event, given whether the helper is
/// wanted.
pub open spec fn supervisor_decision(is_running: bool, ev: SupervisorEvent) -> SupervisorAction {
    match ev {
        SupervisorEvent::Tick => if is_running { SupervisorAction::CheckUpdate } else { SupervisorAction::StopChild },
        SupervisorEvent::UpdateChecked(updated) => if updated { SupervisorAction::Restart } else { SupervisorAction::PollChild },
        SupervisorEvent::ChildPolled(status) => match status {
            ChildStatus::Exited | ChildStatus::Unknown => SupervisorAction::DropChild,
            _ => SupervisorAction::Sleep,
        },
    }
}

/// A copy of a list of strings.
pub fn copy_strings(v: &Vec<String>) -> (res: Vec<String>)
    ensures
        views(res@) == views(v@),
{
    let mut res: Vec<String> = Vec::new();
    let mut i: usize = 0;
    while i < v.len()
        invariant
            i <= v@.len(),
            views(res@) == views(v@).take(i as int),
        decreases v.len() - i,
    {
        let ghost before = res@;
        let item = v[i].clone();
        assert(item@ == v@[i as int]@);
        res.push(item);
        assert(res@ == before.push(item));
        assert(views(res@).drop_last() =~= views(before));
        assert(views(res@).last() == item@);
        assert(views(v@).take(i + 1).drop_last() =~= views(v@).take(i as int));
        assert(views(res@) =~= views(v@).take(i + 1));
        i = i + 1;
    }
    assert(views(v@).take(v@.len() as int) =~= views(v@));
    res
}

/// The release that an update endpoint's answer describes.
pub fn server_version_from_body(body: &Dict) -> (res: ServerVersion)
    requires
        body@.contains_key("version"@),
        body@.contains_key("download_url"@),
    ensures
        res.version@ == body@["version"@],
        res.download_url@ == body@["download_url"@],
{
    let version = match body.get("version") {
        Some(v) => v,
        None => String::new(),
    };
    let download_url = match body.get("download_url") {
        Some(u) => u,
        None => String::new(),
    };
    ServerVersion { version, download_url }
}

impl Wxmessage {
    /// The plugin as set up: the helper not wanted, no arguments, no
    /// installed release.
    pub fn new(config: Config) -> (res: Wxmessage)
        ensures
            !res.is_running,
            res.params@.len() == 0,
            res.version is None,
            res.config == config,
    {
        Wxmessage { is_running: false, config, params: Vec::new(), version: None }
    }

    /// Whether the helper is wanted.
    pub fn is_enabled(&self) -> (res: Result<bool, Error>)
        ensures
            res == Ok::<bool, Error>(self.is_running),
    {
        Ok(self.is_running)
    }

    /// Stops wanting the helper; the supervisor stops it.
    pub fn disable(&mut self) -> (res: Result<(), Error>)
        ensures
            res is Ok,
            !final(self).is_running,
            views(final(self).params@) == views(old(self).params@),
            final(self).version == old(self).version,
            final(self).config == old(self).config,
    {
        self.is_running = false;
        Ok(())
    }

    /// Starts wanting the helper. When it is already wanted nothing
    /// changes; otherwise a non-empty `args` replaces the helper's
    /// arguments, and an empty one keeps them.
    pub fn enable(&mut self, args: Vec<String>) -> (res: Result<(), Error>)
        ensures
            res is Ok,
            final(self).is_running,
            final(self).version == old(self).version,
            final(self).config == old(self).config,
            views(final(self).params@) == if old(self).is_running || args@.len() == 0 {
                views(old(self).params@)
            } else {
                views(args@)
            },
    {
        if self.is_running {
            return Ok(());
        }
        self.is_running = true;
        if args.len() > 0 {
            self.params = args;
        }
        Ok(())
    }

    /// How to restart the helper: its installed executable with the
    /// current arguments; `None` while no release is installed.
    pub fn restart_command(&self) -> (res: Option<(String, Vec<String>)>)
        ensures
            match self.version {
                None => res is None,
                Some(v) => res matches Some(c) && c.0@ == v.executable_path@
                    && views(c.1@) == views(self.params@),
            },
    {
        match &self.version {
            None => None,
            Some(v) => Some((v.executable_path.clone(), copy_strings(&self.params))),
        }
    }

    /// Records that release `version` is installed at `executable_path`.
    pub fn record_version(&mut self, version: String, executable_path: String)
        ensures
            final(self).version matches Some(v) && v.version@ == version@
                && v.executable_path@ == executable_path@,
            final(self).is_running == old(self).is_running,
            final(self).config == old(self).config,
            views(final(self).params@) == views(old(self).params@),
    {
        self.version = Some(CrrentVersion { version, executable_path });
    }

    /// One decision of the supervisor loop. When the helper has exited, or
    /// waiting for it failed, the helper is no longer wanted.
    pub fn supervise(&mut self, ev: SupervisorEvent) -> (action: SupervisorAction)
        ensures
            action == supervisor_decision(old(self).is_running, ev),
            final(self).is_running == (old(self).is_running && !(action == SupervisorAction::DropChild)),
            final(self).version == old(self).version,
            final(self).config == old(self).config,
            views(final(self).params@) == views(old(self).params@),
    {
        match ev {
            SupervisorEvent::Tick => {
                if self.is_running {
                    SupervisorAction::CheckUpdate
                } else {
                    SupervisorAction::StopChild
                }
            },
            SupervisorEvent::UpdateChecked(updated) => {
                if updated {
                    SupervisorAction::Restart
                } else {
                    SupervisorAction::PollChild
                }
            },
            SupervisorEvent::ChildPolled(status) => match status {
                ChildStatus::Exited | ChildStatus::Unknown => {
                    self.is_running = false;
                    SupervisorAction::DropChild
                },
                _ => SupervisorAction::Sleep,
            },
        }
    }
}

} // verus!
