//! Checking the update service for a new helper release, as a sequence of
//! decisions between the requests and file checks that the caller performs.
use vstd::prelude::*;
use crate::dict::Dict;
use crate::error::Error;
use crate::platform::{
    extract_dir, extract_path_from_executable, get_updater_arch, get_updater_target, path_push,
    pushed_path, updater_arch, updater_target, TargetArch, TargetOs,
};
use crate::plugin::{copy_strings, server_version_from_body, Config, ServerVersion, Wxmessage};
use crate::text::{replace_all, replaced, views};

verus! {

#[verifier::external_type_specification]
#[verifier::external_body]
pub struct ExUrlParseError(url::ParseError);

/// The serialization of the absolute URL that `url::Url::parse` reads from
/// `input`, or `None` when it reads none.
pub uninterp spec fn parsed_url(input: Seq<char>) -> Option<Seq<char>>;

/// `url::Url::parse`, with the URL taken by its serialization.
/// Trusted: it succeeds exactly when `parsed_url` of the input is some
/// URL, and then gives that URL's serialization; what the URL is, is not
/// stated.
#[verifier::external_body]
fn parse_url(input: &str) -> (res: Result<String, url::ParseError>)
    ensures
        match res {
            Ok(u) => parsed_url(input@) == Some(u@),
            Err(_) => parsed_url(input@) is None,
        },
{
    match url::Url::parse(input) {
        Ok(u) => Ok(u.into()),
        Err(e) => Err(e),
    }
}

/// The version the update service is told is installed.
pub open spec fn reported_version() -> Seq<char> {
    "1.0.0"@
}

/// An endpoint with its placeholders filled in, both in percent-encoded
/// form (as they appear in a URL's path) and in plain form (as they appear
/// in its query).
pub open spec fn filled_endpoint(template: Seq<char>, version: Seq<char>, target: Seq<char>, arch: Seq<char>) -> Seq<char> {
    let a = replaced(template, "%7B%7Bcurrent_version%7D%7D"@, version);
    let b = replaced(a, "%7B%7Btarget%7D%7D"@, target);
    let c = replaced(b, "%7B%7Barch%7D%7D"@, arch);
    let d = replaced(c, "{{current_version}}"@, version);
    let e = replaced(d, "{{target}}"@, target);
    replaced(e, "{{arch}}"@, arch)
}

/// Fills in the placeholders of an update endpoint and reads the result as
/// a URL; fails when it is not an absolute URL.
pub fn endpoint_url(template: &str, version: &str, target: &str, arch: &str) -> (res: Result<String, Error>)
    ensures
        match parsed_url(filled_endpoint(template@, version@, target@, arch@)) {
            Some(u) => res matches Ok(s) && s@ == u,
            None => res == Err::<String, Error>(Error::InvalidUrl),
        },
{
    proof {
        reveal_strlit("%7B%7Bcurrent_version%7D%7D");
        reveal_strlit("%7B%7Btarget%7D%7D");
        reveal_strlit("%7B%7Barch%7D%7D");
        reveal_strlit("{{current_version}}");
        reveal_strlit("{{target}}");
        reveal_strlit("{{arch}}");
    }
    let a = replace_all(template, "%7B%7Bcurrent_version%7D%7D", version);
    let b = replace_all(a.as_str(), "%7B%7Btarget%7D%7D", target);
    let c = replace_all(b.as_str(), "%7B%7Barch%7D%7D", arch);
    let d = replace_all(c.as_str(), "{{current_version}}", version);
    let e = replace_all(d.as_str(), "{{target}}", target);
    let f = replace_all(e.as_str(), "{{arch}}", arch);
    match parse_url(f.as_str()) {
        Ok(u) => Ok(u),
        Err(_) => Err(Error::InvalidUrl),
    }
}

/// The directory that holds helper releases: `plugins` beside the
/// executable on Linux (under the executable's own path), under the
/// bundle or executable directory elsewhere.
pub open spec fn plugins_dir_of(executable_path: Seq<char>, os: TargetOs) -> Option<Seq<char>> {
    if os == TargetOs::Linux {
        Some(pushed_path(executable_path, "plugins"@))
    } else {
        match extract_dir(executable_path, os) {
            Some(d) => Some(pushed_path(d, "plugins"@)),
            None => None,
        }
    }
}

/// The directory that holds helper releases.
pub fn plugins_dir(executable_path: &str, os: TargetOs) -> (res: Result<String, Error>)
    ensures
        match plugins_dir_of(executable_path@, os) {
            Some(d) => res matches Ok(s) && s@ == d,
            None => res == Err::<String, Error>(Error::FailedToDetermineExtractPath),
        },
{
    let base = if os == TargetOs::Linux {
        executable_path.to_string()
    } else {
        match extract_path_from_executable(executable_path, os) {
            Ok(d) => d,
            Err(e) => return Err(e),
        }
    };
    Ok(path_push(base.as_str(), "plugins"))
}

/// Where release `version` of the helper is stored: `wxmessage-<version>`
/// in the plugins directory (with `.exe` on Windows); on other systems the
/// plugins directory itself.
pub open spec fn helper_binary_path(dir: Seq<char>, version: Seq<char>, os: TargetOs) -> Seq<char> {
    if os == TargetOs::Windows {
        pushed_path(dir, "wxmessage-"@ + version + ".exe"@)
    } else if os == TargetOs::Macos {
        pushed_path(dir, "wxmessage-"@ + version)
    } else {
        dir
    }
}

fn binary_path(dir: &str, version: &str, os: TargetOs) -> (res: String)
    ensures
        res@ == helper_binary_path(dir@, version@, os),
{
    if os == TargetOs::Windows || os == TargetOs::Macos {
        let mut name = "wxmessage-".to_string();
        name.append(version);
        if os == TargetOs::Windows {
            name.append(".exe");
        }
        path_push(dir, name.as_str())
    } else {
        dir.to_string()
    }
}

/// Where an update check stands.
#[derive(Debug, Clone, Copy, PartialEq, Eq, Structural)]
pub enum UpdateStage {
    /// Asking the endpoints, one after the other, for a release.
    Querying,
    /// Waiting for the path of the running executable.
    Locating,
    /// Waiting to learn whether the release is already on disk.
    CheckingFile,
    /// Waiting for the release to be downloaded.
    Downloading,
    /// The check is over.
    Finished,
}

/// What the caller reports to the update check.
#[derive(Debug)]
pub enum UpdateEvent {
    /// The check begins.
    Begin,
    /// The endpoint asked last answered with a status other than success.
    Unsuccessful,
    /// The endpoint asked last answered with this release information.
    Answered(Dict),
    /// The path of the running executable.
    Executable(String),
    /// Whether the release is already stored at the path asked about.
    Exists(bool),
    /// Whether the download ended without error.
    Downloaded(bool),
}

/// What the caller is to do next.
#[derive(Debug)]
pub enum UpdateAction {
    /// Fetch release information from this URL.
    Fetch(String),
    /// Report the path of the running executable.
    LocateExecutable,
    /// Report whether a file exists at this path.
    CheckExists(String),
    /// Download `url` to `path`.
    Download { url: String, path: String },
    /// The check is over: whether a new release was installed, or why not.
    Finish(Result<bool, Error>),
}

/// An update check in progress.
pub struct UpdateCheck {
    pub os: TargetOs,
    pub target: String,
    pub arch: String,
    pub endpoints: Vec<String>,
    /// The next endpoint to ask.
    pub next_endpoint: usize,
    pub stage: UpdateStage,
    /// The release found, once found.
    pub release: Option<ServerVersion>,
    /// Where the release is stored, once decided.
    pub binary_path: Option<String>,
}

/// Whether release information names a release (or is empty).
pub open spec fn usable_answer(body: Map<Seq<char>, Seq<char>>) -> bool {
    body.len() == 0 || (body.contains_key("version"@) && body.contains_key("download_url"@))
}

impl UpdateCheck {
    /// The stages hold what they need.
    pub open spec fn wf(&self) -> bool {
        &&& self.next_endpoint <= self.endpoints@.len()
        &&& self.stage == UpdateStage::Querying ==> self.release is None
        &&& (self.stage == UpdateStage::CheckingFile || self.stage == UpdateStage::Downloading)
            ==> self.release is Some && self.binary_path is Some
    }

    /// How many more events the check can take at most.
    pub open spec fn remaining_events(&self) -> nat {
        match self.stage {
            UpdateStage::Querying => (self.endpoints@.len() - self.next_endpoint + 4) as nat,
            UpdateStage::Locating => 3,
            UpdateStage::CheckingFile => 2,
            UpdateStage::Downloading => 1,
            UpdateStage::Finished => 0,
        }
    }

    /// Whether `ev` is an event the check can take now.
    pub open spec fn accepts(&self, ev: UpdateEvent) -> bool {
        match self.stage {
            UpdateStage::Querying => match ev {
                UpdateEvent::Begin | UpdateEvent::Unsuccessful => true,
                UpdateEvent::Answered(b) => usable_answer(b@),
                _ => false,
            },
            UpdateStage::Locating => ev is Executable,
            UpdateStage::CheckingFile => ev is Exists,
            UpdateStage::Downloading => ev is Downloaded,
            UpdateStage::Finished => false,
        }
    }

    /// A check against the configured endpoints, for the given system;
    /// `None` when the update service serves no such system.
    pub fn new(config: &Config, os: TargetOs, arch: TargetArch) -> (res: Option<UpdateCheck>)
        ensures
            match (updater_target(os), updater_arch(arch)) {
                (Some(t), Some(a)) => res matches Some(c) && {
                    &&& c.wf()
                    &&& c.stage == UpdateStage::Querying
                    &&& c.next_endpoint == 0
                    &&& c.os == os
                    &&& c.target@ == t
                    &&& c.arch@ == a
                    &&& views(c.endpoints@) == views(config.endpoints@)
                },
                _ => res is None,
            },
    {
        let t = match get_updater_target(os) {
            Some(t) => t,
            None => return None,
        };
        let a = match get_updater_arch(arch) {
            Some(a) => a,
            None => return None,
        };
        Some(UpdateCheck {
            os,
            target: t,
            arch: a,
            endpoints: copy_strings(&config.endpoints),
            next_endpoint: 0,
            stage: UpdateStage::Querying,
            release: None,
            binary_path: None,
        })
    }

    /// Takes the next event and says what to do next.
    ///
    /// While querying, an answer that names a release ends the query; any
    /// other outcome moves on to the next endpoint, and when none is left,
    /// the query ends without a release. Then the executable is located; a
    /// release equal to the installed one, or none at all, ends the check
    /// with `false`. Otherwise the release is installed from disk if it is
    /// there and downloaded if not; a failed download ends with `false`.
    /// An installed release is recorded in `wx`.
    pub fn step(&mut self, wx: &mut Wxmessage, ev: UpdateEvent) -> (action: UpdateAction)
        requires
            old(self).wf(),
            old(self).accepts(ev),
        ensures
            final(self).wf(),
            final(self).os == old(self).os,
            final(self).target@ == old(self).target@,
            final(self).arch@ == old(self).arch@,
            views(final(self).endpoints@) == views(old(self).endpoints@),
            final(self).remaining_events() < old(self).remaining_events(),
            final(wx).is_running == old(wx).is_running,
            final(wx).config == old(wx).config,
            views(final(wx).params@) == views(old(wx).params@),
            action matches UpdateAction::Finish(r) <==> final(self).stage == UpdateStage::Finished,
            !(action matches UpdateAction::Finish(Ok(true))) ==> final(wx).version == old(wx).version,
            action matches UpdateAction::Finish(Ok(true)) ==> final(wx).version matches Some(v)
                && v.version@ == old(self).release->0.version@
                && v.executable_path@ == old(self).binary_path->0@,
            // querying: an answer naming a release
            old(self).stage == UpdateStage::Querying && (ev matches UpdateEvent::Answered(b) && b@.len() > 0) ==> {
                &&& action is LocateExecutable
                &&& final(self).stage == UpdateStage::Locating
                &&& final(self).release matches Some(r) && ev matches UpdateEvent::Answered(b)
                    && r.version@ == b@["version"@] && r.download_url@ == b@["download_url"@]
            },
            // querying: on to the next endpoint
            old(self).stage == UpdateStage::Querying && !(ev matches UpdateEvent::Answered(b) && b@.len() > 0)
                && old(self).next_endpoint < old(self).endpoints@.len() ==> {
                let t = filled_endpoint(
                    old(self).endpoints@[old(self).next_endpoint as int]@,
                    reported_version(),
                    old(self).target@,
                    old(self).arch@,
                );
                match parsed_url(t) {
                    Some(u) => action matches UpdateAction::Fetch(x) && x@ == u
                        && final(self).stage == UpdateStage::Querying
                        && final(self).next_endpoint == old(self).next_endpoint + 1,
                    None => action == UpdateAction::Finish(Err(Error::InvalidUrl)),
                }
            },
            // querying: no endpoint left
            old(self).stage == UpdateStage::Querying && !(ev matches UpdateEvent::Answered(b) && b@.len() > 0)
                && old(self).next_endpoint >= old(self).endpoints@.len() ==> {
                &&& action is LocateExecutable
                &&& final(self).stage == UpdateStage::Locating
                &&& final(self).release is None
            },
            // locating
            old(self).stage == UpdateStage::Locating ==> (ev matches UpdateEvent::Executable(p) && {
                match plugins_dir_of(p@, old(self).os) {
                    None => action == UpdateAction::Finish(Err(Error::FailedToDetermineExtractPath)),
                    Some(d) => match old(self).release {
                        None => action == UpdateAction::Finish(Ok(false)),
                        Some(r) => if old(wx).version matches Some(cv) && cv.version@ == r.version@ {
                            action == UpdateAction::Finish(Ok(false))
                        } else {
                            let path = helper_binary_path(d, r.version@, old(self).os);
                            &&& action matches UpdateAction::CheckExists(x) && x@ == path
                            &&& final(self).stage == UpdateStage::CheckingFile
                            &&& final(self).binary_path matches Some(bp) && bp@ == path
                            &&& final(self).release == old(self).release
                        },
                    },
                }
            }),
            // checking the file
            old(self).stage == UpdateStage::CheckingFile ==> (ev matches UpdateEvent::Exists(there) && if there {
                action == UpdateAction::Finish(Ok(true))
            } else {
                &&& action matches UpdateAction::Download { url, path }
                    && url@ == old(self).release->0.download_url@
                    && path@ == old(self).binary_path->0@
                &&& final(self).stage == UpdateStage::Downloading
                &&& final(self).release == old(self).release
                &&& final(self).binary_path == old(self).binary_path
            }),
            // downloading
            old(self).stage == UpdateStage::Downloading ==> (ev matches UpdateEvent::Downloaded(ok)
                && action == UpdateAction::Finish(Ok(ok))),
    {
        match self.stage {
            UpdateStage::Querying => {
                match ev {
                    UpdateEvent::Answered(body) => {
                        if !body.is_empty() {
                            let sv = server_version_from_body(&body);
                            self.release = Some(sv);
                            self.stage = UpdateStage::Locating;
                            return UpdateAction::LocateExecutable;
                        }
                    },
                    _ => {},
                }
                if self.next_endpoint < self.endpoints.len() {
                    let i = self.next_endpoint;
                    match endpoint_url(self.endpoints[i].as_str(), "1.0.0", self.target.as_str(), self.arch.as_str()) {
                        Ok(u) => {
                            self.next_endpoint = i + 1;
                            UpdateAction::Fetch(u)
                        },
                        Err(e) => {
                            self.stage = UpdateStage::Finished;
                            UpdateAction::Finish(Err(e))
                        },
                    }
                } else {
                    self.stage = UpdateStage::Locating;
                    UpdateAction::LocateExecutable
                }
            },
            UpdateStage::Locating => {
                let exe = match ev {
                    UpdateEvent::Executable(p) => p,
                    _ => String::new(),
                };
                let dir = match plugins_dir(exe.as_str(), self.os) {
                    Ok(d) => d,
                    Err(e) => {
                        self.stage = UpdateStage::Finished;
                        return UpdateAction::Finish(Err(e));
                    },
                };
                match &self.release {
                    None => {
                        self.stage = UpdateStage::Finished;
                        UpdateAction::Finish(Ok(false))
                    },
                    Some(sv) => {
                        let same = match &wx.version {
                            Some(cv) => cv.version == sv.version,
                            None => false,
                        };
                        if same {
                            self.stage = UpdateStage::Finished;
                            return UpdateAction::Finish(Ok(false));
                        }
                        let path = binary_path(dir.as_str(), sv.version.as_str(), self.os);
                        let asked = path.clone();
                        self.binary_path = Some(path);
                        self.stage = UpdateStage::CheckingFile;
                        UpdateAction::CheckExists(asked)
                    },
                }
            },
            UpdateStage::CheckingFile => {
                let there = match ev {
                    UpdateEvent::Exists(b) => b,
                    _ => false,
                };
                if there {
                    self.install(wx);
                    UpdateAction::Finish(Ok(true))
                } else {
                    let (url, path) = match (&self.release, &self.binary_path) {
                        (Some(sv), Some(p)) => (sv.download_url.clone(), p.clone()),
                        _ => (String::new(), String::new()),
                    };
                    self.stage = UpdateStage::Downloading;
                    UpdateAction::Download { url, path }
                }
            },
            UpdateStage::Downloading => {
                let ok = match ev {
                    UpdateEvent::Downloaded(b) => b,
                    _ => false,
                };
                if ok {
                    self.install(wx);
                    UpdateAction::Finish(Ok(true))
                } else {
                    self.stage = UpdateStage::Finished;
                    UpdateAction::Finish(Ok(false))
                }
            },
            UpdateStage::Finished => UpdateAction::Finish(Ok(false)),
        }
    }

    /// Records the release found as installed, and ends the check.
    fn install(&mut self, wx: &mut Wxmessage)
        requires
            old(self).release is Some,
            old(self).binary_path is Some,
            old(self).next_endpoint <= old(self).endpoints@.len(),
        ensures
            final(self).stage == UpdateStage::Finished,
            final(self).wf(),
            final(self).os == old(self).os,
            final(self).target == old(self).target,
            final(self).arch == old(self).arch,
            final(self).endpoints == old(self).endpoints,
            final(wx).version matches Some(v)
                && v.version@ == old(self).release->0.version@
                && v.executable_path@ == old(self).binary_path->0@,
            final(wx).is_running == old(wx).is_running,
            final(wx).config == old(wx).config,
            views(final(wx).params@) == views(old(wx).params@),
    {
        let (version, path) = match (&self.release, &self.binary_path) {
            (Some(sv), Some(p)) => (sv.version.clone(), p.clone()),
            _ => (String::new(), String::new()),
        };
        wx.record_version(version, path);
        self.stage = UpdateStage::Finished;
    }
}

} // verus!
