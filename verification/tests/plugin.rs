use wxplus::dict::Dict;
use wxplus::error::Error;
use wxplus::platform::{TargetArch, TargetOs};
use wxplus::plugin::{
    copy_strings, server_version_from_body, ChildStatus, Config, CrrentVersion, ServerVersion,
    SupervisorAction, SupervisorEvent, Wxmessage,
};
use wxplus::update::{endpoint_url, plugins_dir, UpdateAction, UpdateCheck, UpdateEvent, UpdateStage};

fn plugin() -> Wxmessage {
    Wxmessage::new(Config { endpoints: vec!["https://u.example.com/{{target}}/{{arch}}?v={{current_version}}".to_string()] })
}

fn strings(v: &[&str]) -> Vec<String> {
    v.iter().map(|s| s.to_string()).collect()
}

#[test]
fn plugin_starts_idle() {
    let wx = plugin();
    assert_eq!(wx.is_enabled(), Ok(false));
    assert!(wx.params.is_empty());
    assert!(wx.version.is_none());
    assert!(wx.restart_command().is_none());
}

#[test]
fn enable_sets_arguments_once() {
    let mut wx = plugin();
    assert_eq!(wx.enable(strings(&["-u", "a"])), Ok(()));
    assert_eq!(wx.is_enabled(), Ok(true));
    assert_eq!(wx.params, strings(&["-u", "a"]));
    // Already running: nothing changes.
    assert_eq!(wx.enable(strings(&["-u", "b"])), Ok(()));
    assert_eq!(wx.params, strings(&["-u", "a"]));
    assert_eq!(wx.disable(), Ok(()));
    assert_eq!(wx.is_enabled(), Ok(false));
    // An empty list keeps the arguments.
    assert_eq!(wx.enable(Vec::new()), Ok(()));
    assert_eq!(wx.params, strings(&["-u", "a"]));
    wx.disable().unwrap();
    wx.enable(strings(&["-x"])).unwrap();
    assert_eq!(wx.params, strings(&["-x"]));
}

#[test]
fn restart_uses_the_installed_release() {
    let mut wx = plugin();
    wx.enable(strings(&["-u", "s"])).unwrap();
    wx.record_version("1.2.0".to_string(), "/opt/plugins/wxmessage-1.2.0".to_string());
    let (program, args) = wx.restart_command().unwrap();
    assert_eq!(program, "/opt/plugins/wxmessage-1.2.0");
    assert_eq!(args, strings(&["-u", "s"]));
}

#[test]
fn supervisor_decisions() {
    let mut wx = plugin();
    assert_eq!(wx.supervise(SupervisorEvent::Tick), SupervisorAction::StopChild);
    wx.enable(Vec::new()).unwrap();
    assert_eq!(wx.supervise(SupervisorEvent::Tick), SupervisorAction::CheckUpdate);
    assert_eq!(wx.supervise(SupervisorEvent::UpdateChecked(true)), SupervisorAction::Restart);
    assert_eq!(wx.supervise(SupervisorEvent::UpdateChecked(false)), SupervisorAction::PollChild);
    assert_eq!(wx.supervise(SupervisorEvent::ChildPolled(ChildStatus::Running)), SupervisorAction::Sleep);
    assert_eq!(wx.supervise(SupervisorEvent::ChildPolled(ChildStatus::Absent)), SupervisorAction::Sleep);
    assert_eq!(wx.is_enabled(), Ok(true));
    assert_eq!(wx.supervise(SupervisorEvent::ChildPolled(ChildStatus::Exited)), SupervisorAction::DropChild);
    assert_eq!(wx.is_enabled(), Ok(false));
    wx.enable(Vec::new()).unwrap();
    assert_eq!(wx.supervise(SupervisorEvent::ChildPolled(ChildStatus::Unknown)), SupervisorAction::DropChild);
    assert_eq!(wx.is_enabled(), Ok(false));
    assert_eq!(wx.supervise(SupervisorEvent::Tick), SupervisorAction::StopChild);
}

#[test]
fn copies_of_string_lists() {
    let v = strings(&["a", "", "c"]);
    assert_eq!(copy_strings(&v), v);
}

#[test]
fn release_from_an_answer() {
    let mut body = Dict::new();
    body.insert("version".to_string(), "3.0.1".to_string());
    body.insert("download_url".to_string(), "https://dl.example.com/x".to_string());
    let sv = server_version_from_body(&body);
    assert_eq!(sv.version, "3.0.1");
    assert_eq!(sv.download_url, "https://dl.example.com/x");
}

#[test]
fn endpoint_placeholders_are_filled() {
    assert_eq!(
        endpoint_url("https://u.example.com/%7B%7Btarget%7D%7D/%7B%7Barch%7D%7D/%7B%7Bcurrent_version%7D%7D", "1.0.0", "darwin", "aarch64"),
        Ok("https://u.example.com/darwin/aarch64/1.0.0".to_string())
    );
    assert_eq!(
        endpoint_url("https://u.example.com/check?t={{target}}&a={{arch}}&v={{current_version}}", "1.0.0", "linux", "x86_64"),
        Ok("https://u.example.com/check?t=linux&a=x86_64&v=1.0.0".to_string())
    );
    assert_eq!(endpoint_url("https://u.example.com", "1.0.0", "linux", "x86_64"), Ok("https://u.example.com/".to_string()));
    assert_eq!(endpoint_url("not a url {{target}}", "1.0.0", "linux", "x86_64"), Err(Error::InvalidUrl));
}

#[test]
fn plugins_directory() {
    assert_eq!(plugins_dir("/opt/wx/app", TargetOs::Linux), Ok("/opt/wx/app/plugins".to_string()));
    assert_eq!(
        plugins_dir("/Applications/Wx.app/Contents/MacOS/wx", TargetOs::Macos),
        Ok("/Applications/Wx.app/plugins".to_string())
    );
    assert_eq!(plugins_dir("/", TargetOs::Windows), Err(Error::FailedToDetermineExtractPath));
}

fn answer(version: &str) -> Dict {
    let mut body = Dict::new();
    body.insert("version".to_string(), version.to_string());
    body.insert("download_url".to_string(), "https://dl.example.com/wx".to_string());
    body
}

#[test]
fn update_check_unsupported_system() {
    assert!(UpdateCheck::new(&Config { endpoints: Vec::new() }, TargetOs::Other, TargetArch::X86_64).is_none());
    assert!(UpdateCheck::new(&Config { endpoints: Vec::new() }, TargetOs::Macos, TargetArch::Other).is_none());
}

#[test]
fn update_check_downloads_a_new_release() {
    let mut wx = plugin();
    let mut check = UpdateCheck::new(&wx.config, TargetOs::Macos, TargetArch::Aarch64).unwrap();
    match check.step(&mut wx, UpdateEvent::Begin) {
        UpdateAction::Fetch(u) => assert_eq!(u, "https://u.example.com/darwin/aarch64?v=1.0.0"),
        other => panic!("unexpected {:?}", other),
    }
    assert!(matches!(check.step(&mut wx, UpdateEvent::Answered(answer("2.0.0"))), UpdateAction::LocateExecutable));
    match check.step(&mut wx, UpdateEvent::Executable("/Applications/Wx.app/Contents/MacOS/wx".to_string())) {
        UpdateAction::CheckExists(p) => assert_eq!(p, "/Applications/Wx.app/plugins/wxmessage-2.0.0"),
        other => panic!("unexpected {:?}", other),
    }
    match check.step(&mut wx, UpdateEvent::Exists(false)) {
        UpdateAction::Download { url, path } => {
            assert_eq!(url, "https://dl.example.com/wx");
            assert_eq!(path, "/Applications/Wx.app/plugins/wxmessage-2.0.0");
        }
        other => panic!("unexpected {:?}", other),
    }
    assert!(matches!(check.step(&mut wx, UpdateEvent::Downloaded(true)), UpdateAction::Finish(Ok(true))));
    assert_eq!(check.stage, UpdateStage::Finished);
    let v = wx.version.as_ref().unwrap();
    assert_eq!(v.version, "2.0.0");
    assert_eq!(v.executable_path, "/Applications/Wx.app/plugins/wxmessage-2.0.0");
}

#[test]
fn update_check_skips_the_installed_release() {
    let mut wx = plugin();
    wx.version = Some(CrrentVersion { version: "2.0.0".to_string(), executable_path: "/x".to_string() });
    let mut check = UpdateCheck::new(&wx.config, TargetOs::Windows, TargetArch::X86_64).unwrap();
    check.step(&mut wx, UpdateEvent::Begin);
    check.step(&mut wx, UpdateEvent::Answered(answer("2.0.0")));
    assert!(matches!(check.step(&mut wx, UpdateEvent::Executable("C:/wx/wx.exe".to_string())), UpdateAction::Finish(Ok(false))));
    assert_eq!(wx.version.as_ref().unwrap().executable_path, "/x");
}

#[test]
fn update_check_uses_a_stored_release() {
    let mut wx = plugin();
    let mut check = UpdateCheck::new(&wx.config, TargetOs::Windows, TargetArch::X86_64).unwrap();
    check.step(&mut wx, UpdateEvent::Begin);
    check.step(&mut wx, UpdateEvent::Answered(answer("3.1.0")));
    match check.step(&mut wx, UpdateEvent::Executable("/opt/wx/wx.exe".to_string())) {
        UpdateAction::CheckExists(p) => assert_eq!(p, "/opt/wx/plugins/wxmessage-3.1.0.exe"),
        other => panic!("unexpected {:?}", other),
    }
    assert!(matches!(check.step(&mut wx, UpdateEvent::Exists(true)), UpdateAction::Finish(Ok(true))));
    assert_eq!(wx.version.as_ref().unwrap().version, "3.1.0");
}

#[test]
fn update_check_failed_download() {
    let mut wx = plugin();
    let mut check = UpdateCheck::new(&wx.config, TargetOs::Linux, TargetArch::X86_64).unwrap();
    check.step(&mut wx, UpdateEvent::Begin);
    check.step(&mut wx, UpdateEvent::Answered(answer("3.1.0")));
    match check.step(&mut wx, UpdateEvent::Executable("/opt/wx/wx".to_string())) {
        UpdateAction::CheckExists(p) => assert_eq!(p, "/opt/wx/wx/plugins"),
        other => panic!("unexpected {:?}", other),
    }
    assert!(matches!(check.step(&mut wx, UpdateEvent::Exists(false)), UpdateAction::Download { .. }));
    assert!(matches!(check.step(&mut wx, UpdateEvent::Downloaded(false)), UpdateAction::Finish(Ok(false))));
    assert!(wx.version.is_none());
}

#[test]
fn update_check_without_any_release() {
    let mut wx = Wxmessage::new(Config {
        endpoints: vec!["https://a.example.com/{{target}}".to_string(), "https://b.example.com/{{target}}/{{arch}}".to_string()],
    });
    let mut check = UpdateCheck::new(&wx.config, TargetOs::Linux, TargetArch::Arm).unwrap();
    match check.step(&mut wx, UpdateEvent::Begin) {
        UpdateAction::Fetch(u) => assert_eq!(u, "https://a.example.com/linux"),
        other => panic!("unexpected {:?}", other),
    }
    match check.step(&mut wx, UpdateEvent::Unsuccessful) {
        UpdateAction::Fetch(u) => assert_eq!(u, "https://b.example.com/linux/armv7"),
        other => panic!("unexpected {:?}", other),
    }
    assert!(matches!(check.step(&mut wx, UpdateEvent::Answered(Dict::new())), UpdateAction::LocateExecutable));
    assert!(matches!(check.step(&mut wx, UpdateEvent::Executable("/opt/wx/wx".to_string())), UpdateAction::Finish(Ok(false))));
}

#[test]
fn update_check_bad_endpoint_and_bad_path() {
    let mut wx = Wxmessage::new(Config { endpoints: vec!["::not a url::".to_string()] });
    let mut check = UpdateCheck::new(&wx.config, TargetOs::Linux, TargetArch::Arm).unwrap();
    assert!(matches!(check.step(&mut wx, UpdateEvent::Begin), UpdateAction::Finish(Err(Error::InvalidUrl))));
    let mut wx = plugin();
    let mut check = UpdateCheck::new(&wx.config, TargetOs::Macos, TargetArch::Arm).unwrap();
    check.step(&mut wx, UpdateEvent::Begin);
    check.step(&mut wx, UpdateEvent::Answered(answer("1.0.0")));
    assert!(matches!(
        check.step(&mut wx, UpdateEvent::Executable("/".to_string())),
        UpdateAction::Finish(Err(Error::FailedToDetermineExtractPath))
    ));
}

#[test]
fn server_version_fields() {
    let sv = ServerVersion { version: "1".to_string(), download_url: "u".to_string() };
    assert_eq!(sv.version, "1");
}
