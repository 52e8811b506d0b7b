use wxplus::capture::{
    app_names, contains_name, plan_helper_launch, AppState, CaptureAction, SendPlan,
    CAPTURE_INTERVAL_MS, CHECK_INTERVAL_MS,
};
use wxplus::dict::Dict;
use wxplus::platform::TargetOs;
use wxplus::window::ActiveWindow;

fn window(app: &str, pid: u32) -> ActiveWindow {
    ActiveWindow {
        title: "chat".to_string(),
        app_name: app.to_string(),
        exec_name: String::new(),
        window_id: "88".to_string(),
        process_id: pid,
        memory: 0,
    }
}

#[test]
fn start_state() {
    let s = AppState::default();
    assert!(!s.is_capture);
    assert!(s.data.is_empty());
    assert!(s.window.is_none());
}

#[test]
fn capture_starts_only_once() {
    let mut s = AppState::default();
    assert!(s.window_start());
    assert!(s.is_capture);
    assert!(!s.window_start());
    assert!(s.is_capture);
    s.window_stop();
    assert!(!s.is_capture);
    assert!(s.window_start());
}

#[test]
fn default_watched_applications() {
    assert_eq!(app_names(None), vec!["微信", "WeChat"]);
    assert_eq!(app_names(Some("Slack,QQ".to_string())), vec!["Slack", "QQ"]);
    let names = app_names(None);
    assert!(contains_name(&names, &"WeChat".to_string()));
    assert!(!contains_name(&names, &"wechat".to_string()));
}

#[test]
fn own_window_is_skipped() {
    let mut s = AppState::default();
    s.window = Some(window("WeChat", 10));
    let a = s.observe_window(42, window("WeChat", 42));
    assert_eq!(a, CaptureAction::SkipOwn);
    assert_eq!(s.window.as_ref().unwrap().process_id, 10);
    assert_eq!(a.pause_ms(), CHECK_INTERVAL_MS);
}

#[test]
fn watched_window_is_captured() {
    let mut s = AppState::default();
    let a = s.observe_window(1, window("WeChat", 77));
    assert_eq!(a, CaptureAction::Capture);
    assert_eq!(a.pause_ms(), CAPTURE_INTERVAL_MS);
    assert_eq!(s.window.as_ref().unwrap().process_id, 77);
    let b = s.observe_window(1, window("微信", 78));
    assert_eq!(b, CaptureAction::Capture);
    assert_eq!(s.window.as_ref().unwrap().app_name, "微信");
}

#[test]
fn other_window_clears_the_capture() {
    let mut s = AppState::default();
    s.observe_window(1, window("WeChat", 77));
    let a = s.observe_window(1, window("Safari", 5));
    assert_eq!(a, CaptureAction::Ignore);
    assert_eq!(a.pause_ms(), 200);
    assert!(s.window.is_none());
}

#[test]
fn stored_application_list_replaces_the_default() {
    let mut s = AppState::default();
    s.data.insert("append_apps".to_string(), "Slack,钉钉".to_string());
    assert_eq!(s.observe_window(1, window("WeChat", 2)), CaptureAction::Ignore);
    assert_eq!(s.observe_window(1, window("钉钉", 3)), CaptureAction::Capture);
}

#[test]
fn sending_text_takes_the_window() {
    let mut s = AppState::default();
    match s.send_text(TargetOs::Macos) {
        SendPlan::NoWindow => {}
        _ => panic!("no window was captured"),
    }
    s.observe_window(1, window("WeChat", 1234));
    match s.send_text(TargetOs::Macos) {
        SendPlan::Type { activate } => assert_eq!(activate, Some("1234".to_string())),
        _ => panic!("a window was captured"),
    }
    assert!(s.window.is_none());
    s.observe_window(1, window("WeChat", 1234));
    match s.send_text(TargetOs::Windows) {
        SendPlan::Type { activate } => assert_eq!(activate, Some("88".to_string())),
        _ => panic!("a window was captured"),
    }
    s.observe_window(1, window("WeChat", 1234));
    match s.send_text(TargetOs::Linux) {
        SendPlan::Type { activate } => assert_eq!(activate, None),
        _ => panic!("a window was captured"),
    }
}

#[test]
fn session_id_lookup() {
    let mut s = AppState::default();
    assert_eq!(s.session_id(), None);
    s.data.insert("session_id".to_string(), "s-1".to_string());
    assert_eq!(s.session_id(), Some("s-1".to_string()));
}

#[test]
fn helper_launch_plan() {
    let mut info = Dict::new();
    assert!(plan_helper_launch("s".to_string(), &info, "/home/u/Documents", TargetOs::Macos).is_none());
    info.insert("download_url".to_string(), "https://dl.example.com/cli".to_string());
    let p = plan_helper_launch("s-9".to_string(), &info, "/home/u/Documents", TargetOs::Macos).unwrap();
    assert_eq!(p.download_url, "https://dl.example.com/cli");
    assert_eq!(p.program, "/home/u/Documents/cli-0.0.0");
    assert_eq!(p.args, vec!["-u", "s-9"]);
    info.insert("version".to_string(), "2.1.0".to_string());
    let w = plan_helper_launch("s".to_string(), &info, "/home/u/Documents", TargetOs::Windows).unwrap();
    assert_eq!(w.program, "/home/u/Documents/cli-2.1.0.exe");
    let l = plan_helper_launch("s".to_string(), &info, "/home/u/Documents", TargetOs::Linux).unwrap();
    assert_eq!(l.program, "/home/u/Documents");
    info.insert("download_url".to_string(), String::new());
    assert!(plan_helper_launch("s".to_string(), &info, "/d", TargetOs::Macos).is_none());
}
