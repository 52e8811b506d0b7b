use wxplus::error::Error;
use wxplus::platform::{
    extract_path_from_executable, get_updater_arch, get_updater_target, target, TargetArch,
    TargetOs,
};

#[test]
fn updater_names() {
    assert_eq!(get_updater_target(TargetOs::Linux), Some("linux".to_string()));
    assert_eq!(get_updater_target(TargetOs::Macos), Some("darwin".to_string()));
    assert_eq!(get_updater_target(TargetOs::Windows), Some("windows".to_string()));
    assert_eq!(get_updater_target(TargetOs::Other), None);
    assert_eq!(get_updater_arch(TargetArch::X86), Some("i686".to_string()));
    assert_eq!(get_updater_arch(TargetArch::X86_64), Some("x86_64".to_string()));
    assert_eq!(get_updater_arch(TargetArch::Arm), Some("armv7".to_string()));
    assert_eq!(get_updater_arch(TargetArch::Aarch64), Some("aarch64".to_string()));
    assert_eq!(get_updater_arch(TargetArch::Riscv64), Some("riscv64".to_string()));
    assert_eq!(get_updater_arch(TargetArch::Other), None);
}

#[test]
fn target_joins_system_and_architecture() {
    assert_eq!(target(TargetOs::Macos, TargetArch::Aarch64), Some("darwin-aarch64".to_string()));
    assert_eq!(target(TargetOs::Windows, TargetArch::X86), Some("windows-i686".to_string()));
    assert_eq!(target(TargetOs::Linux, TargetArch::Riscv64), Some("linux-riscv64".to_string()));
    assert_eq!(target(TargetOs::Other, TargetArch::X86_64), None);
    assert_eq!(target(TargetOs::Linux, TargetArch::Other), None);
}

#[test]
fn extract_path_is_the_executable_directory() {
    assert_eq!(
        extract_path_from_executable("/usr/lib/wxplus/wxplus", TargetOs::Linux),
        Ok("/usr/lib/wxplus".to_string())
    );
    assert_eq!(extract_path_from_executable("wxplus", TargetOs::Windows), Ok("".to_string()));
}

#[test]
fn extract_path_leaves_a_macos_bundle() {
    assert_eq!(
        extract_path_from_executable("/Applications/WxPlus.app/Contents/MacOS/wxplus", TargetOs::Macos),
        Ok("/Applications/WxPlus.app".to_string())
    );
    // Only on macOS is the bundle layout looked for.
    assert_eq!(
        extract_path_from_executable("/Applications/WxPlus.app/Contents/MacOS/wxplus", TargetOs::Linux),
        Ok("/Applications/WxPlus.app/Contents/MacOS".to_string())
    );
}

#[test]
fn extract_path_fails_without_a_parent() {
    assert_eq!(
        extract_path_from_executable("/", TargetOs::Linux),
        Err(Error::FailedToDetermineExtractPath)
    );
    assert_eq!(
        extract_path_from_executable("", TargetOs::Macos),
        Err(Error::FailedToDetermineExtractPath)
    );
}

#[test]
fn extract_path_climbs_to_the_root() {
    assert_eq!(
        extract_path_from_executable("/Contents/MacOS/x", TargetOs::Macos),
        Ok("/".to_string())
    );
}

#[test]
fn extract_path_is_an_ancestor_of_the_executable() {
    for (exe, os) in [
        ("/usr/lib/wxplus/wxplus", TargetOs::Linux),
        ("/Applications/WxPlus.app/Contents/MacOS/wxplus", TargetOs::Macos),
        ("relative/dir/app", TargetOs::Windows),
        ("/nonexistent/path/that/is/not/on/disk", TargetOs::Linux),
    ] {
        let p = extract_path_from_executable(exe, os).unwrap();
        assert!(exe.starts_with(p.as_str()));
        assert!(p.len() < exe.len());
    }
}
