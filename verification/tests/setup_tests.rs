use tomodachi::setup::{hook_install_args, install_message, install_result, passthrough_args, InstallOptions, InstallResult};

#[test]
fn all_hooks_by_default() {
    let o = InstallOptions::default();
    assert_eq!(hook_install_args(&o), vec!["install", "--startup", "--ps", "--zsh", "--cmd"]);
}

#[test]
fn only_chosen_hooks() {
    let o = InstallOptions { install_startup: false, install_ps: true, install_zsh: false, install_cmd: true };
    assert_eq!(hook_install_args(&o), vec!["install", "--ps", "--cmd"]);
}

#[test]
fn installer_results() {
    assert_eq!(install_result(false, true), InstallResult::NoAppData);
    assert_eq!(install_result(true, false), InstallResult::ExtractFailed);
    assert_eq!(install_result(true, true), InstallResult::Done);
    assert_eq!(install_message(InstallResult::NoAppData), "Failed to find AppData!");
    assert_eq!(install_message(InstallResult::ExtractFailed), "Failed to extract files! Make sure it's not already running.");
    assert_eq!(install_message(InstallResult::Done), "");
}

#[test]
fn yolo_is_dropped_before_running() {
    let args = vec!["-rf".to_string(), "--yolo".to_string(), "/tmp".to_string(), "--yolo".to_string()];
    assert_eq!(passthrough_args(&args), vec!["-rf".to_string(), "/tmp".to_string()]);
    assert!(passthrough_args(&[]).is_empty());
}
