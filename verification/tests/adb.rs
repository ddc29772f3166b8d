use mumu_cli::adb::{
    adb_serial, adb_state_text, connect_args, disconnect_args, get_state_args, install_args,
    install_outcome, pull_args, pull_outcome, AdbReadiness, AdbStep, ADB_READY_TIMEOUT_SECS,
};
use mumu_cli::{MumuError, PlayerInfo};

#[test]
fn serial_needs_host_and_port() {
    let mut p = PlayerInfo::default();
    assert!(matches!(adb_serial(&p), Err(MumuError::AdbEndpointUnavailable)));
    p.adb_host_ip = Some("127.0.0.1".to_string());
    assert!(matches!(adb_serial(&p), Err(MumuError::AdbEndpointUnavailable)));
    p.adb_port = Some(16384);
    assert_eq!(adb_serial(&p).unwrap(), "127.0.0.1:16384");
}

#[test]
fn adb_argument_lists() {
    assert_eq!(connect_args("h:1"), vec!["connect", "h:1"]);
    assert_eq!(disconnect_args("h:1"), vec!["disconnect", "h:1"]);
    assert_eq!(get_state_args("h:1"), vec!["-s", "h:1", "get-state"]);
    assert_eq!(install_args("h:1", "app.apk"), vec!["-s", "h:1", "install", "-r", "app.apk"]);
    assert_eq!(pull_args("h:1", "/sdcard/x", "./cache"), vec!["-s", "h:1", "pull", "/sdcard/x", "./cache"]);
}

#[test]
fn state_text_trims_both_streams() {
    assert_eq!(adb_state_text("device\r\n", ""), "device");
    assert_eq!(adb_state_text("", "  error: device offline\n"), "error: device offline");
    assert_eq!(adb_state_text(" a ", " b "), "ab");
}

#[test]
fn readiness_ready_on_device() {
    let mut st = AdbReadiness::new();
    assert!(matches!(st.step("h:1", "device".to_string(), true), AdbStep::Ready));
}

#[test]
fn readiness_redials_once_on_offline() {
    let mut st = AdbReadiness::new();
    assert!(matches!(st.step("h:1", "error: device offline".to_string(), false), AdbStep::Redial));
    assert!(matches!(st.step("h:1", "error: device offline".to_string(), false), AdbStep::Wait));
    assert!(matches!(st.step("h:1", "unknown".to_string(), false), AdbStep::Wait));
    match st.step("h:1", "error: device offline".to_string(), true) {
        AdbStep::Failed(MumuError::AdbDeviceNotReady { serial, secs, last }) => {
            assert_eq!(serial, "h:1");
            assert_eq!(secs, ADB_READY_TIMEOUT_SECS);
            assert_eq!(secs, 20);
            assert_eq!(last, "error: device offline");
        }
        other => panic!("unexpected {other:?}"),
    }
}

#[test]
fn install_needs_success_text() {
    assert!(install_outcome(true, "Performing Streamed Install\nSuccess\n".into(), String::new()).is_ok());
    match install_outcome(true, "Failure".into(), "err".into()) {
        Err(MumuError::InstallFailed(m)) => assert_eq!(m, "Failureerr"),
        other => panic!("unexpected {other:?}"),
    }
    assert!(install_outcome(false, "Success".into(), String::new()).is_err());
}

#[test]
fn pull_follows_exit_status() {
    assert!(pull_outcome(true, String::new(), String::new()).is_ok());
    match pull_outcome(false, "o".into(), "e".into()) {
        Err(MumuError::PullFailed(m)) => assert_eq!(m, "oe"),
        other => panic!("unexpected {other:?}"),
    }
}
