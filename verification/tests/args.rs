use mumu_cli::cli::{
    clone_args, control_args, create_args, delete_args, export_args, import_args, info_args,
    rename_args, setting_all_writable_args, setting_apply_args, setting_from_file_args,
    setting_set_args, sh_args, simulate_args,
};
use mumu_cli::cli::{adb_args, exit_outcome};
use mumu_cli::{
    ControlAction, MumuCli, MumuError, PerformanceMode, RendererMode, Setting, SimuKey, SlotIndex,
    VmIndex,
};

fn s(v: &[&str]) -> Vec<String> {
    v.iter().map(|x| x.to_string()).collect()
}

#[test]
fn client_construction() {
    assert_eq!(MumuCli::from_path().exe(), "mumu");
    assert_eq!(MumuCli::new("C:/MuMu/MuMuManager.exe").exe(), "C:/MuMu/MuMuManager.exe");
}

#[test]
fn vmindex_renders_all_one_and_many() {
    assert_eq!(VmIndex::All.to_arg(), "all");
    assert_eq!(VmIndex::One(SlotIndex::new(7)).to_arg(), "7");
    assert_eq!(VmIndex::One(SlotIndex::new(4294967295)).to_arg(), "4294967295");
    let many = VmIndex::Many(vec![SlotIndex::new(0), SlotIndex::new(2), SlotIndex::new(3)]);
    assert_eq!(many.to_arg(), "0,2,3");
    assert_eq!(VmIndex::Many(vec![]).to_arg(), "");
    assert_eq!(VmIndex::from(SlotIndex::new(5)).to_arg(), "5");
    assert_eq!(VmIndex::from(vec![SlotIndex::new(10), SlotIndex::new(1)]).to_arg(), "10,1");
}

#[test]
fn control_and_friends() {
    let s0 = VmIndex::One(SlotIndex::new(0));
    assert_eq!(control_args(&s0, ControlAction::Launch), s(&["control", "--vmindex", "0", "launch"]));
    assert_eq!(
        control_args(&VmIndex::All, ControlAction::Shutdown),
        s(&["control", "--vmindex", "all", "shutdown"])
    );
    assert_eq!(control_args(&s0, ControlAction::Restart)[3], "restart");
    assert_eq!(control_args(&s0, ControlAction::ShowWindow)[3], "show_window");
    assert_eq!(control_args(&s0, ControlAction::HideWindow)[3], "hide_window");
    assert_eq!(ControlAction::Launch.as_str(), "launch");
}

#[test]
fn instance_management() {
    assert_eq!(create_args(2, false), s(&["create", "--number", "2"]));
    assert_eq!(create_args(1, true), s(&["create", "--number", "1", "--mini"]));
    let s0 = VmIndex::One(SlotIndex::new(0));
    assert_eq!(clone_args(&s0, 3), s(&["clone", "--vmindex", "0", "--number", "3"]));
    assert_eq!(delete_args(&VmIndex::One(SlotIndex::new(5))), s(&["delete", "--vmindex", "5"]));
    assert_eq!(
        rename_args(SlotIndex::new(0), "MySlot"),
        s(&["rename", "--vmindex", "0", "--name", "MySlot"])
    );
    assert_eq!(info_args(&VmIndex::All), s(&["info", "--vmindex", "all"]));
}

#[test]
fn shell_and_adb_commands() {
    assert_eq!(
        sh_args(SlotIndex::new(1), "getprop ro.build.version.release"),
        s(&["sh", "--vmindex", "1", "--cmd", "getprop ro.build.version.release"])
    );
    assert_eq!(
        adb_args(SlotIndex::new(12), "connect"),
        s(&["adb", "--vmindex", "12", "--cmd", "connect"])
    );
}

#[test]
fn simulate_with_and_without_value() {
    let s0 = VmIndex::One(SlotIndex::new(0));
    assert_eq!(
        simulate_args(&s0, SimuKey::Imei, Some("123456789012345")),
        s(&["simulation", "--vmindex", "0", "--simu_key", "imei", "--simu_value", "123456789012345"])
    );
    assert_eq!(
        simulate_args(&s0, SimuKey::AndroidId, None),
        s(&["simulation", "--vmindex", "0", "--simu_key", "android_id", "--simu_value", "__null__"])
    );
    assert_eq!(SimuKey::MacAddress.as_str(), "mac_address");
}

#[test]
fn import_and_export() {
    assert_eq!(
        import_args("backup.mumudata"),
        s(&["import", "--path", "backup.mumudata", "--number", "1"])
    );
    let s0 = VmIndex::One(SlotIndex::new(0));
    assert_eq!(
        export_args(&s0, "./backups", Some("slot0"), true),
        s(&["export", "--vmindex", "0", "--dir", "./backups", "--name", "slot0", "--zip"])
    );
    assert_eq!(
        export_args(&s0, "./backups", None, false),
        s(&["export", "--vmindex", "0", "--dir", "./backups"])
    );
    assert_eq!(export_args(&s0, "d", None, true).last().unwrap(), "--zip");
}

#[test]
fn settings_arguments() {
    let s0 = VmIndex::One(SlotIndex::new(0));
    assert_eq!(
        setting_set_args(&s0, &[("max_frame_rate", "15")]),
        s(&["setting", "--vmindex", "0", "--key", "max_frame_rate", "--value", "15"])
    );
    assert_eq!(setting_set_args(&s0, &[]), s(&["setting", "--vmindex", "0"]));
    let typed = setting_apply_args(
        &s0,
        &[
            Setting::MaxFrameRate(15),
            Setting::RendererMode(RendererMode::Vulkan),
            Setting::PerformanceMode(PerformanceMode::Custom),
            Setting::PerformanceMemCustom(2_000_000),
        ],
    );
    assert_eq!(
        typed,
        s(&[
            "setting", "--vmindex", "0", "--key", "max_frame_rate", "--value", "15", "--key",
            "renderer_mode", "--value", "vk", "--key", "performance_mode", "--value", "custom",
            "--key", "performance_mem.custom", "--value", "2.000000",
        ])
    );
    assert_eq!(
        setting_from_file_args(&s0, "my_settings.json"),
        s(&["setting", "--vmindex", "0", "--path", "my_settings.json"])
    );
    assert_eq!(
        setting_all_writable_args(&s0),
        s(&["setting", "--vmindex", "0", "--all_writable"])
    );
}

#[test]
fn exit_outcome_success_and_failure() {
    assert_eq!(exit_outcome(true, Some(0), b"ok".to_vec(), String::new()).unwrap(), b"ok".to_vec());
    match exit_outcome(false, Some(3), b"out".to_vec(), "boom".to_string()) {
        Err(MumuError::NonZeroExit { code, stderr }) => {
            assert_eq!(code, Some(3));
            assert_eq!(stderr, "boom");
        }
        other => panic!("unexpected {other:?}"),
    }
}

#[test]
fn many_argument_splits_back_into_the_slots() {
    let slots = vec![SlotIndex::new(0), SlotIndex::new(42), SlotIndex::new(4294967295)];
    let arg = VmIndex::Many(slots.clone()).to_arg();
    let back: Vec<u32> = arg.split(',').map(|p| p.parse::<u32>().unwrap()).collect();
    assert_eq!(back, slots.iter().map(|s| s.get()).collect::<Vec<_>>());
}
