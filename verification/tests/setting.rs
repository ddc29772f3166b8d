use mumu_cli::setting::{bool_str, fixed6_string};
use mumu_cli::{
    GpuMode, NetBridgeIpMode, PerformanceMode, RendererMode, RendererStrategy, ResolutionMode,
    Setting,
};

#[test]
fn keys_follow_the_wire_table() {
    assert_eq!(Setting::PlayerName("x".into()).key(), "player_name");
    assert_eq!(Setting::ApkAssociation(true).key(), "apk_asscciation");
    assert_eq!(Setting::PerformanceCpuCustom(2).key(), "performance_cpu.custom");
    assert_eq!(Setting::ResolutionDpiCustom(240_000_000).key(), "resolution_dpi.custom");
    assert_eq!(Setting::GpuModelCustom("a".into()).key(), "gpu_model.custom");
    assert_eq!(Setting::NetBridgeDns2("8.8.4.4".into()).key(), "net_bridge_dns2");
}

#[test]
fn values_are_rendered_for_the_wire() {
    assert_eq!(Setting::PlayerName("MySlot".into()).value(), "MySlot");
    assert_eq!(Setting::SystemDiskReadonly(true).value(), "true");
    assert_eq!(Setting::VerticalSync(false).value(), "false");
    assert_eq!(Setting::ScreenBrightness(100).value(), "100");
    assert_eq!(Setting::MaxFrameRate(15).value(), "15");
    assert_eq!(Setting::RendererMode(RendererMode::DirectX).value(), "dx");
    assert_eq!(Setting::RendererStrategy(RendererStrategy::Dis).value(), "dis");
    assert_eq!(Setting::PerformanceMode(PerformanceMode::Middle).value(), "middle");
    assert_eq!(Setting::GpuMode(GpuMode::High).value(), "high");
    assert_eq!(Setting::ResolutionMode(ResolutionMode::Widescreen).value(), "widescreen");
    assert_eq!(Setting::NetBridgeIpMode(NetBridgeIpMode::Static).value(), "static");
    assert_eq!(Setting::PerformanceMemCustom(750_000).value(), "0.750000");
    assert_eq!(Setting::ResolutionWidthCustom(1_920_000_000).value(), "1920.000000");
    assert_eq!(Setting::ResolutionDpiCustom(10_000_001).value(), "10.000001");
}

#[test]
fn as_pair_is_key_and_value() {
    let s = Setting::DynamicLowFrameRateLimit(30);
    assert_eq!(s.as_pair(), ("dynamic_low_frame_rate_limit", "30".to_string()));
}

#[test]
fn fixed_point_rendering() {
    assert_eq!(fixed6_string(0), "0.000000");
    assert_eq!(fixed6_string(-500_000), "-0.500000");
    assert_eq!(fixed6_string(1), "0.000001");
    assert_eq!(fixed6_string(i64::MIN), "-9223372036854.775808");
    assert_eq!(fixed6_string(i64::MAX), "9223372036854.775807");
    // The same text as `format!("{:.6}", x)` for a number with six decimals.
    assert_eq!(fixed6_string(16_000_000), format!("{:.6}", 16.0f64));
}

#[test]
fn bool_strings() {
    assert_eq!(bool_str(true), "true");
    assert_eq!(bool_str(false), "false");
}

#[test]
fn mode_strings() {
    assert_eq!(RendererMode::Vulkan.as_str(), "vk");
    assert_eq!(RendererStrategy::Auto.as_str(), "auto");
    assert_eq!(PerformanceMode::Low.as_str(), "low");
    assert_eq!(GpuMode::Custom.as_str(), "custom");
    assert_eq!(ResolutionMode::Tablet.as_str(), "tablet");
    assert_eq!(NetBridgeIpMode::Dhcp.as_str(), "dhcp");
}

#[test]
fn keys_are_distinct_and_ignore_payloads() {
    let all = vec![
        Setting::PlayerName(String::new()),
        Setting::RendererMode(RendererMode::Vulkan),
        Setting::RendererStrategy(RendererStrategy::Auto),
        Setting::ForceDiscreteGraphics(false),
        Setting::ScreenBrightness(0),
        Setting::MaxFrameRate(0),
        Setting::DynamicAdjustFrameRate(false),
        Setting::DynamicLowFrameRateLimit(0),
        Setting::ShowFrameRate(false),
        Setting::VerticalSync(false),
        Setting::WindowAutoRotate(false),
        Setting::WindowSaveRect(false),
        Setting::WindowSizeFixed(false),
        Setting::SystemDiskReadonly(false),
        Setting::SystemVolumeClose(false),
        Setting::AppKeptlive(false),
        Setting::RootPermission(false),
        Setting::MiniDisk(false),
        Setting::MouseStyle(false),
        Setting::JoystickAutoConnect(false),
        Setting::ApkAssociation(false),
        Setting::QuitConfirm(false),
        Setting::PhoneBrand(String::new()),
        Setting::PhoneModel(String::new()),
        Setting::PhoneMiit(String::new()),
        Setting::PhoneImei(String::new()),
        Setting::PhoneNumber(String::new()),
        Setting::NetBridgeOpen(false),
        Setting::NetBridgeIpMode(NetBridgeIpMode::Dhcp),
        Setting::NetBridgeIpAddr(String::new()),
        Setting::NetBridgeGateway(String::new()),
        Setting::NetBridgeSubnetMask(String::new()),
        Setting::NetBridgeDns1(String::new()),
        Setting::NetBridgeDns2(String::new()),
        Setting::NetBridgeCard(String::new()),
        Setting::PerformanceMode(PerformanceMode::Low),
        Setting::PerformanceCpuCustom(0),
        Setting::PerformanceMemCustom(0),
        Setting::GpuMode(GpuMode::Low),
        Setting::GpuModelCustom(String::new()),
        Setting::ResolutionMode(ResolutionMode::Phone),
        Setting::ResolutionWidthCustom(0),
        Setting::ResolutionHeightCustom(0),
        Setting::ResolutionDpiCustom(0),
    ];
    let mut keys: Vec<&str> = all.iter().map(|s| s.key()).collect();
    keys.sort();
    keys.dedup();
    assert_eq!(keys.len(), 44);
    assert_eq!(Setting::MaxFrameRate(15).key(), Setting::MaxFrameRate(60).key());
}
