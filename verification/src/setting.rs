//! Typed MuMu VM settings and their wire keys and values.
use vstd::prelude::*;
use vstd::arithmetic::div_mod::{lemma_div_denominator, lemma_fundamental_div_mod};

use crate::text::{decimal, digit_to_char, parse_u32_spec, push_char, push_decimal, push_str};

verus! {

/// Graphics rendering backend. Corresponds to `renderer_mode`.
#[derive(Debug, Clone, Copy, PartialEq, Eq, Structural)]
pub enum RendererMode {
    Vulkan,
    DirectX,
}

impl RendererMode {
    /// The wire value of the mode.
    pub open spec fn wire(self) -> Seq<char> {
        match self {
            RendererMode::Vulkan => "vk"@,
            RendererMode::DirectX => "dx"@,
        }
    }

    /// The wire value of the mode.
    pub fn as_str(self) -> (r: &'static str)
        ensures
            r@ == self.wire(),
    {
        match self {
            RendererMode::Vulkan => "vk",
            RendererMode::DirectX => "dx",
        }
    }
}

/// Rendering optimisation strategy. Corresponds to `renderer_strategy`.
#[derive(Debug, Clone, Copy, PartialEq, Eq, Structural)]
pub enum RendererStrategy {
    Auto,
    Perf,
    /// Power-saving / display-quality mode.
    Dis,
}

impl RendererStrategy {
    /// The wire value of the mode.
    pub open spec fn wire(self) -> Seq<char> {
        match self {
            RendererStrategy::Auto => "auto"@,
            RendererStrategy::Perf => "perf"@,
            RendererStrategy::Dis => "dis"@,
        }
    }

    /// The wire value of the mode.
    pub fn as_str(self) -> (r: &'static str)
        ensures
            r@ == self.wire(),
    {
        match self {
            RendererStrategy::Auto => "auto",
            RendererStrategy::Perf => "perf",
            RendererStrategy::Dis => "dis",
        }
    }
}

/// CPU/RAM performance tier. Corresponds to `performance_mode`.
///
/// `Low`, `Middle` and `High` use fixed hardware profiles; `Custom` reads
/// `performance_cpu.custom` and `performance_mem.custom`.
#[derive(Debug, Clone, Copy, PartialEq, Eq, Structural)]
pub enum PerformanceMode {
    Low,
    Middle,
    High,
    Custom,
}

impl PerformanceMode {
    /// The wire value of the mode.
    pub open spec fn wire(self) -> Seq<char> {
        match self {
            PerformanceMode::Low => "low"@,
            PerformanceMode::Middle => "middle"@,
            PerformanceMode::High => "high"@,
            PerformanceMode::Custom => "custom"@,
        }
    }

    /// The wire value of the mode.
    pub fn as_str(self) -> (r: &'static str)
        ensures
            r@ == self.wire(),
    {
        match self {
            PerformanceMode::Low => "low",
            PerformanceMode::Middle => "middle",
            PerformanceMode::High => "high",
            PerformanceMode::Custom => "custom",
        }
    }
}

/// GPU emulation tier. Corresponds to `gpu_mode`.
#[derive(Debug, Clone, Copy, PartialEq, Eq, Structural)]
pub enum GpuMode {
    /// Fixed model: Adreno (TM) 530.
    Low,
    /// Fixed model: Adreno (TM) 640.
    Middle,
    /// Fixed model: Adreno (TM) 740.
    High,
    /// Uses the string set via [`Setting::GpuModelCustom`].
    Custom,
}

impl GpuMode {
    /// The wire value of the mode.
    pub open spec fn wire(self) -> Seq<char> {
        match self {
            GpuMode::Low => "low"@,
            GpuMode::Middle => "middle"@,
            GpuMode::High => "high"@,
            GpuMode::Custom => "custom"@,
        }
    }

    /// The wire value of the mode.
    pub fn as_str(self) -> (r: &'static str)
        ensures
            r@ == self.wire(),
    {
        match self {
            GpuMode::Low => "low",
            GpuMode::Middle => "middle",
            GpuMode::High => "high",
            GpuMode::Custom => "custom",
        }
    }
}

/// Preset resolution category. Corresponds to `resolution_mode`.
#[derive(Debug, Clone, Copy, PartialEq, Eq, Structural)]
pub enum ResolutionMode {
    Tablet,
    Phone,
    Widescreen,
    Custom,
}

impl ResolutionMode {
    /// The wire value of the mode.
    pub open spec fn wire(self) -> Seq<char> {
        match self {
            ResolutionMode::Tablet => "tablet"@,
            ResolutionMode::Phone => "phone"@,
            ResolutionMode::Widescreen => "widescreen"@,
            ResolutionMode::Custom => "custom"@,
        }
    }

    /// The wire value of the mode.
    pub fn as_str(self) -> (r: &'static str)
        ensures
            r@ == self.wire(),
    {
        match self {
            ResolutionMode::Tablet => "tablet",
            ResolutionMode::Phone => "phone",
            ResolutionMode::Widescreen => "widescreen",
            ResolutionMode::Custom => "custom",
        }
    }
}

/// Network bridge IP assignment mode. Corresponds to `net_bridge_ip_mode`.
#[derive(Debug, Clone, Copy, PartialEq, Eq, Structural)]
pub enum NetBridgeIpMode {
    Dhcp,
    Static,
}

impl NetBridgeIpMode {
    /// The wire value of the mode.
    pub open spec fn wire(self) -> Seq<char> {
        match self {
            NetBridgeIpMode::Dhcp => "dhcp"@,
            NetBridgeIpMode::Static => "static"@,
        }
    }

    /// The wire value of the mode.
    pub fn as_str(self) -> (r: &'static str)
        ensures
            r@ == self.wire(),
    {
        match self {
            NetBridgeIpMode::Dhcp => "dhcp",
            NetBridgeIpMode::Static => "static",
        }
    }
}

/// `"true"` or `"false"`.
pub open spec fn bool_wire(b: bool) -> Seq<char> {
    if b {
        "true"@
    } else {
        "false"@
    }
}

/// `"true"` or `"false"`, as the settings write a flag.
pub fn bool_str(b: bool) -> (r: String)
    ensures
        r@ == bool_wire(b),
{
    let mut s = String::new();
    if b {
        push_str(&mut s, "true");
    } else {
        push_str(&mut s, "false");
    }
    s
}

/// The six digits of `f` (`0 <= f < 1_000_000`), zero-padded.
pub open spec fn six_digits(f: int) -> Seq<char> {
    seq![
        crate::text::digit_char((f / 100000) % 10),
        crate::text::digit_char((f / 10000) % 10),
        crate::text::digit_char((f / 1000) % 10),
        crate::text::digit_char((f / 100) % 10),
        crate::text::digit_char((f / 10) % 10),
        crate::text::digit_char(f % 10),
    ]
}

/// A quantity given in millionths, written with six decimals as
/// `format!("{:.6}", x)` writes the number `x = millionths / 1_000_000`.
pub open spec fn fixed6(millionths: int) -> Seq<char> {
    let m = if millionths < 0 {
        -millionths
    } else {
        millionths
    };
    let sign = if millionths < 0 {
        "-"@
    } else {
        Seq::<char>::empty()
    };
    sign + decimal((m / 1000000) as nat) + "."@ + six_digits(m % 1000000)
}

/// Writes a quantity given in millionths with six decimals.
pub fn fixed6_string(millionths: i64) -> (r: String)
    ensures
        r@ == fixed6(millionths as int),
{
    let mut s = String::new();
    let m: u64 = if millionths < 0 {
        (0i128 - millionths as i128) as u64
    } else {
        millionths as u64
    };
    if millionths < 0 {
        push_str(&mut s, "-");
    }
    push_decimal(&mut s, m / 1000000);
    push_str(&mut s, ".");
    let f = m % 1000000;
    push_char(&mut s, digit_to_char((f / 100000) % 10));
    push_char(&mut s, digit_to_char((f / 10000) % 10));
    push_char(&mut s, digit_to_char((f / 1000) % 10));
    push_char(&mut s, digit_to_char((f / 100) % 10));
    push_char(&mut s, digit_to_char((f / 10) % 10));
    push_char(&mut s, digit_to_char(f % 10));
    proof {
        reveal_strlit("-");
        reveal_strlit(".");
        assert(s@ =~= fixed6(millionths as int));
    }
    s
}

/// A typed MuMu VM setting, covering every key exposed by
/// `mumu setting --all_writable`. Quantities that MuMu takes as fractional
/// numbers are given in millionths and written with six decimals.
#[derive(Debug, Clone)]
pub enum Setting {
    /// Display name shown in the MuMu player list. (`player_name`)
    PlayerName(String),
    /// Graphics backend. (`renderer_mode`)
    RendererMode(RendererMode),
    /// Rendering optimisation strategy. (`renderer_strategy`)
    RendererStrategy(RendererStrategy),
    /// Force use of the discrete GPU. (`force_discrete_graphics`)
    ForceDiscreteGraphics(bool),
    /// Screen brightness 0–100. (`screen_brightness`)
    ScreenBrightness(u8),
    /// Frame rate cap in fps. (`max_frame_rate`)
    MaxFrameRate(u32),
    /// Automatically lower the frame rate when the window is idle. (`dynamic_adjust_frame_rate`)
    DynamicAdjustFrameRate(bool),
    /// Floor fps when dynamic adjustment is active. Known valid values: 5, 10, …, 60. (`dynamic_low_frame_rate_limit`)
    DynamicLowFrameRateLimit(u32),
    /// Show the fps counter overlay. (`show_frame_rate`)
    ShowFrameRate(bool),
    /// Enable vertical sync. (`vertical_sync`)
    VerticalSync(bool),
    /// Allow the window to auto-rotate with the Android orientation. (`window_auto_rotate`)
    WindowAutoRotate(bool),
    /// Persist the window position and size between sessions. (`window_save_rect`)
    WindowSaveRect(bool),
    /// Prevent the user from resizing the window. (`window_size_fixed`)
    WindowSizeFixed(bool),
    /// Mount the Android system partition read-only. (`system_disk_readonly`)
    SystemDiskReadonly(bool),
    /// Mute Android system audio. (`system_volume_close`)
    SystemVolumeClose(bool),
    /// Keep the app alive when the player window is closed. (`app_keptlive`)
    AppKeptlive(bool),
    /// Grant root permissions inside the VM. (`root_permission`)
    RootPermission(bool),
    /// Use the mini-disk data partition. (`mini_disk`)
    MiniDisk(bool),
    /// Show the mouse cursor inside the player window. (`mouse_style`)
    MouseStyle(bool),
    /// Auto-connect joystick devices. (`joystick_auto_connect`)
    JoystickAutoConnect(bool),
    /// Register MuMu as the default handler for APK files. The wire key keeps MuMu's own spelling. (`apk_asscciation`)
    ApkAssociation(bool),
    /// Show a confirmation dialog when quitting. (`quit_confirm`)
    QuitConfirm(bool),
    /// Spoofed phone manufacturer. (`phone_brand`)
    PhoneBrand(String),
    /// Spoofed phone model name. (`phone_model`)
    PhoneModel(String),
    /// Spoofed phone model ID, e.g. `SM-F721N`. (`phone_miit`)
    PhoneMiit(String),
    /// Spoofed IMEI. (`phone_imei`)
    PhoneImei(String),
    /// Spoofed phone number. (`phone_number`)
    PhoneNumber(String),
    /// Enable the network bridge. (`net_bridge_open`)
    NetBridgeOpen(bool),
    /// IP assignment mode for the network bridge. (`net_bridge_ip_mode`)
    NetBridgeIpMode(NetBridgeIpMode),
    /// Static IP address for the bridge. (`net_bridge_ip_addr`)
    NetBridgeIpAddr(String),
    /// Gateway for the bridge. (`net_bridge_gateway`)
    NetBridgeGateway(String),
    /// Subnet mask for the bridge. (`net_bridge_subnet_mask`)
    NetBridgeSubnetMask(String),
    /// Primary DNS for the bridge. (`net_bridge_dns1`)
    NetBridgeDns1(String),
    /// Secondary DNS for the bridge. (`net_bridge_dns2`)
    NetBridgeDns2(String),
    /// Network adapter to bridge. (`net_bridge_card`)
    NetBridgeCard(String),
    /// CPU/RAM performance tier. (`performance_mode`)
    PerformanceMode(PerformanceMode),
    /// CPU core count when `PerformanceMode::Custom` is active. Known valid values: 1, 2, 3, 4. (`performance_cpu.custom`)
    PerformanceCpuCustom(u32),
    /// RAM in GB when `PerformanceMode::Custom` is active, in millionths of a GB (2 GB is `2_000_000`). (`performance_mem.custom`)
    PerformanceMemCustom(i64),
    /// GPU emulation tier. (`gpu_mode`)
    GpuMode(GpuMode),
    /// GPU model string when `GpuMode::Custom` is active, e.g. `Adreno (TM) 640`. (`gpu_model.custom`)
    GpuModelCustom(String),
    /// Preset resolution category. (`resolution_mode`)
    ResolutionMode(ResolutionMode),
    /// Width in pixels when `ResolutionMode::Custom` is active, in millionths of a pixel. (`resolution_width.custom`)
    ResolutionWidthCustom(i64),
    /// Height in pixels when `ResolutionMode::Custom` is active, in millionths of a pixel. (`resolution_height.custom`)
    ResolutionHeightCustom(i64),
    /// DPI when `ResolutionMode::Custom` is active, in millionths. Range: 10–960. (`resolution_dpi.custom`)
    ResolutionDpiCustom(i64),
}

impl Setting {
    /// The MuMu wire key of the setting.
    pub open spec fn key_spec(&self) -> Seq<char> {
        match self {
            Setting::PlayerName(_) => "player_name"@,
            Setting::RendererMode(_) => "renderer_mode"@,
            Setting::RendererStrategy(_) => "renderer_strategy"@,
            Setting::ForceDiscreteGraphics(_) => "force_discrete_graphics"@,
            Setting::ScreenBrightness(_) => "screen_brightness"@,
            Setting::MaxFrameRate(_) => "max_frame_rate"@,
            Setting::DynamicAdjustFrameRate(_) => "dynamic_adjust_frame_rate"@,
            Setting::DynamicLowFrameRateLimit(_) => "dynamic_low_frame_rate_limit"@,
            Setting::ShowFrameRate(_) => "show_frame_rate"@,
            Setting::VerticalSync(_) => "vertical_sync"@,
            Setting::WindowAutoRotate(_) => "window_auto_rotate"@,
            Setting::WindowSaveRect(_) => "window_save_rect"@,
            Setting::WindowSizeFixed(_) => "window_size_fixed"@,
            Setting::SystemDiskReadonly(_) => "system_disk_readonly"@,
            Setting::SystemVolumeClose(_) => "system_volume_close"@,
            Setting::AppKeptlive(_) => "app_keptlive"@,
            Setting::RootPermission(_) => "root_permission"@,
            Setting::MiniDisk(_) => "mini_disk"@,
            Setting::MouseStyle(_) => "mouse_style"@,
            Setting::JoystickAutoConnect(_) => "joystick_auto_connect"@,
            Setting::ApkAssociation(_) => "apk_asscciation"@,
            Setting::QuitConfirm(_) => "quit_confirm"@,
            Setting::PhoneBrand(_) => "phone_brand"@,
            Setting::PhoneModel(_) => "phone_model"@,
            Setting::PhoneMiit(_) => "phone_miit"@,
            Setting::PhoneImei(_) => "phone_imei"@,
            Setting::PhoneNumber(_) => "phone_number"@,
            Setting::NetBridgeOpen(_) => "net_bridge_open"@,
            Setting::NetBridgeIpMode(_) => "net_bridge_ip_mode"@,
            Setting::NetBridgeIpAddr(_) => "net_bridge_ip_addr"@,
            Setting::NetBridgeGateway(_) => "net_bridge_gateway"@,
            Setting::NetBridgeSubnetMask(_) => "net_bridge_subnet_mask"@,
            Setting::NetBridgeDns1(_) => "net_bridge_dns1"@,
            Setting::NetBridgeDns2(_) => "net_bridge_dns2"@,
            Setting::NetBridgeCard(_) => "net_bridge_card"@,
            Setting::PerformanceMode(_) => "performance_mode"@,
            Setting::PerformanceCpuCustom(_) => "performance_cpu.custom"@,
            Setting::PerformanceMemCustom(_) => "performance_mem.custom"@,
            Setting::GpuMode(_) => "gpu_mode"@,
            Setting::GpuModelCustom(_) => "gpu_model.custom"@,
            Setting::ResolutionMode(_) => "resolution_mode"@,
            Setting::ResolutionWidthCustom(_) => "resolution_width.custom"@,
            Setting::ResolutionHeightCustom(_) => "resolution_height.custom"@,
            Setting::ResolutionDpiCustom(_) => "resolution_dpi.custom"@,
        }
    }

    /// The MuMu wire value of the setting.
    pub open spec fn value_spec(&self) -> Seq<char> {
        match self {
            Setting::PlayerName(s) => s@,
            Setting::RendererMode(m) => m.wire(),
            Setting::RendererStrategy(m) => m.wire(),
            Setting::ForceDiscreteGraphics(b) => bool_wire(*b),
            Setting::ScreenBrightness(n) => decimal(*n as nat),
            Setting::MaxFrameRate(n) => decimal(*n as nat),
            Setting::DynamicAdjustFrameRate(b) => bool_wire(*b),
            Setting::DynamicLowFrameRateLimit(n) => decimal(*n as nat),
            Setting::ShowFrameRate(b) => bool_wire(*b),
            Setting::VerticalSync(b) => bool_wire(*b),
            Setting::WindowAutoRotate(b) => bool_wire(*b),
            Setting::WindowSaveRect(b) => bool_wire(*b),
            Setting::WindowSizeFixed(b) => bool_wire(*b),
            Setting::SystemDiskReadonly(b) => bool_wire(*b),
            Setting::SystemVolumeClose(b) => bool_wire(*b),
            Setting::AppKeptlive(b) => bool_wire(*b),
            Setting::RootPermission(b) => bool_wire(*b),
            Setting::MiniDisk(b) => bool_wire(*b),
            Setting::MouseStyle(b) => bool_wire(*b),
            Setting::JoystickAutoConnect(b) => bool_wire(*b),
            Setting::ApkAssociation(b) => bool_wire(*b),
            Setting::QuitConfirm(b) => bool_wire(*b),
            Setting::PhoneBrand(s) => s@,
            Setting::PhoneModel(s) => s@,
            Setting::PhoneMiit(s) => s@,
            Setting::PhoneImei(s) => s@,
            Setting::PhoneNumber(s) => s@,
            Setting::NetBridgeOpen(b) => bool_wire(*b),
            Setting::NetBridgeIpMode(m) => m.wire(),
            Setting::NetBridgeIpAddr(s) => s@,
            Setting::NetBridgeGateway(s) => s@,
            Setting::NetBridgeSubnetMask(s) => s@,
            Setting::NetBridgeDns1(s) => s@,
            Setting::NetBridgeDns2(s) => s@,
            Setting::NetBridgeCard(s) => s@,
            Setting::PerformanceMode(m) => m.wire(),
            Setting::PerformanceCpuCustom(n) => decimal(*n as nat),
            Setting::PerformanceMemCustom(x) => fixed6(*x as int),
            Setting::GpuMode(m) => m.wire(),
            Setting::GpuModelCustom(s) => s@,
            Setting::ResolutionMode(m) => m.wire(),
            Setting::ResolutionWidthCustom(x) => fixed6(*x as int),
            Setting::ResolutionHeightCustom(x) => fixed6(*x as int),
            Setting::ResolutionDpiCustom(x) => fixed6(*x as int),
        }
    }

    /// Returns the MuMu wire key for this setting.
    pub fn key(&self) -> (r: &'static str)
        ensures
            r@ == self.key_spec(),
    {
        match self {
            Setting::PlayerName(_) => "player_name",
            Setting::RendererMode(_) => "renderer_mode",
            Setting::RendererStrategy(_) => "renderer_strategy",
            Setting::ForceDiscreteGraphics(_) => "force_discrete_graphics",
            Setting::ScreenBrightness(_) => "screen_brightness",
            Setting::MaxFrameRate(_) => "max_frame_rate",
            Setting::DynamicAdjustFrameRate(_) => "dynamic_adjust_frame_rate",
            Setting::DynamicLowFrameRateLimit(_) => "dynamic_low_frame_rate_limit",
            Setting::ShowFrameRate(_) => "show_frame_rate",
            Setting::VerticalSync(_) => "vertical_sync",
            Setting::WindowAutoRotate(_) => "window_auto_rotate",
            Setting::WindowSaveRect(_) => "window_save_rect",
            Setting::WindowSizeFixed(_) => "window_size_fixed",
            Setting::SystemDiskReadonly(_) => "system_disk_readonly",
            Setting::SystemVolumeClose(_) => "system_volume_close",
            Setting::AppKeptlive(_) => "app_keptlive",
            Setting::RootPermission(_) => "root_permission",
            Setting::MiniDisk(_) => "mini_disk",
            Setting::MouseStyle(_) => "mouse_style",
            Setting::JoystickAutoConnect(_) => "joystick_auto_connect",
            Setting::ApkAssociation(_) => "apk_asscciation",
            Setting::QuitConfirm(_) => "quit_confirm",
            Setting::PhoneBrand(_) => "phone_brand",
            Setting::PhoneModel(_) => "phone_model",
            Setting::PhoneMiit(_) => "phone_miit",
            Setting::PhoneImei(_) => "phone_imei",
            Setting::PhoneNumber(_) => "phone_number",
            Setting::NetBridgeOpen(_) => "net_bridge_open",
            Setting::NetBridgeIpMode(_) => "net_bridge_ip_mode",
            Setting::NetBridgeIpAddr(_) => "net_bridge_ip_addr",
            Setting::NetBridgeGateway(_) => "net_bridge_gateway",
            Setting::NetBridgeSubnetMask(_) => "net_bridge_subnet_mask",
            Setting::NetBridgeDns1(_) => "net_bridge_dns1",
            Setting::NetBridgeDns2(_) => "net_bridge_dns2",
            Setting::NetBridgeCard(_) => "net_bridge_card",
            Setting::PerformanceMode(_) => "performance_mode",
            Setting::PerformanceCpuCustom(_) => "performance_cpu.custom",
            Setting::PerformanceMemCustom(_) => "performance_mem.custom",
            Setting::GpuMode(_) => "gpu_mode",
            Setting::GpuModelCustom(_) => "gpu_model.custom",
            Setting::ResolutionMode(_) => "resolution_mode",
            Setting::ResolutionWidthCustom(_) => "resolution_width.custom",
            Setting::ResolutionHeightCustom(_) => "resolution_height.custom",
            Setting::ResolutionDpiCustom(_) => "resolution_dpi.custom",
        }
    }

    /// Returns the MuMu wire value for this setting.
    pub fn value(&self) -> (r: String)
        ensures
            r@ == self.value_spec(),
    {
        match self {
            Setting::PlayerName(s) => s.clone(),
            Setting::RendererMode(m) => {
                let mut s = String::new();
                push_str(&mut s, m.as_str());
                s
            },
            Setting::RendererStrategy(m) => {
                let mut s = String::new();
                push_str(&mut s, m.as_str());
                s
            },
            Setting::ForceDiscreteGraphics(b) => bool_str(*b),
            Setting::ScreenBrightness(n) => crate::text::decimal_string(*n as u64),
            Setting::MaxFrameRate(n) => crate::text::decimal_string(*n as u64),
            Setting::DynamicAdjustFrameRate(b) => bool_str(*b),
            Setting::DynamicLowFrameRateLimit(n) => crate::text::decimal_string(*n as u64),
            Setting::ShowFrameRate(b) => bool_str(*b),
            Setting::VerticalSync(b) => bool_str(*b),
            Setting::WindowAutoRotate(b) => bool_str(*b),
            Setting::WindowSaveRect(b) => bool_str(*b),
            Setting::WindowSizeFixed(b) => bool_str(*b),
            Setting::SystemDiskReadonly(b) => bool_str(*b),
            Setting::SystemVolumeClose(b) => bool_str(*b),
            Setting::AppKeptlive(b) => bool_str(*b),
            Setting::RootPermission(b) => bool_str(*b),
            Setting::MiniDisk(b) => bool_str(*b),
            Setting::MouseStyle(b) => bool_str(*b),
            Setting::JoystickAutoConnect(b) => bool_str(*b),
            Setting::ApkAssociation(b) => bool_str(*b),
            Setting::QuitConfirm(b) => bool_str(*b),
            Setting::PhoneBrand(s) => s.clone(),
            Setting::PhoneModel(s) => s.clone(),
            Setting::PhoneMiit(s) => s.clone(),
            Setting::PhoneImei(s) => s.clone(),
            Setting::PhoneNumber(s) => s.clone(),
            Setting::NetBridgeOpen(b) => bool_str(*b),
            Setting::NetBridgeIpMode(m) => {
                let mut s = String::new();
                push_str(&mut s, m.as_str());
                s
            },
            Setting::NetBridgeIpAddr(s) => s.clone(),
            Setting::NetBridgeGateway(s) => s.clone(),
            Setting::NetBridgeSubnetMask(s) => s.clone(),
            Setting::NetBridgeDns1(s) => s.clone(),
            Setting::NetBridgeDns2(s) => s.clone(),
            Setting::NetBridgeCard(s) => s.clone(),
            Setting::PerformanceMode(m) => {
                let mut s = String::new();
                push_str(&mut s, m.as_str());
                s
            },
            Setting::PerformanceCpuCustom(n) => crate::text::decimal_string(*n as u64),
            Setting::PerformanceMemCustom(x) => fixed6_string(*x),
            Setting::GpuMode(m) => {
                let mut s = String::new();
                push_str(&mut s, m.as_str());
                s
            },
            Setting::GpuModelCustom(s) => s.clone(),
            Setting::ResolutionMode(m) => {
                let mut s = String::new();
                push_str(&mut s, m.as_str());
                s
            },
            Setting::ResolutionWidthCustom(x) => fixed6_string(*x),
            Setting::ResolutionHeightCustom(x) => fixed6_string(*x),
            Setting::ResolutionDpiCustom(x) => fixed6_string(*x),
        }
    }

    /// Returns `(key, owned_value)`, for building CLI argument pairs.
    pub fn as_pair(&self) -> (r: (&'static str, String))
        ensures
            r.0@ == self.key_spec(),
            r.1@ == self.value_spec(),
    {
        (self.key(), self.value())
    }
}

impl Setting {
    /// The position of the setting's variant in the declaration, whatever
    /// its payload.
    pub open spec fn variant_index(&self) -> int {
        match self {
            Setting::PlayerName(_) => 0,
            Setting::RendererMode(_) => 1,
            Setting::RendererStrategy(_) => 2,
            Setting::ForceDiscreteGraphics(_) => 3,
            Setting::ScreenBrightness(_) => 4,
            Setting::MaxFrameRate(_) => 5,
            Setting::DynamicAdjustFrameRate(_) => 6,
            Setting::DynamicLowFrameRateLimit(_) => 7,
            Setting::ShowFrameRate(_) => 8,
            Setting::VerticalSync(_) => 9,
            Setting::WindowAutoRotate(_) => 10,
            Setting::WindowSaveRect(_) => 11,
            Setting::WindowSizeFixed(_) => 12,
            Setting::SystemDiskReadonly(_) => 13,
            Setting::SystemVolumeClose(_) => 14,
            Setting::AppKeptlive(_) => 15,
            Setting::RootPermission(_) => 16,
            Setting::MiniDisk(_) => 17,
            Setting::MouseStyle(_) => 18,
            Setting::JoystickAutoConnect(_) => 19,
            Setting::ApkAssociation(_) => 20,
            Setting::QuitConfirm(_) => 21,
            Setting::PhoneBrand(_) => 22,
            Setting::PhoneModel(_) => 23,
            Setting::PhoneMiit(_) => 24,
            Setting::PhoneImei(_) => 25,
            Setting::PhoneNumber(_) => 26,
            Setting::NetBridgeOpen(_) => 27,
            Setting::NetBridgeIpMode(_) => 28,
            Setting::NetBridgeIpAddr(_) => 29,
            Setting::NetBridgeGateway(_) => 30,
            Setting::NetBridgeSubnetMask(_) => 31,
            Setting::NetBridgeDns1(_) => 32,
            Setting::NetBridgeDns2(_) => 33,
            Setting::NetBridgeCard(_) => 34,
            Setting::PerformanceMode(_) => 35,
            Setting::PerformanceCpuCustom(_) => 36,
            Setting::PerformanceMemCustom(_) => 37,
            Setting::GpuMode(_) => 38,
            Setting::GpuModelCustom(_) => 39,
            Setting::ResolutionMode(_) => 40,
            Setting::ResolutionWidthCustom(_) => 41,
            Setting::ResolutionHeightCustom(_) => 42,
            Setting::ResolutionDpiCustom(_) => 43,
        }
    }
}

/// The variant position a wire key names, or -1 for an unknown key.
pub open spec fn key_variant(k: Seq<char>) -> int {
    if k == "player_name"@ {
        0
    } else if k == "renderer_mode"@ {
        1
    } else if k == "renderer_strategy"@ {
        2
    } else if k == "force_discrete_graphics"@ {
        3
    } else if k == "screen_brightness"@ {
        4
    } else if k == "max_frame_rate"@ {
        5
    } else if k == "dynamic_adjust_frame_rate"@ {
        6
    } else if k == "dynamic_low_frame_rate_limit"@ {
        7
    } else if k == "show_frame_rate"@ {
        8
    } else if k == "vertical_sync"@ {
        9
    } else if k == "window_auto_rotate"@ {
        10
    } else if k == "window_save_rect"@ {
        11
    } else if k == "window_size_fixed"@ {
        12
    } else if k == "system_disk_readonly"@ {
        13
    } else if k == "system_volume_close"@ {
        14
    } else if k == "app_keptlive"@ {
        15
    } else if k == "root_permission"@ {
        16
    } else if k == "mini_disk"@ {
        17
    } else if k == "mouse_style"@ {
        18
    } else if k == "joystick_auto_connect"@ {
        19
    } else if k == "apk_asscciation"@ {
        20
    } else if k == "quit_confirm"@ {
        21
    } else if k == "phone_brand"@ {
        22
    } else if k == "phone_model"@ {
        23
    } else if k == "phone_miit"@ {
        24
    } else if k == "phone_imei"@ {
        25
    } else if k == "phone_number"@ {
        26
    } else if k == "net_bridge_open"@ {
        27
    } else if k == "net_bridge_ip_mode"@ {
        28
    } else if k == "net_bridge_ip_addr"@ {
        29
    } else if k == "net_bridge_gateway"@ {
        30
    } else if k == "net_bridge_subnet_mask"@ {
        31
    } else if k == "net_bridge_dns1"@ {
        32
    } else if k == "net_bridge_dns2"@ {
        33
    } else if k == "net_bridge_card"@ {
        34
    } else if k == "performance_mode"@ {
        35
    } else if k == "performance_cpu.custom"@ {
        36
    } else if k == "performance_mem.custom"@ {
        37
    } else if k == "gpu_mode"@ {
        38
    } else if k == "gpu_model.custom"@ {
        39
    } else if k == "resolution_mode"@ {
        40
    } else if k == "resolution_width.custom"@ {
        41
    } else if k == "resolution_height.custom"@ {
        42
    } else if k == "resolution_dpi.custom"@ {
        43
    } else {
        -1
    }
}

#[verifier::rlimit(100)]
proof fn lemma_key_decodes(s: Setting)
    ensures
        key_variant(s.key_spec()) == s.variant_index(),
{
    reveal_strlit("player_name");
    reveal_strlit("renderer_mode");
    reveal_strlit("renderer_strategy");
    reveal_strlit("force_discrete_graphics");
    reveal_strlit("screen_brightness");
    reveal_strlit("max_frame_rate");
    reveal_strlit("dynamic_adjust_frame_rate");
    reveal_strlit("dynamic_low_frame_rate_limit");
    reveal_strlit("show_frame_rate");
    reveal_strlit("vertical_sync");
    reveal_strlit("window_auto_rotate");
    reveal_strlit("window_save_rect");
    reveal_strlit("window_size_fixed");
    reveal_strlit("system_disk_readonly");
    reveal_strlit("system_volume_close");
    reveal_strlit("app_keptlive");
    reveal_strlit("root_permission");
    reveal_strlit("mini_disk");
    reveal_strlit("mouse_style");
    reveal_strlit("joystick_auto_connect");
    reveal_strlit("apk_asscciation");
    reveal_strlit("quit_confirm");
    reveal_strlit("phone_brand");
    reveal_strlit("phone_model");
    reveal_strlit("phone_miit");
    reveal_strlit("phone_imei");
    reveal_strlit("phone_number");
    reveal_strlit("net_bridge_open");
    reveal_strlit("net_bridge_ip_mode");
    reveal_strlit("net_bridge_ip_addr");
    reveal_strlit("net_bridge_gateway");
    reveal_strlit("net_bridge_subnet_mask");
    reveal_strlit("net_bridge_dns1");
    reveal_strlit("net_bridge_dns2");
    reveal_strlit("net_bridge_card");
    reveal_strlit("performance_mode");
    reveal_strlit("performance_cpu.custom");
    reveal_strlit("performance_mem.custom");
    reveal_strlit("gpu_mode");
    reveal_strlit("gpu_model.custom");
    reveal_strlit("resolution_mode");
    reveal_strlit("resolution_width.custom");
    reveal_strlit("resolution_height.custom");
    reveal_strlit("resolution_dpi.custom");
    assert("player_name"@[0] != "mouse_style"@[0]);
    assert("player_name"@[1] != "phone_brand"@[1]);
    assert("player_name"@[1] != "phone_model"@[1]);
    assert("renderer_mode"@[0] != "vertical_sync"@[0]);
    assert("renderer_strategy"@[0] != "screen_brightness"@[0]);
    assert("renderer_strategy"@[0] != "window_size_fixed"@[0]);
    assert("force_discrete_graphics"@[0] != "resolution_width.custom"@[0]);
    assert("screen_brightness"@[0] != "window_size_fixed"@[0]);
    assert("show_frame_rate"@[0] != "root_permission"@[0]);
    assert("show_frame_rate"@[0] != "apk_asscciation"@[0]);
    assert("show_frame_rate"@[0] != "net_bridge_open"@[0]);
    assert("show_frame_rate"@[0] != "net_bridge_dns1"@[0]);
    assert("show_frame_rate"@[0] != "net_bridge_dns2"@[0]);
    assert("show_frame_rate"@[0] != "net_bridge_card"@[0]);
    assert("show_frame_rate"@[0] != "resolution_mode"@[0]);
    assert("window_auto_rotate"@[0] != "net_bridge_ip_mode"@[0]);
    assert("window_auto_rotate"@[0] != "net_bridge_ip_addr"@[0]);
    assert("window_auto_rotate"@[0] != "net_bridge_gateway"@[0]);
    assert("window_save_rect"@[0] != "performance_mode"@[0]);
    assert("window_save_rect"@[0] != "gpu_model.custom"@[0]);
    assert("app_keptlive"@[0] != "quit_confirm"@[0]);
    assert("app_keptlive"@[0] != "phone_number"@[0]);
    assert("root_permission"@[0] != "apk_asscciation"@[0]);
    assert("root_permission"@[0] != "net_bridge_open"@[0]);
    assert("root_permission"@[0] != "net_bridge_dns1"@[0]);
    assert("root_permission"@[0] != "net_bridge_dns2"@[0]);
    assert("root_permission"@[0] != "net_bridge_card"@[0]);
    assert("root_permission"@[1] != "resolution_mode"@[1]);
    assert("mouse_style"@[0] != "phone_brand"@[0]);
    assert("mouse_style"@[0] != "phone_model"@[0]);
    assert("joystick_auto_connect"@[0] != "resolution_dpi.custom"@[0]);
    assert("apk_asscciation"@[0] != "net_bridge_open"@[0]);
    assert("apk_asscciation"@[0] != "net_bridge_dns1"@[0]);
    assert("apk_asscciation"@[0] != "net_bridge_dns2"@[0]);
    assert("apk_asscciation"@[0] != "net_bridge_card"@[0]);
    assert("apk_asscciation"@[0] != "resolution_mode"@[0]);
    assert("quit_confirm"@[0] != "phone_number"@[0]);
    assert("phone_brand"@[6] != "phone_model"@[6]);
    assert("phone_miit"@[6] != "phone_imei"@[6]);
    assert("net_bridge_open"@[11] != "net_bridge_dns1"@[11]);
    assert("net_bridge_open"@[11] != "net_bridge_dns2"@[11]);
    assert("net_bridge_open"@[11] != "net_bridge_card"@[11]);
    assert("net_bridge_open"@[0] != "resolution_mode"@[0]);
    assert("net_bridge_ip_mode"@[14] != "net_bridge_ip_addr"@[14]);
    assert("net_bridge_ip_mode"@[11] != "net_bridge_gateway"@[11]);
    assert("net_bridge_ip_addr"@[11] != "net_bridge_gateway"@[11]);
    assert("net_bridge_subnet_mask"@[0] != "performance_cpu.custom"@[0]);
    assert("net_bridge_subnet_mask"@[0] != "performance_mem.custom"@[0]);
    assert("net_bridge_dns1"@[14] != "net_bridge_dns2"@[14]);
    assert("net_bridge_dns1"@[11] != "net_bridge_card"@[11]);
    assert("net_bridge_dns1"@[0] != "resolution_mode"@[0]);
    assert("net_bridge_dns2"@[11] != "net_bridge_card"@[11]);
    assert("net_bridge_dns2"@[0] != "resolution_mode"@[0]);
    assert("net_bridge_card"@[0] != "resolution_mode"@[0]);
    assert("performance_mode"@[0] != "gpu_model.custom"@[0]);
    assert("performance_cpu.custom"@[12] != "performance_mem.custom"@[12]);
    assert("player_name"@.len() == 11);
    assert("renderer_mode"@.len() == 13);
    assert("renderer_strategy"@.len() == 17);
    assert("force_discrete_graphics"@.len() == 23);
    assert("screen_brightness"@.len() == 17);
    assert("max_frame_rate"@.len() == 14);
    assert("dynamic_adjust_frame_rate"@.len() == 25);
    assert("dynamic_low_frame_rate_limit"@.len() == 28);
    assert("show_frame_rate"@.len() == 15);
    assert("vertical_sync"@.len() == 13);
    assert("window_auto_rotate"@.len() == 18);
    assert("window_save_rect"@.len() == 16);
    assert("window_size_fixed"@.len() == 17);
    assert("system_disk_readonly"@.len() == 20);
    assert("system_volume_close"@.len() == 19);
    assert("app_keptlive"@.len() == 12);
    assert("root_permission"@.len() == 15);
    assert("mini_disk"@.len() == 9);
    assert("mouse_style"@.len() == 11);
    assert("joystick_auto_connect"@.len() == 21);
    assert("apk_asscciation"@.len() == 15);
    assert("quit_confirm"@.len() == 12);
    assert("phone_brand"@.len() == 11);
    assert("phone_model"@.len() == 11);
    assert("phone_miit"@.len() == 10);
    assert("phone_imei"@.len() == 10);
    assert("phone_number"@.len() == 12);
    assert("net_bridge_open"@.len() == 15);
    assert("net_bridge_ip_mode"@.len() == 18);
    assert("net_bridge_ip_addr"@.len() == 18);
    assert("net_bridge_gateway"@.len() == 18);
    assert("net_bridge_subnet_mask"@.len() == 22);
    assert("net_bridge_dns1"@.len() == 15);
    assert("net_bridge_dns2"@.len() == 15);
    assert("net_bridge_card"@.len() == 15);
    assert("performance_mode"@.len() == 16);
    assert("performance_cpu.custom"@.len() == 22);
    assert("performance_mem.custom"@.len() == 22);
    assert("gpu_mode"@.len() == 8);
    assert("gpu_model.custom"@.len() == 16);
    assert("resolution_mode"@.len() == 15);
    assert("resolution_width.custom"@.len() == 23);
    assert("resolution_height.custom"@.len() == 24);
    assert("resolution_dpi.custom"@.len() == 21);
    match s {
        Setting::PlayerName(_) => {
            assert(key_variant("player_name"@) == 0);
        },
        Setting::RendererMode(_) => {
            assert(key_variant("renderer_mode"@) == 1);
        },
        Setting::RendererStrategy(_) => {
            assert(key_variant("renderer_strategy"@) == 2);
        },
        Setting::ForceDiscreteGraphics(_) => {
            assert(key_variant("force_discrete_graphics"@) == 3);
        },
        Setting::ScreenBrightness(_) => {
            assert(key_variant("screen_brightness"@) == 4);
        },
        Setting::MaxFrameRate(_) => {
            assert(key_variant("max_frame_rate"@) == 5);
        },
        Setting::DynamicAdjustFrameRate(_) => {
            assert(key_variant("dynamic_adjust_frame_rate"@) == 6);
        },
        Setting::DynamicLowFrameRateLimit(_) => {
            assert(key_variant("dynamic_low_frame_rate_limit"@) == 7);
        },
        Setting::ShowFrameRate(_) => {
            assert(key_variant("show_frame_rate"@) == 8);
        },
        Setting::VerticalSync(_) => {
            assert(key_variant("vertical_sync"@) == 9);
        },
        Setting::WindowAutoRotate(_) => {
            assert(key_variant("window_auto_rotate"@) == 10);
        },
        Setting::WindowSaveRect(_) => {
            assert(key_variant("window_save_rect"@) == 11);
        },
        Setting::WindowSizeFixed(_) => {
            assert(key_variant("window_size_fixed"@) == 12);
        },
        Setting::SystemDiskReadonly(_) => {
            assert(key_variant("system_disk_readonly"@) == 13);
        },
        Setting::SystemVolumeClose(_) => {
            assert(key_variant("system_volume_close"@) == 14);
        },
        Setting::AppKeptlive(_) => {
            assert(key_variant("app_keptlive"@) == 15);
        },
        Setting::RootPermission(_) => {
            assert(key_variant("root_permission"@) == 16);
        },
        Setting::MiniDisk(_) => {
            assert(key_variant("mini_disk"@) == 17);
        },
        Setting::MouseStyle(_) => {
            assert(key_variant("mouse_style"@) == 18);
        },
        Setting::JoystickAutoConnect(_) => {
            assert(key_variant("joystick_auto_connect"@) == 19);
        },
        Setting::ApkAssociation(_) => {
            assert(key_variant("apk_asscciation"@) == 20);
        },
        Setting::QuitConfirm(_) => {
            assert(key_variant("quit_confirm"@) == 21);
        },
        Setting::PhoneBrand(_) => {
            assert(key_variant("phone_brand"@) == 22);
        },
        Setting::PhoneModel(_) => {
            assert(key_variant("phone_model"@) == 23);
        },
        Setting::PhoneMiit(_) => {
            assert(key_variant("phone_miit"@) == 24);
        },
        Setting::PhoneImei(_) => {
            assert(key_variant("phone_imei"@) == 25);
        },
        Setting::PhoneNumber(_) => {
            assert(key_variant("phone_number"@) == 26);
        },
        Setting::NetBridgeOpen(_) => {
            assert(key_variant("net_bridge_open"@) == 27);
        },
        Setting::NetBridgeIpMode(_) => {
            assert(key_variant("net_bridge_ip_mode"@) == 28);
        },
        Setting::NetBridgeIpAddr(_) => {
            assert(key_variant("net_bridge_ip_addr"@) == 29);
        },
        Setting::NetBridgeGateway(_) => {
            assert(key_variant("net_bridge_gateway"@) == 30);
        },
        Setting::NetBridgeSubnetMask(_) => {
            assert(key_variant("net_bridge_subnet_mask"@) == 31);
        },
        Setting::NetBridgeDns1(_) => {
            assert(key_variant("net_bridge_dns1"@) == 32);
        },
        Setting::NetBridgeDns2(_) => {
            assert(key_variant("net_bridge_dns2"@) == 33);
        },
        Setting::NetBridgeCard(_) => {
            assert(key_variant("net_bridge_card"@) == 34);
        },
        Setting::PerformanceMode(_) => {
            assert(key_variant("performance_mode"@) == 35);
        },
        Setting::PerformanceCpuCustom(_) => {
            assert(key_variant("performance_cpu.custom"@) == 36);
        },
        Setting::PerformanceMemCustom(_) => {
            assert(key_variant("performance_mem.custom"@) == 37);
        },
        Setting::GpuMode(_) => {
            assert(key_variant("gpu_mode"@) == 38);
        },
        Setting::GpuModelCustom(_) => {
            assert(key_variant("gpu_model.custom"@) == 39);
        },
        Setting::ResolutionMode(_) => {
            assert(key_variant("resolution_mode"@) == 40);
        },
        Setting::ResolutionWidthCustom(_) => {
            assert(key_variant("resolution_width.custom"@) == 41);
        },
        Setting::ResolutionHeightCustom(_) => {
            assert(key_variant("resolution_height.custom"@) == 42);
        },
        Setting::ResolutionDpiCustom(_) => {
            assert(key_variant("resolution_dpi.custom"@) == 43);
        },
    }
}

/// Two settings have the same wire key exactly when they are the same
/// variant: the payload never changes the key, and no two variants share
/// one, so no two kinds of setting collide on the wire.
pub proof fn lemma_key_identifies_variant(s1: Setting, s2: Setting)
    ensures
        (s1.key_spec() == s2.key_spec()) <==> (s1.variant_index() == s2.variant_index()),
{
    lemma_key_decodes(s1);
    lemma_key_decodes(s2);
}

/// Each `RendererMode` is written as its own name, and no two share a wire value.
pub proof fn lemma_renderer_mode_wire(a: RendererMode, b: RendererMode)
    ensures
        (a.wire() == b.wire()) <==> (a == b),
        RendererMode::Vulkan.wire() == "vk"@,
        RendererMode::DirectX.wire() == "dx"@,
{
    reveal_strlit("vk");
    reveal_strlit("dx");
    assert("vk"@.len() == 2);
    assert("dx"@.len() == 2);
    assert("vk"@[0] != "dx"@[0]);
    match a {
        RendererMode::Vulkan => {
            match b {
                RendererMode::Vulkan => {},
                RendererMode::DirectX => {},
            }
        },
        RendererMode::DirectX => {
            match b {
                RendererMode::Vulkan => {},
                RendererMode::DirectX => {},
            }
        },
    }
}

/// Each `RendererStrategy` is written as its own name, and no two share a wire value.
pub proof fn lemma_renderer_strategy_wire(a: RendererStrategy, b: RendererStrategy)
    ensures
        (a.wire() == b.wire()) <==> (a == b),
        RendererStrategy::Auto.wire() == "auto"@,
        RendererStrategy::Perf.wire() == "perf"@,
        RendererStrategy::Dis.wire() == "dis"@,
{
    reveal_strlit("auto");
    reveal_strlit("perf");
    reveal_strlit("dis");
    assert("auto"@.len() == 4);
    assert("perf"@.len() == 4);
    assert("dis"@.len() == 3);
    assert("auto"@[0] != "perf"@[0]);
    match a {
        RendererStrategy::Auto => {
            match b {
                RendererStrategy::Auto => {},
                RendererStrategy::Perf => {},
                RendererStrategy::Dis => {},
            }
        },
        RendererStrategy::Perf => {
            match b {
                RendererStrategy::Auto => {},
                RendererStrategy::Perf => {},
                RendererStrategy::Dis => {},
            }
        },
        RendererStrategy::Dis => {
            match b {
                RendererStrategy::Auto => {},
                RendererStrategy::Perf => {},
                RendererStrategy::Dis => {},
            }
        },
    }
}

/// Each `PerformanceMode` is written as its own name, and no two share a wire value.
pub proof fn lemma_performance_mode_wire(a: PerformanceMode, b: PerformanceMode)
    ensures
        (a.wire() == b.wire()) <==> (a == b),
        PerformanceMode::Low.wire() == "low"@,
        PerformanceMode::Middle.wire() == "middle"@,
        PerformanceMode::High.wire() == "high"@,
        PerformanceMode::Custom.wire() == "custom"@,
{
    reveal_strlit("low");
    reveal_strlit("middle");
    reveal_strlit("high");
    reveal_strlit("custom");
    assert("low"@.len() == 3);
    assert("middle"@.len() == 6);
    assert("high"@.len() == 4);
    assert("custom"@.len() == 6);
    assert("middle"@[0] != "custom"@[0]);
    match a {
        PerformanceMode::Low => {
            match b {
                PerformanceMode::Low => {},
                PerformanceMode::Middle => {},
                PerformanceMode::High => {},
                PerformanceMode::Custom => {},
            }
        },
        PerformanceMode::Middle => {
            match b {
                PerformanceMode::Low => {},
                PerformanceMode::Middle => {},
                PerformanceMode::High => {},
                PerformanceMode::Custom => {},
            }
        },
        PerformanceMode::High => {
            match b {
                PerformanceMode::Low => {},
                PerformanceMode::Middle => {},
                PerformanceMode::High => {},
                PerformanceMode::Custom => {},
            }
        },
        PerformanceMode::Custom => {
            match b {
                PerformanceMode::Low => {},
                PerformanceMode::Middle => {},
                PerformanceMode::High => {},
                PerformanceMode::Custom => {},
            }
        },
    }
}

/// Each `GpuMode` is written as its own name, and no two share a wire value.
pub proof fn lemma_gpu_mode_wire(a: GpuMode, b: GpuMode)
    ensures
        (a.wire() == b.wire()) <==> (a == b),
        GpuMode::Low.wire() == "low"@,
        GpuMode::Middle.wire() == "middle"@,
        GpuMode::High.wire() == "high"@,
        GpuMode::Custom.wire() == "custom"@,
{
    reveal_strlit("low");
    reveal_strlit("middle");
    reveal_strlit("high");
    reveal_strlit("custom");
    assert("low"@.len() == 3);
    assert("middle"@.len() == 6);
    assert("high"@.len() == 4);
    assert("custom"@.len() == 6);
    assert("middle"@[0] != "custom"@[0]);
    match a {
        GpuMode::Low => {
            match b {
                GpuMode::Low => {},
                GpuMode::Middle => {},
                GpuMode::High => {},
                GpuMode::Custom => {},
            }
        },
        GpuMode::Middle => {
            match b {
                GpuMode::Low => {},
                GpuMode::Middle => {},
                GpuMode::High => {},
                GpuMode::Custom => {},
            }
        },
        GpuMode::High => {
            match b {
                GpuMode::Low => {},
                GpuMode::Middle => {},
                GpuMode::High => {},
                GpuMode::Custom => {},
            }
        },
        GpuMode::Custom => {
            match b {
                GpuMode::Low => {},
                GpuMode::Middle => {},
                GpuMode::High => {},
                GpuMode::Custom => {},
            }
        },
    }
}

/// Each `ResolutionMode` is written as its own name, and no two share a wire value.
pub proof fn lemma_resolution_mode_wire(a: ResolutionMode, b: ResolutionMode)
    ensures
        (a.wire() == b.wire()) <==> (a == b),
        ResolutionMode::Tablet.wire() == "tablet"@,
        ResolutionMode::Phone.wire() == "phone"@,
        ResolutionMode::Widescreen.wire() == "widescreen"@,
        ResolutionMode::Custom.wire() == "custom"@,
{
    reveal_strlit("tablet");
    reveal_strlit("phone");
    reveal_strlit("widescreen");
    reveal_strlit("custom");
    assert("tablet"@.len() == 6);
    assert("phone"@.len() == 5);
    assert("widescreen"@.len() == 10);
    assert("custom"@.len() == 6);
    assert("tablet"@[0] != "custom"@[0]);
    match a {
        ResolutionMode::Tablet => {
            match b {
                ResolutionMode::Tablet => {},
                ResolutionMode::Phone => {},
                ResolutionMode::Widescreen => {},
                ResolutionMode::Custom => {},
            }
        },
        ResolutionMode::Phone => {
            match b {
                ResolutionMode::Tablet => {},
                ResolutionMode::Phone => {},
                ResolutionMode::Widescreen => {},
                ResolutionMode::Custom => {},
            }
        },
        ResolutionMode::Widescreen => {
            match b {
                ResolutionMode::Tablet => {},
                ResolutionMode::Phone => {},
                ResolutionMode::Widescreen => {},
                ResolutionMode::Custom => {},
            }
        },
        ResolutionMode::Custom => {
            match b {
                ResolutionMode::Tablet => {},
                ResolutionMode::Phone => {},
                ResolutionMode::Widescreen => {},
                ResolutionMode::Custom => {},
            }
        },
    }
}

/// Each `NetBridgeIpMode` is written as its own name, and no two share a wire value.
pub proof fn lemma_net_bridge_ip_mode_wire(a: NetBridgeIpMode, b: NetBridgeIpMode)
    ensures
        (a.wire() == b.wire()) <==> (a == b),
        NetBridgeIpMode::Dhcp.wire() == "dhcp"@,
        NetBridgeIpMode::Static.wire() == "static"@,
{
    reveal_strlit("dhcp");
    reveal_strlit("static");
    assert("dhcp"@.len() == 4);
    assert("static"@.len() == 6);
    match a {
        NetBridgeIpMode::Dhcp => {
            match b {
                NetBridgeIpMode::Dhcp => {},
                NetBridgeIpMode::Static => {},
            }
        },
        NetBridgeIpMode::Static => {
            match b {
                NetBridgeIpMode::Dhcp => {},
                NetBridgeIpMode::Static => {},
            }
        },
    }
}

/// A flag setting is written `true` exactly when the flag is set and `false`
/// exactly when it is clear.
pub proof fn lemma_flag_values(b: bool)
    ensures
        (Setting::ForceDiscreteGraphics(b).value_spec() == "true"@) == b,
        (Setting::ForceDiscreteGraphics(b).value_spec() == "false"@) == !b,
        (Setting::DynamicAdjustFrameRate(b).value_spec() == "true"@) == b,
        (Setting::DynamicAdjustFrameRate(b).value_spec() == "false"@) == !b,
        (Setting::ShowFrameRate(b).value_spec() == "true"@) == b,
        (Setting::ShowFrameRate(b).value_spec() == "false"@) == !b,
        (Setting::VerticalSync(b).value_spec() == "true"@) == b,
        (Setting::VerticalSync(b).value_spec() == "false"@) == !b,
        (Setting::WindowAutoRotate(b).value_spec() == "true"@) == b,
        (Setting::WindowAutoRotate(b).value_spec() == "false"@) == !b,
        (Setting::WindowSaveRect(b).value_spec() == "true"@) == b,
        (Setting::WindowSaveRect(b).value_spec() == "false"@) == !b,
        (Setting::WindowSizeFixed(b).value_spec() == "true"@) == b,
        (Setting::WindowSizeFixed(b).value_spec() == "false"@) == !b,
        (Setting::SystemDiskReadonly(b).value_spec() == "true"@) == b,
        (Setting::SystemDiskReadonly(b).value_spec() == "false"@) == !b,
        (Setting::SystemVolumeClose(b).value_spec() == "true"@) == b,
        (Setting::SystemVolumeClose(b).value_spec() == "false"@) == !b,
        (Setting::AppKeptlive(b).value_spec() == "true"@) == b,
        (Setting::AppKeptlive(b).value_spec() == "false"@) == !b,
        (Setting::RootPermission(b).value_spec() == "true"@) == b,
        (Setting::RootPermission(b).value_spec() == "false"@) == !b,
        (Setting::MiniDisk(b).value_spec() == "true"@) == b,
        (Setting::MiniDisk(b).value_spec() == "false"@) == !b,
        (Setting::MouseStyle(b).value_spec() == "true"@) == b,
        (Setting::MouseStyle(b).value_spec() == "false"@) == !b,
        (Setting::JoystickAutoConnect(b).value_spec() == "true"@) == b,
        (Setting::JoystickAutoConnect(b).value_spec() == "false"@) == !b,
        (Setting::ApkAssociation(b).value_spec() == "true"@) == b,
        (Setting::ApkAssociation(b).value_spec() == "false"@) == !b,
        (Setting::QuitConfirm(b).value_spec() == "true"@) == b,
        (Setting::QuitConfirm(b).value_spec() == "false"@) == !b,
        (Setting::NetBridgeOpen(b).value_spec() == "true"@) == b,
        (Setting::NetBridgeOpen(b).value_spec() == "false"@) == !b,
{
    reveal_strlit("true");
    reveal_strlit("false");
    assert("true"@.len() == 4);
    assert("false"@.len() == 5);
}

/// A numeric setting is written in decimal: the value parses back to the
/// number.
pub proof fn lemma_number_values(n: u32, m: u8)
    ensures
        parse_u32_spec(Setting::ScreenBrightness(m).value_spec()) == Some(m as u32),
        parse_u32_spec(Setting::MaxFrameRate(n).value_spec()) == Some(n),
        parse_u32_spec(Setting::DynamicLowFrameRateLimit(n).value_spec()) == Some(n),
        parse_u32_spec(Setting::PerformanceCpuCustom(n).value_spec()) == Some(n),
{
    crate::text::lemma_parse_decimal_roundtrip(n);
    crate::text::lemma_parse_decimal_roundtrip(m as u32);
}

/// A text setting is written as the text itself.
pub proof fn lemma_text_values(s: String)
    ensures
        Setting::PlayerName(s).value_spec() == s@,
        Setting::PhoneBrand(s).value_spec() == s@,
        Setting::PhoneModel(s).value_spec() == s@,
        Setting::PhoneMiit(s).value_spec() == s@,
        Setting::PhoneImei(s).value_spec() == s@,
        Setting::PhoneNumber(s).value_spec() == s@,
        Setting::NetBridgeIpAddr(s).value_spec() == s@,
        Setting::NetBridgeGateway(s).value_spec() == s@,
        Setting::NetBridgeSubnetMask(s).value_spec() == s@,
        Setting::NetBridgeDns1(s).value_spec() == s@,
        Setting::NetBridgeDns2(s).value_spec() == s@,
        Setting::NetBridgeCard(s).value_spec() == s@,
        Setting::GpuModelCustom(s).value_spec() == s@,
{
}

/// A mode setting is written as the mode's own wire value.
pub proof fn lemma_mode_values(gpu_mode: GpuMode, net_bridge_ip_mode: NetBridgeIpMode, performance_mode: PerformanceMode, renderer_mode: RendererMode, renderer_strategy: RendererStrategy, resolution_mode: ResolutionMode)
    ensures
        Setting::RendererMode(renderer_mode).value_spec() == renderer_mode.wire(),
        Setting::RendererStrategy(renderer_strategy).value_spec() == renderer_strategy.wire(),
        Setting::NetBridgeIpMode(net_bridge_ip_mode).value_spec() == net_bridge_ip_mode.wire(),
        Setting::PerformanceMode(performance_mode).value_spec() == performance_mode.wire(),
        Setting::GpuMode(gpu_mode).value_spec() == gpu_mode.wire(),
        Setting::ResolutionMode(resolution_mode).value_spec() == resolution_mode.wire(),
{
}

/// Six digits that read back as the number they were written from.
proof fn lemma_six_digits(f: int)
    requires
        0 <= f < 1000000,
    ensures
        six_digits(f).len() == 6,
        crate::text::all_digits(six_digits(f)),
        crate::text::digits_value(six_digits(f)) == f,
{
    let d = six_digits(f);
    let t5 = f / 100000;
    let t4 = f / 10000;
    let t3 = f / 1000;
    let t2 = f / 100;
    let t1 = f / 10;
    lemma_div_denominator(f, 10000, 10);
    lemma_div_denominator(f, 1000, 10);
    lemma_div_denominator(f, 100, 10);
    lemma_div_denominator(f, 10, 10);
    lemma_fundamental_div_mod(t4, 10);
    lemma_fundamental_div_mod(t3, 10);
    lemma_fundamental_div_mod(t2, 10);
    lemma_fundamental_div_mod(t1, 10);
    lemma_fundamental_div_mod(f, 10);
    assert(t5 < 10);
    assert(t5 % 10 == t5);
    assert forall|i: int| 0 <= i < 6 implies crate::text::is_digit(#[trigger] d[i]) by {
        crate::text::lemma_digit_char((f / 100000) % 10);
        crate::text::lemma_digit_char((f / 10000) % 10);
        crate::text::lemma_digit_char((f / 1000) % 10);
        crate::text::lemma_digit_char((f / 100) % 10);
        crate::text::lemma_digit_char((f / 10) % 10);
        crate::text::lemma_digit_char(f % 10);
    }
    crate::text::lemma_digit_char((f / 100000) % 10);
    crate::text::lemma_digit_char((f / 10000) % 10);
    crate::text::lemma_digit_char((f / 1000) % 10);
    crate::text::lemma_digit_char((f / 100) % 10);
    crate::text::lemma_digit_char((f / 10) % 10);
    crate::text::lemma_digit_char(f % 10);
    let e = Seq::<char>::empty();
    assert(d.take(0) =~= e);
    assert(d.take(1).drop_last() =~= d.take(0));
    assert(d.take(2).drop_last() =~= d.take(1));
    assert(d.take(3).drop_last() =~= d.take(2));
    assert(d.take(4).drop_last() =~= d.take(3));
    assert(d.take(5).drop_last() =~= d.take(4));
    assert(d.drop_last() =~= d.take(5));
    assert(crate::text::digits_value(e) == 0);
    assert(d.take(1).last() == d[0]);
    assert(crate::text::digits_value(d.take(1)) == t5);
    assert(crate::text::digits_value(d.take(2)) == t4);
    assert(crate::text::digits_value(d.take(3)) == t3);
    assert(crate::text::digits_value(d.take(4)) == t2);
    assert(crate::text::digits_value(d.take(5)) == t1);
}

/// A quantity in millionths is written with a leading `-` exactly when it is
/// negative, then a run of digits, a `.` and exactly six digits; read without
/// the point, the digits give the magnitude of the quantity in millionths,
/// and the whole part has no leading zero.
pub proof fn lemma_fixed6(x: int)
    ensures
        ({
            let s = fixed6(x);
            let body = if x < 0 {
                s.drop_first()
            } else {
                s
            };
            let whole = body.take(body.len() - 7);
            let frac = body.skip(body.len() - 6);
            let mag = if x < 0 {
                -x
            } else {
                x
            };
            &&& s.len() >= 8
            &&& (s[0] == '-') <==> x < 0
            &&& body[body.len() - 7] == '.'
            &&& crate::text::all_digits(whole)
            &&& crate::text::all_digits(frac)
            &&& crate::text::digits_value(whole) * 1000000 + crate::text::digits_value(frac) == mag
            &&& (whole.len() > 1 ==> whole[0] != '0')
        }),
{
    let s = fixed6(x);
    let mag = if x < 0 {
        -x
    } else {
        x
    };
    let w = decimal((mag / 1000000) as nat);
    let f = six_digits(mag % 1000000);
    crate::text::lemma_decimal_digits((mag / 1000000) as nat);
    crate::text::lemma_decimal_leading((mag / 1000000) as nat);
    lemma_six_digits(mag % 1000000);
    reveal_strlit("-");
    reveal_strlit(".");
    let body = w + "."@ + f;
    assert(body.take(body.len() - 7) =~= w);
    assert(body.skip(body.len() - 6) =~= f);
    if x < 0 {
        assert(s =~= "-"@ + body);
        assert(s.drop_first() =~= body);
        assert(s[0] == '-');
    } else {
        assert(s =~= body);
        assert(crate::text::is_digit(w[0]));
        assert(s[0] == w[0]);
    }
}

/// A fractional setting is written as its quantity in millionths with six
/// decimals: `-` exactly when negative, and digits that read back, without
/// the point, as the magnitude in millionths.
pub proof fn lemma_fraction_values(x: i64)
    ensures
        Setting::PerformanceMemCustom(x).value_spec() == fixed6(x as int),
        Setting::ResolutionWidthCustom(x).value_spec() == fixed6(x as int),
        Setting::ResolutionHeightCustom(x).value_spec() == fixed6(x as int),
        Setting::ResolutionDpiCustom(x).value_spec() == fixed6(x as int),
        ({
            let s = fixed6(x as int);
            let body = if x < 0 {
                s.drop_first()
            } else {
                s
            };
            let mag = if x < 0 {
                -(x as int)
            } else {
                x as int
            };
            &&& (s[0] == '-') <==> x < 0
            &&& body[body.len() - 7] == '.'
            &&& crate::text::digits_value(body.take(body.len() - 7)) * 1000000
                + crate::text::digits_value(body.skip(body.len() - 6)) == mag
        }),
{
    lemma_fixed6(x as int);
}

/// Each setting is sent under its documented wire key, whatever its payload.
pub proof fn lemma_key_table(
    gpu: GpuMode,
    bridge: NetBridgeIpMode,
    perf: PerformanceMode,
    renderer: RendererMode,
    strategy: RendererStrategy,
    resolution: ResolutionMode,
    s: String,
    b: bool,
    x: i64,
    n: u32,
    m8: u8,
)
    ensures
        Setting::PlayerName(s).key_spec() == "player_name"@,
        Setting::RendererMode(renderer).key_spec() == "renderer_mode"@,
        Setting::RendererStrategy(strategy).key_spec() == "renderer_strategy"@,
        Setting::ForceDiscreteGraphics(b).key_spec() == "force_discrete_graphics"@,
        Setting::ScreenBrightness(m8).key_spec() == "screen_brightness"@,
        Setting::MaxFrameRate(n).key_spec() == "max_frame_rate"@,
        Setting::DynamicAdjustFrameRate(b).key_spec() == "dynamic_adjust_frame_rate"@,
        Setting::DynamicLowFrameRateLimit(n).key_spec() == "dynamic_low_frame_rate_limit"@,
        Setting::ShowFrameRate(b).key_spec() == "show_frame_rate"@,
        Setting::VerticalSync(b).key_spec() == "vertical_sync"@,
        Setting::WindowAutoRotate(b).key_spec() == "window_auto_rotate"@,
        Setting::WindowSaveRect(b).key_spec() == "window_save_rect"@,
        Setting::WindowSizeFixed(b).key_spec() == "window_size_fixed"@,
        Setting::SystemDiskReadonly(b).key_spec() == "system_disk_readonly"@,
        Setting::SystemVolumeClose(b).key_spec() == "system_volume_close"@,
        Setting::AppKeptlive(b).key_spec() == "app_keptlive"@,
        Setting::RootPermission(b).key_spec() == "root_permission"@,
        Setting::MiniDisk(b).key_spec() == "mini_disk"@,
        Setting::MouseStyle(b).key_spec() == "mouse_style"@,
        Setting::JoystickAutoConnect(b).key_spec() == "joystick_auto_connect"@,
        Setting::ApkAssociation(b).key_spec() == "apk_asscciation"@,
        Setting::QuitConfirm(b).key_spec() == "quit_confirm"@,
        Setting::PhoneBrand(s).key_spec() == "phone_brand"@,
        Setting::PhoneModel(s).key_spec() == "phone_model"@,
        Setting::PhoneMiit(s).key_spec() == "phone_miit"@,
        Setting::PhoneImei(s).key_spec() == "phone_imei"@,
        Setting::PhoneNumber(s).key_spec() == "phone_number"@,
        Setting::NetBridgeOpen(b).key_spec() == "net_bridge_open"@,
        Setting::NetBridgeIpMode(bridge).key_spec() == "net_bridge_ip_mode"@,
        Setting::NetBridgeIpAddr(s).key_spec() == "net_bridge_ip_addr"@,
        Setting::NetBridgeGateway(s).key_spec() == "net_bridge_gateway"@,
        Setting::NetBridgeSubnetMask(s).key_spec() == "net_bridge_subnet_mask"@,
        Setting::NetBridgeDns1(s).key_spec() == "net_bridge_dns1"@,
        Setting::NetBridgeDns2(s).key_spec() == "net_bridge_dns2"@,
        Setting::NetBridgeCard(s).key_spec() == "net_bridge_card"@,
        Setting::PerformanceMode(perf).key_spec() == "performance_mode"@,
        Setting::PerformanceCpuCustom(n).key_spec() == "performance_cpu.custom"@,
        Setting::PerformanceMemCustom(x).key_spec() == "performance_mem.custom"@,
        Setting::GpuMode(gpu).key_spec() == "gpu_mode"@,
        Setting::GpuModelCustom(s).key_spec() == "gpu_model.custom"@,
        Setting::ResolutionMode(resolution).key_spec() == "resolution_mode"@,
        Setting::ResolutionWidthCustom(x).key_spec() == "resolution_width.custom"@,
        Setting::ResolutionHeightCustom(x).key_spec() == "resolution_height.custom"@,
        Setting::ResolutionDpiCustom(x).key_spec() == "resolution_dpi.custom"@,
{
}


} // verus!
