//! The menu-bar application's logic: the device snapshot that the poller publishes,
//! the texts and check marks of the menu, the commands behind menu items, the
//! lighting submenu, and the poller's decisions.
use crate::config::{
    default_led_spec, default_led_view, Action, Config, DesiredMode, LedSpec, LedSpecView,
    MacroBinding, Profile,
};
use crate::features::led::{spec_zone_from_key, spec_zone_key, spec_zone_label, zone_from_key, zone_key, zone_label};
use crate::macro_keys::{lemma_split_nonempty, spec_split, split_char};
use crate::macro_engine::{RecordingOutcome, RecordingResult};
use crate::features::battery::BatteryInfo;
use crate::features::onboard::OnboardMode;
use crate::macro_engine::{RecordingKind, RecordingPhase};
use crate::named_map::NamedMap;
use crate::text::{dec_digits, decimal, parse_u16, parse_u8, spec_parse_u16, spec_parse_u8, str_is};
use vstd::prelude::*;
use vstd::string::StringSliceAdditionalSpecFns;

verus! {

/// What the menu shows of the device.
#[derive(Debug, Clone)]
pub struct Snapshot {
    pub device_desc: Option<String>,
    pub battery: Option<BatteryInfo>,
    pub dpi: Option<u16>,
    pub mode: Option<OnboardMode>,
    pub error: Option<String>,
}

impl Default for Snapshot {
    fn default() -> (r: Self)
        ensures
            r.device_desc is None,
            r.battery is None,
            r.dpi is None,
            r.mode is None,
            r.error is None,
    {
        Snapshot { device_desc: None, battery: None, dpi: None, mode: None, error: None }
    }
}

/// The snapshot shared with the menu, and whether the menu must be redrawn.
#[derive(Debug)]
pub struct MenuState {
    pub snap: Snapshot,
    pub dirty: bool,
}

/// A device that answered with its description and battery.
pub fn publish_connected(
    st: &mut MenuState,
    desc: String,
    battery: BatteryInfo,
    dpi: Option<u16>,
    mode: OnboardMode,
)
    ensures
        final(st).snap == (Snapshot {
            device_desc: Some(desc),
            battery: Some(battery),
            dpi,
            mode: Some(mode),
            error: None,
        }),
        final(st).dirty,
{
    st.snap.device_desc = Some(desc);
    st.snap.battery = Some(battery);
    st.snap.dpi = dpi;
    st.snap.mode = Some(mode);
    st.snap.error = None;
    st.dirty = true;
}

/// A fresh battery reading of a known device; DPI and mode are kept.
pub fn publish_battery(st: &mut MenuState, desc: String, battery: BatteryInfo)
    ensures
        final(st).snap == (Snapshot {
            device_desc: Some(desc),
            battery: Some(battery),
            error: None,
            ..old(st).snap
        }),
        final(st).dirty,
{
    st.snap.device_desc = Some(desc);
    st.snap.battery = Some(battery);
    st.snap.error = None;
    st.dirty = true;
}

/// A device that answered but whose mode and DPI are not known yet.
pub fn publish_partial(st: &mut MenuState, desc: String, battery: BatteryInfo)
    ensures
        final(st).snap == (Snapshot {
            device_desc: Some(desc),
            battery: Some(battery),
            dpi: None,
            mode: None,
            error: None,
        }),
        final(st).dirty,
{
    st.snap.device_desc = Some(desc);
    st.snap.battery = Some(battery);
    st.snap.dpi = None;
    st.snap.mode = None;
    st.snap.error = None;
    st.dirty = true;
}

/// No device: everything is forgotten but the error.
pub fn publish_offline(st: &mut MenuState, error: String)
    ensures
        final(st).snap == (Snapshot {
            device_desc: None,
            battery: None,
            dpi: None,
            mode: None,
            error: Some(error),
        }),
        final(st).dirty,
{
    st.snap.device_desc = None;
    st.snap.battery = None;
    st.snap.dpi = None;
    st.snap.mode = None;
    st.snap.error = Some(error);
    st.dirty = true;
}

/// A device counts as connected once it has answered with a description and a
/// battery reading.
pub fn is_device_connected(snap: &Snapshot) -> (r: bool)
    ensures
        r == (snap.device_desc is Some && snap.battery is Some),
{
    snap.device_desc.is_some() && snap.battery.is_some()
}

/// One failed battery read is tolerated while the device's interface is still
/// present; the second in a row, or a vanished interface, drops the device.
pub fn keep_online_after_battery_failure(failures: u8, interface_present: bool) -> (r: bool)
    ensures
        r == (failures < 2 && interface_present),
{
    failures < 2 && interface_present
}

/// The value of an ASCII hexadecimal digit byte.
pub open spec fn hex_val(b: u8) -> Option<u8> {
    if 48 <= b <= 57 {
        Some((b - 48) as u8)
    } else if 97 <= b <= 102 {
        Some((b - 87) as u8)
    } else if 65 <= b <= 70 {
        Some((b - 55) as u8)
    } else {
        None
    }
}

/// A two-byte hexadecimal number as `u8::from_str_radix(_, 16)` reads it (an
/// optional `+`, then digits), 255 when it does not read.
pub open spec fn spec_hex_pair(a: u8, b: u8) -> u8 {
    if a == 43 {
        match hex_val(b) {
            Some(v) => v,
            None => 255,
        }
    } else {
        match (hex_val(a), hex_val(b)) {
            (Some(x), Some(y)) => (x * 16 + y) as u8,
            _ => 255,
        }
    }
}

/// The colour of an `RRGGBB` text; white unless the text has six bytes.
pub open spec fn spec_hex_rgb(bytes: Seq<u8>) -> Seq<u8> {
    if bytes.len() != 6 {
        seq![255u8, 255u8, 255u8]
    } else {
        seq![
            spec_hex_pair(bytes[0], bytes[1]),
            spec_hex_pair(bytes[2], bytes[3]),
            spec_hex_pair(bytes[4], bytes[5]),
        ]
    }
}

fn hex_val_exec(b: u8) -> (r: Option<u8>)
    ensures
        r == hex_val(b),
{
    if 48 <= b && b <= 57 {
        Some(b - 48)
    } else if 97 <= b && b <= 102 {
        Some(b - 87)
    } else if 65 <= b && b <= 70 {
        Some(b - 55)
    } else {
        None
    }
}

fn hex_pair(a: u8, b: u8) -> (r: u8)
    ensures
        r == spec_hex_pair(a, b),
{
    if a == 43 {
        match hex_val_exec(b) {
            Some(v) => v,
            None => 255,
        }
    } else {
        match (hex_val_exec(a), hex_val_exec(b)) {
            (Some(x), Some(y)) => x * 16 + y,
            _ => 255,
        }
    }
}

/// Reads an `RRGGBB` colour; a text of another byte length is white, and a pair
/// that is not hexadecimal is 255.
pub fn hex_rgb(s: &str) -> (r: [u8; 3])
    requires
        s.spec_bytes().len() == 6 ==> vstd::utf8::is_char_boundary(s.spec_bytes(), 2)
            && vstd::utf8::is_char_boundary(s.spec_bytes(), 4),
    ensures
        r@ == spec_hex_rgb(s.spec_bytes()),
{
    let b = s.as_bytes();
    if b.len() != 6 {
        let r = [255u8, 255u8, 255u8];
        assert(r@ =~= spec_hex_rgb(s.spec_bytes()));
        return r;
    }
    let r = [hex_pair(b[0], b[1]), hex_pair(b[2], b[3]), hex_pair(b[4], b[5])];
    assert(r@ =~= spec_hex_rgb(s.spec_bytes()));
    r
}

/// The preset colours of the lighting menu: name and `RRGGBB`.
pub open spec fn spec_led_colors() -> Seq<(Seq<char>, Seq<char>)> {
    seq![
        ("白"@, "ffffff"@),
        ("红"@, "ff0000"@),
        ("橙"@, "ff6600"@),
        ("黄"@, "ffcc00"@),
        ("绿"@, "00dd00"@),
        ("青"@, "00c8ff"@),
        ("蓝"@, "2244ff"@),
        ("紫"@, "aa00ff"@),
        ("品红"@, "ff0082"@),
        ("粉"@, "ff69b4"@),
    ]
}

/// The RGB values of the preset colours, in order.
pub open spec fn spec_led_color_rgbs() -> Seq<Seq<u8>> {
    seq![
        seq![0xffu8, 0xffu8, 0xffu8],
        seq![0xffu8, 0x00u8, 0x00u8],
        seq![0xffu8, 0x66u8, 0x00u8],
        seq![0xffu8, 0xccu8, 0x00u8],
        seq![0x00u8, 0xddu8, 0x00u8],
        seq![0x00u8, 0xc8u8, 0xffu8],
        seq![0x22u8, 0x44u8, 0xffu8],
        seq![0xaau8, 0x00u8, 0xffu8],
        seq![0xffu8, 0x00u8, 0x82u8],
        seq![0xffu8, 0x69u8, 0xb4u8],
    ]
}

/// The preset colours of the lighting menu: name and `RRGGBB`.
pub fn led_colors() -> (r: Vec<(&'static str, &'static str)>)
    ensures
        r@.len() == spec_led_colors().len(),
        forall|i: int|
            0 <= i < r@.len() ==> (#[trigger] r@[i]).0@ == spec_led_colors()[i].0 && r@[i].1@
                == spec_led_colors()[i].1,
{
    let mut r: Vec<(&'static str, &'static str)> = Vec::new();
    r.push(("白", "ffffff"));
    r.push(("红", "ff0000"));
    r.push(("橙", "ff6600"));
    r.push(("黄", "ffcc00"));
    r.push(("绿", "00dd00"));
    r.push(("青", "00c8ff"));
    r.push(("蓝", "2244ff"));
    r.push(("紫", "aa00ff"));
    r.push(("品红", "ff0082"));
    r.push(("粉", "ff69b4"));
    r
}

/// The RGB values of the preset colours, in order.
pub fn led_color_rgbs() -> (r: Vec<[u8; 3]>)
    ensures
        r@.len() == spec_led_color_rgbs().len(),
        forall|i: int| 0 <= i < r@.len() ==> (#[trigger] r@[i])@ == spec_led_color_rgbs()[i],
{
    let mut r: Vec<[u8; 3]> = Vec::new();
    r.push([0xff, 0xff, 0xff]);
    r.push([0xff, 0x00, 0x00]);
    r.push([0xff, 0x66, 0x00]);
    r.push([0xff, 0xcc, 0x00]);
    r.push([0x00, 0xdd, 0x00]);
    r.push([0x00, 0xc8, 0xff]);
    r.push([0x22, 0x44, 0xff]);
    r.push([0xaa, 0x00, 0xff]);
    r.push([0xff, 0x00, 0x82]);
    r.push([0xff, 0x69, 0xb4]);
    proof {
        assert forall|i: int| 0 <= i < r@.len() implies (#[trigger] r@[i])@ == spec_led_color_rgbs()[i] by {
            assert(r@[i]@ =~= spec_led_color_rgbs()[i]);
        }
    }
    r
}

/// Finds the preset colour with this RGB value, if any: the first one.
pub fn find_matching_color_idx(rgb: [u8; 3]) -> (r: Option<usize>)
    ensures
        match r {
            Some(i) => i < spec_led_color_rgbs().len() && spec_led_color_rgbs()[i as int] == rgb@
                && forall|j: int| 0 <= j < i ==> spec_led_color_rgbs()[j] != rgb@,
            None => forall|j: int|
                0 <= j < spec_led_color_rgbs().len() ==> spec_led_color_rgbs()[j] != rgb@,
        },
{
    let colors = led_color_rgbs();
    let mut i: usize = 0;
    while i < colors.len()
        invariant
            i <= colors@.len(),
            colors@.len() == spec_led_color_rgbs().len(),
            forall|k: int| 0 <= k < colors@.len() ==> (#[trigger] colors@[k])@ == spec_led_color_rgbs()[k],
            forall|j: int| 0 <= j < i ==> spec_led_color_rgbs()[j] != rgb@,
        decreases colors@.len() - i,
    {
        let c = colors[i];
        if c[0] == rgb[0] && c[1] == rgb[1] && c[2] == rgb[2] {
            assert(c@ =~= rgb@);
            return Some(i);
        }
        assert(c@ != rgb@) by {
            if c@ == rgb@ {
                assert(c@[0] == rgb@[0] && c@[1] == rgb@[1] && c@[2] == rgb@[2]);
            }
        }
        i += 1;
    }
    None
}

/// The first menu line: the device description, or that no G502 is connected.
pub open spec fn spec_header_text(snap: Snapshot) -> Seq<char> {
    match snap.device_desc {
        Some(d) => d@,
        None => "G502 未连接"@,
    }
}

pub fn header_text(snap: &Snapshot) -> (r: String)
    ensures
        r@ == spec_header_text(*snap),
{
    match &snap.device_desc {
        Some(d) => d.clone(),
        None => String::from_str("G502 未连接"),
    }
}

/// The battery icon: a bolt while charging.
pub open spec fn spec_battery_icon(charging: bool) -> Seq<char> {
    if charging {
        "⚡️"@
    } else {
        "🔋"@
    }
}

/// The battery line of the menu: icon, percentage, state and voltage, when the
/// device has answered with both its description and its battery.
pub open spec fn spec_battery_line(snap: Snapshot) -> Seq<char> {
    match (snap.device_desc, snap.battery) {
        (Some(_), Some(b)) => {
            let volt = match b.voltage_mv {
                Some(v) => " · "@ + dec_digits(v as nat) + "mV"@,
                None => ""@,
            };
            spec_battery_icon(b.charging) + " "@ + dec_digits(b.percent as nat) + "% "@
                + b.state_text@ + volt
        },
        _ => ""@,
    }
}

pub fn battery_line(snap: &Snapshot) -> (r: String)
    ensures
        r@ == spec_battery_line(*snap),
{
    proof {
        reveal_strlit("");
    }
    match (&snap.device_desc, &snap.battery) {
        (Some(_), Some(b)) => {
            let mut s = String::from_str(if b.charging {
                "⚡️"
            } else {
                "🔋"
            });
            s.append(" ");
            let p = decimal(b.percent as u64);
            s.append(p.as_str());
            s.append("% ");
            s.append(b.state_text.as_str());
            match b.voltage_mv {
                Some(v) => {
                    s.append(" · ");
                    let d = decimal(v as u64);
                    s.append(d.as_str());
                    s.append("mV");
                },
                None => {},
            }
            s
        },
        _ => String::new(),
    }
}

/// The mode line, the text of the mode switch item, and whether it can be used:
/// the switch offers the other mode once the mode is known.
pub open spec fn spec_mode_texts(mode: Option<OnboardMode>) -> (Seq<char>, Option<Seq<char>>, bool) {
    match mode {
        Some(OnboardMode::Onboard) => (
            "模式: 板载控制 · 固件配置接管"@,
            Some("切换到主机控制模式"@),
            true,
        ),
        Some(OnboardMode::Host) => ("模式: 主机控制 · 自动恢复 DPI"@, Some("切换到板载模式"@), true),
        None => (""@, None, false),
    }
}

pub fn mode_texts(mode: Option<OnboardMode>) -> (r: (&'static str, Option<&'static str>, bool))
    ensures
        r.0@ == spec_mode_texts(mode).0,
        match r.1 {
            Some(t) => spec_mode_texts(mode).1 == Some(t@),
            None => spec_mode_texts(mode).1 is None,
        },
        r.2 == spec_mode_texts(mode).2,
{
    match mode {
        Some(OnboardMode::Onboard) => ("模式: 板载控制 · 固件配置接管", Some("切换到主机控制模式"), true),
        Some(OnboardMode::Host) => ("模式: 主机控制 · 自动恢复 DPI", Some("切换到板载模式"), true),
        None => ("", None, false),
    }
}

/// The battery and mode texts of the control panel's header.
pub open spec fn spec_panel_status(snap: Snapshot) -> (Seq<char>, Seq<char>) {
    (
        match snap.battery {
            Some(b) => spec_battery_icon(b.charging) + " "@ + dec_digits(b.percent as nat) + "%"@,
            None => "🔋 未连接"@,
        },
        match snap.mode {
            Some(OnboardMode::Onboard) => "板载控制"@,
            Some(OnboardMode::Host) => "主机控制"@,
            None => "未知"@,
        },
    )
}

pub fn panel_status(snap: &Snapshot) -> (r: (String, &'static str))
    ensures
        r.0@ == spec_panel_status(*snap).0,
        r.1@ == spec_panel_status(*snap).1,
{
    let battery = match &snap.battery {
        Some(b) => {
            let mut s = String::from_str(if b.charging {
                "⚡️"
            } else {
                "🔋"
            });
            s.append(" ");
            let p = decimal(b.percent as u64);
            s.append(p.as_str());
            s.append("%");
            s
        },
        None => String::from_str("🔋 未连接"),
    };
    let mode = match snap.mode {
        Some(OnboardMode::Onboard) => "板载控制",
        Some(OnboardMode::Host) => "主机控制",
        None => "未知",
    };
    (battery, mode)
}

/// How the menu names the macro bound to a button: its name (or 未命名) and
/// whether it is enabled; 未绑定 without one.
pub open spec fn spec_binding_text(macros: Map<Seq<char>, MacroBinding>, key: Seq<char>) -> Seq<char> {
    if macros.contains_key(key) {
        let m = macros[key];
        let name = match m.name {
            Some(n) => n@,
            None => "未命名"@,
        };
        let state = if m.enabled {
            "启用"@
        } else {
            "停用"@
        };
        name + " ["@ + state + "]"@
    } else {
        "未绑定"@
    }
}

pub fn binding_text(macros: &NamedMap<MacroBinding>, key: &str) -> (r: String)
    ensures
        r@ == spec_binding_text(macros.view(), key@),
{
    match macros.get(key) {
        Some(m) => {
            let mut s = match &m.name {
                Some(n) => n.clone(),
                None => String::from_str("未命名"),
            };
            s.append(" [");
            s.append(if m.enabled {
                "启用"
            } else {
                "停用"
            });
            s.append("]");
            s
        },
        None => String::from_str("未绑定"),
    }
}

/// Which recording items of the menu can be used: the two "record" items, "finish
/// and save", "cancel", and the engine switch.
pub open spec fn spec_recording_items(phase: RecordingPhase) -> (bool, bool, bool, bool) {
    let recording = !(phase is Idle);
    (!recording, phase is Sequence, recording, !recording)
}

pub fn recording_items(phase: RecordingPhase) -> (r: (bool, bool, bool, bool))
    ensures
        r == spec_recording_items(phase),
{
    let recording = match phase {
        RecordingPhase::Idle => false,
        _ => true,
    };
    let sequence = match phase {
        RecordingPhase::Sequence { .. } => true,
        _ => false,
    };
    (!recording, sequence, recording, !recording)
}

/// The note on the last side button seen.
pub open spec fn spec_recent_button(last: Option<u32>) -> Seq<char> {
    match last {
        Some(3) => " · 最近 G4/button3"@,
        Some(4) => " · 最近 G5/button4"@,
        Some(b) => " · 最近 button"@ + dec_digits(b as nat),
        None => ""@,
    }
}

/// The number of enabled macros among the entries.
pub open spec fn spec_enabled_count(entries: Seq<(String, MacroBinding)>) -> nat
    decreases entries.len(),
{
    if entries.len() == 0 {
        0
    } else {
        spec_enabled_count(entries.drop_last()) + (if entries.last().1.enabled {
            1nat
        } else {
            0nat
        })
    }
}

proof fn lemma_enabled_count_bound(entries: Seq<(String, MacroBinding)>)
    ensures
        spec_enabled_count(entries) <= entries.len(),
    decreases entries.len(),
{
    if entries.len() > 0 {
        lemma_enabled_count_bound(entries.drop_last());
    }
}

/// Counts the enabled macros.
pub fn enabled_count(macros: &NamedMap<MacroBinding>) -> (r: usize)
    ensures
        r == spec_enabled_count(macros.entry_seq()),
{
    let entries = macros.entries();
    let mut n: usize = 0;
    let mut i: usize = 0;
    while i < entries.len()
        invariant
            i <= entries@.len(),
            entries@ == macros.entry_seq(),
            n == spec_enabled_count(entries@.take(i as int)),
        decreases entries@.len() - i,
    {
        proof {
            assert(entries@.take(i + 1).drop_last() =~= entries@.take(i as int));
            lemma_enabled_count_bound(entries@.take(i as int));
        }
        if entries[i].1.enabled {
            n = n + 1;
        }
        i += 1;
    }
    assert(entries@.take(entries@.len() as int) =~= entries@);
    n
}

/// The macro status line and the text of the engine switch.
pub open spec fn spec_macro_status(
    running: bool,
    phase: RecordingPhase,
    enabled: nat,
    last: Option<u32>,
    accessibility: bool,
) -> (Seq<char>, Seq<char>) {
    if running {
        (
            match phase {
                RecordingPhase::AwaitMouse(RecordingKind::Shortcut) => "录制快捷键:请按目标鼠标侧键"@,
                RecordingPhase::AwaitMouse(RecordingKind::Sequence) => "录制序列:请按目标鼠标侧键"@,
                RecordingPhase::Shortcut { button } => "mouse"@ + dec_digits(button as nat)
                    + " 已选:请按一次键盘组合"@,
                RecordingPhase::Sequence { button, events } => "mouse"@ + dec_digits(button as nat)
                    + " 序列录制中 · "@ + dec_digits(events as nat) + " 个事件"@,
                RecordingPhase::Idle => "侧键宏:运行中("@ + dec_digits(enabled) + " 个绑定)"@
                    + spec_recent_button(last),
            },
            "停用宏引擎"@,
        )
    } else if !accessibility {
        ("侧键宏:需要辅助功能权限"@, "启用宏引擎"@)
    } else {
        ("侧键宏:未启用"@, "启用宏引擎"@)
    }
}

pub fn macro_status(
    running: bool,
    phase: RecordingPhase,
    enabled: usize,
    last: Option<u32>,
    accessibility: bool,
) -> (r: (String, &'static str))
    ensures
        r.0@ == spec_macro_status(running, phase, enabled as nat, last, accessibility).0,
        r.1@ == spec_macro_status(running, phase, enabled as nat, last, accessibility).1,
{
    proof {
        reveal_strlit("");
    }
    if running {
        let status = match phase {
            RecordingPhase::AwaitMouse(RecordingKind::Shortcut) => String::from_str(
                "录制快捷键:请按目标鼠标侧键",
            ),
            RecordingPhase::AwaitMouse(RecordingKind::Sequence) => String::from_str(
                "录制序列:请按目标鼠标侧键",
            ),
            RecordingPhase::Shortcut { button } => {
                let mut s = String::from_str("mouse");
                let d = decimal(button as u64);
                s.append(d.as_str());
                s.append(" 已选:请按一次键盘组合");
                s
            },
            RecordingPhase::Sequence { button, events } => {
                let mut s = String::from_str("mouse");
                let d = decimal(button as u64);
                s.append(d.as_str());
                s.append(" 序列录制中 · ");
                let e = decimal(events as u64);
                s.append(e.as_str());
                s.append(" 个事件");
                s
            },
            RecordingPhase::Idle => {
                let mut s = String::from_str("侧键宏:运行中(");
                let d = decimal(enabled as u64);
                s.append(d.as_str());
                s.append(" 个绑定)");
                match last {
                    Some(3) => s.append(" · 最近 G4/button3"),
                    Some(4) => s.append(" · 最近 G5/button4"),
                    Some(b) => {
                        s.append(" · 最近 button");
                        let bd = decimal(b as u64);
                        s.append(bd.as_str());
                    },
                    None => {},
                }
                s
            },
        };
        (status, "停用宏引擎")
    } else if !accessibility {
        (String::from_str("侧键宏:需要辅助功能权限"), "启用宏引擎")
    } else {
        (String::from_str("侧键宏:未启用"), "启用宏引擎")
    }
}

/// The G HUB item: a warning that offers to quit it while it runs.
pub open spec fn spec_ghub_item(ghub_running: bool) -> (Seq<char>, bool) {
    if ghub_running {
        ("⚠️ G HUB 运行中 → 退出它"@, true)
    } else {
        ("G HUB: 未运行"@, false)
    }
}

pub fn ghub_item(ghub_running: bool) -> (r: (&'static str, bool))
    ensures
        r.0@ == spec_ghub_item(ghub_running).0,
        r.1 == spec_ghub_item(ghub_running).1,
{
    if ghub_running {
        ("⚠️ G HUB 运行中 → 退出它", true)
    } else {
        ("G HUB: 未运行", false)
    }
}

/// Whether `i` is the position of the first `c` in `s`.
pub open spec fn is_first_index(s: Seq<char>, c: char, i: int) -> bool {
    0 <= i < s.len() && s[i] == c && forall|k: int| 0 <= k < i ==> s[k] != c
}

/// `s` cut at its first `c`, as `splitn(2, c)` does: the text before and after it;
/// without a `c`, the whole text and nothing.
pub open spec fn spec_split_once(s: Seq<char>, c: char) -> (Seq<char>, Seq<char>) {
    if exists|i: int| is_first_index(s, c, i) {
        let i = choose|i: int| is_first_index(s, c, i);
        (s.take(i), s.skip(i + 1))
    } else {
        (s, Seq::empty())
    }
}

proof fn lemma_first_index_unique(s: Seq<char>, c: char, i: int, j: int)
    requires
        is_first_index(s, c, i),
        is_first_index(s, c, j),
    ensures
        i == j,
{
    if i < j {
        assert(s[i] != c);
    } else if j < i {
        assert(s[j] != c);
    }
}

/// Cuts a text at its first `c`.
pub fn split_once(s: &str, c: char) -> (r: (String, String))
    ensures
        r.0@ == spec_split_once(s@, c).0,
        r.1@ == spec_split_once(s@, c).1,
{
    let n = s.unicode_len();
    let mut i: usize = 0;
    while i < n
        invariant
            i <= n,
            n == s@.len(),
            forall|k: int| 0 <= k < i ==> s@[k] != c,
        decreases n - i,
    {
        if s.get_char(i) == c {
            proof {
                assert(is_first_index(s@, c, i as int));
                let j = choose|j: int| is_first_index(s@, c, j);
                lemma_first_index_unique(s@, c, i as int, j);
            }
            let before = s.substring_char(0, i);
            let after = s.substring_char(i + 1, n);
            assert(before@ =~= s@.take(i as int));
            assert(after@ =~= s@.skip(i + 1));
            return (String::from_str(before), String::from_str(after));
        }
        i += 1;
    }
    proof {
        assert forall|j: int| !is_first_index(s@, c, j) by {
            if 0 <= j < s@.len() {
                assert(s@[j] != c);
            }
        }
    }
    (String::from_str(s), String::new())
}

/// `s` without every leading repetition of `p`, as `trim_start_matches` does.
pub open spec fn spec_strip_prefixes(s: Seq<char>, p: Seq<char>) -> Seq<char>
    decreases s.len(),
{
    if p.len() > 0 && s.len() >= p.len() && s.take(p.len() as int) == p {
        spec_strip_prefixes(s.skip(p.len() as int), p)
    } else {
        s
    }
}

/// Whether `s` starts with `p`.
pub open spec fn spec_starts_with(s: Seq<char>, p: Seq<char>) -> bool {
    s.len() >= p.len() && s.take(p.len() as int) == p
}

fn starts_with(s: &str, p: &str) -> (r: bool)
    ensures
        r == spec_starts_with(s@, p@),
{
    let n = s.unicode_len();
    let m = p.unicode_len();
    if n < m {
        return false;
    }
    let head = s.substring_char(0, m);
    assert(head@ =~= s@.take(m as int));
    str_is(head, p)
}

pub(crate) fn strip_prefixes(s: &str, p: &str) -> (r: String)
    ensures
        r@ == spec_strip_prefixes(s@, p@),
{
    let m = p.unicode_len();
    let mut rest = String::from_str(s);
    if m == 0 {
        return rest;
    }
    while starts_with(rest.as_str(), p)
        invariant
            m == p@.len(),
            m > 0,
            spec_strip_prefixes(rest@, p@) == spec_strip_prefixes(s@, p@),
        decreases rest@.len(),
    {
        let n = rest.as_str().unicode_len();
        let tail = String::from_str(rest.as_str().substring_char(m, n));
        assert(tail@ =~= rest@.skip(m as int));
        rest = tail;
    }
    rest
}

/// What a menu item does.
#[derive(Debug)]
pub enum MenuCommand {
    Noop,
    OpenPanel,
    SetDpi(u16),
    Profile(String),
    /// A lighting item; the text after `led:`.
    Led(String),
    ToggleMode,
    RecordShortcut,
    RecordSequence,
    /// Record a shortcut for a named key.
    RecordFor(String),
    /// Clear the macro of a named key.
    ClearFor(String),
    DefaultBattery,
    BatteryStatus,
    FinishRecording,
    CancelRecording,
    PollRecording,
    ToggleEngine,
    QuitGhub,
    OpenConfig,
    Quit,
    /// An item id that names nothing (or a DPI that does not read).
    Ignored,
}

pub enum CommandView {
    Noop,
    OpenPanel,
    SetDpi(u16),
    Profile(Seq<char>),
    Led(Seq<char>),
    ToggleMode,
    RecordShortcut,
    RecordSequence,
    RecordFor(Seq<char>),
    ClearFor(Seq<char>),
    DefaultBattery,
    BatteryStatus,
    FinishRecording,
    CancelRecording,
    PollRecording,
    ToggleEngine,
    QuitGhub,
    OpenConfig,
    Quit,
    Ignored,
}

impl View for MenuCommand {
    type V = CommandView;

    open spec fn view(&self) -> CommandView {
        match self {
            MenuCommand::Noop => CommandView::Noop,
            MenuCommand::OpenPanel => CommandView::OpenPanel,
            MenuCommand::SetDpi(v) => CommandView::SetDpi(*v),
            MenuCommand::Profile(n) => CommandView::Profile(n@),
            MenuCommand::Led(a) => CommandView::Led(a@),
            MenuCommand::ToggleMode => CommandView::ToggleMode,
            MenuCommand::RecordShortcut => CommandView::RecordShortcut,
            MenuCommand::RecordSequence => CommandView::RecordSequence,
            MenuCommand::RecordFor(t) => CommandView::RecordFor(t@),
            MenuCommand::ClearFor(t) => CommandView::ClearFor(t@),
            MenuCommand::DefaultBattery => CommandView::DefaultBattery,
            MenuCommand::BatteryStatus => CommandView::BatteryStatus,
            MenuCommand::FinishRecording => CommandView::FinishRecording,
            MenuCommand::CancelRecording => CommandView::CancelRecording,
            MenuCommand::PollRecording => CommandView::PollRecording,
            MenuCommand::ToggleEngine => CommandView::ToggleEngine,
            MenuCommand::QuitGhub => CommandView::QuitGhub,
            MenuCommand::OpenConfig => CommandView::OpenConfig,
            MenuCommand::Quit => CommandView::Quit,
            MenuCommand::Ignored => CommandView::Ignored,
        }
    }
}

/// The command of a menu item id `kind:argument`.
pub open spec fn spec_menu_command(id: Seq<char>) -> CommandView {
    let (kind, arg) = spec_split_once(id, ':');
    if kind == "noop"@ {
        CommandView::Noop
    } else if kind == "panel"@ && arg == "open"@ {
        CommandView::OpenPanel
    } else if kind == "dpi"@ {
        match spec_parse_u16(arg) {
            Some(v) => CommandView::SetDpi(v),
            None => CommandView::Ignored,
        }
    } else if kind == "profile"@ {
        CommandView::Profile(arg)
    } else if kind == "led"@ {
        CommandView::Led(arg)
    } else if kind == "mode"@ && arg == "toggle"@ {
        CommandView::ToggleMode
    } else if kind == "macro"@ {
        if arg == "record-shortcut"@ {
            CommandView::RecordShortcut
        } else if arg == "record-sequence"@ {
            CommandView::RecordSequence
        } else if spec_starts_with(arg, "record-"@) {
            CommandView::RecordFor(spec_strip_prefixes(arg, "record-"@))
        } else if spec_starts_with(arg, "clear-"@) {
            CommandView::ClearFor(spec_strip_prefixes(arg, "clear-"@))
        } else if arg == "default-battery"@ {
            CommandView::DefaultBattery
        } else if arg == "battery-status"@ {
            CommandView::BatteryStatus
        } else if arg == "finish-recording"@ {
            CommandView::FinishRecording
        } else if arg == "cancel-recording"@ {
            CommandView::CancelRecording
        } else if arg == "poll-recording"@ {
            CommandView::PollRecording
        } else if arg == "toggle"@ {
            CommandView::ToggleEngine
        } else {
            CommandView::Ignored
        }
    } else if kind == "ghub"@ && arg == "quit"@ {
        CommandView::QuitGhub
    } else if kind == "config"@ && arg == "open"@ {
        CommandView::OpenConfig
    } else if kind == "app"@ && arg == "quit"@ {
        CommandView::Quit
    } else {
        CommandView::Ignored
    }
}

/// Reads the command of a menu item id.
pub fn menu_command(id: &str) -> (r: MenuCommand)
    ensures
        r@ == spec_menu_command(id@),
{
    let (kind, arg) = split_once(id, ':');
    let k = kind.as_str();
    let a = arg.as_str();
    if str_is(k, "noop") {
        MenuCommand::Noop
    } else if str_is(k, "panel") && str_is(a, "open") {
        MenuCommand::OpenPanel
    } else if str_is(k, "dpi") {
        match parse_u16(a) {
            Some(v) => MenuCommand::SetDpi(v),
            None => MenuCommand::Ignored,
        }
    } else if str_is(k, "profile") {
        MenuCommand::Profile(arg)
    } else if str_is(k, "led") {
        MenuCommand::Led(arg)
    } else if str_is(k, "mode") && str_is(a, "toggle") {
        MenuCommand::ToggleMode
    } else if str_is(k, "macro") {
        if str_is(a, "record-shortcut") {
            MenuCommand::RecordShortcut
        } else if str_is(a, "record-sequence") {
            MenuCommand::RecordSequence
        } else if starts_with(a, "record-") {
            MenuCommand::RecordFor(strip_prefixes(a, "record-"))
        } else if starts_with(a, "clear-") {
            MenuCommand::ClearFor(strip_prefixes(a, "clear-"))
        } else if str_is(a, "default-battery") {
            MenuCommand::DefaultBattery
        } else if str_is(a, "battery-status") {
            MenuCommand::BatteryStatus
        } else if str_is(a, "finish-recording") {
            MenuCommand::FinishRecording
        } else if str_is(a, "cancel-recording") {
            MenuCommand::CancelRecording
        } else if str_is(a, "poll-recording") {
            MenuCommand::PollRecording
        } else if str_is(a, "toggle") {
            MenuCommand::ToggleEngine
        } else {
            MenuCommand::Ignored
        }
    } else if str_is(k, "ghub") && str_is(a, "quit") {
        MenuCommand::QuitGhub
    } else if str_is(k, "config") && str_is(a, "open") {
        MenuCommand::OpenConfig
    } else if str_is(k, "app") && str_is(a, "quit") {
        MenuCommand::Quit
    } else {
        MenuCommand::Ignored
    }
}

/// The id of the DPI item for a level.
pub fn dpi_item_id(level: u16) -> (r: String)
    ensures
        r@ == "dpi:"@ + dec_digits(level as nat),
{
    let mut s = String::from_str("dpi:");
    let d = decimal(level as u64);
    s.append(d.as_str());
    s
}

/// The id of the item that applies a profile.
pub fn profile_item_id(name: &str) -> (r: String)
    ensures
        r@ == "profile:"@ + name@,
{
    let mut s = String::from_str("profile:");
    s.append(name);
    s
}

/// `kind:` followed by anything is cut right after `kind` when `kind` holds no `:`.
proof fn lemma_split_after_kind(kind: Seq<char>, rest: Seq<char>)
    requires
        forall|k: int| 0 <= k < kind.len() ==> kind[k] != ':',
    ensures
        spec_split_once(kind + seq![':'] + rest, ':') == (kind, rest),
{
    let id = kind + seq![':'] + rest;
    let i = kind.len() as int;
    assert(id[i] == ':');
    assert forall|k: int| 0 <= k < i implies id[k] != ':' by {
        assert(id[k] == kind[k]);
    }
    assert(is_first_index(id, ':', i));
    let j = choose|j: int| is_first_index(id, ':', j);
    lemma_first_index_unique(id, ':', i, j);
    assert(id.take(i) =~= kind);
    assert(id.skip(i + 1) =~= rest);
}

/// The DPI item of a level sets that level.
pub proof fn lemma_dpi_item_round_trip(level: u16)
    ensures
        spec_menu_command("dpi:"@ + dec_digits(level as nat)) == CommandView::SetDpi(level),
{
    reveal_strlit("dpi:");
    reveal_strlit("dpi");
    reveal_strlit("noop");
    reveal_strlit("panel");
    crate::text::lemma_dec_digits_parse(level as nat);
    assert("dpi:"@ =~= "dpi"@ + seq![':']);
    lemma_split_after_kind("dpi"@, dec_digits(level as nat));
    assert("dpi"@ + seq![':'] + dec_digits(level as nat) =~= "dpi:"@ + dec_digits(level as nat));
    assert("dpi"@ != "noop"@ && "dpi"@ != "panel"@);
}

/// The item of a profile applies that profile, whatever its name.
pub proof fn lemma_profile_item_round_trip(name: Seq<char>)
    ensures
        spec_menu_command("profile:"@ + name) == CommandView::Profile(name),
{
    reveal_strlit("profile:");
    reveal_strlit("profile");
    reveal_strlit("noop");
    reveal_strlit("panel");
    reveal_strlit("dpi");
    assert("profile:"@ =~= "profile"@ + seq![':']);
    lemma_split_after_kind("profile"@, name);
    assert("profile"@ + seq![':'] + name =~= "profile:"@ + name);
    assert("profile"@ != "noop"@ && "profile"@ != "panel"@ && "profile"@ != "dpi"@);
}

/// Every lighting item hands the text after `led:` to the lighting menu.
pub proof fn lemma_led_item_round_trip(rest: Seq<char>)
    ensures
        spec_menu_command("led:"@ + rest) == CommandView::Led(rest),
{
    reveal_strlit("led:");
    reveal_strlit("led");
    reveal_strlit("noop");
    reveal_strlit("panel");
    reveal_strlit("dpi");
    reveal_strlit("profile");
    assert("led:"@ =~= "led"@ + seq![':']);
    lemma_split_after_kind("led"@, rest);
    assert("led"@ + seq![':'] + rest =~= "led:"@ + rest);
    assert("led"@ != "noop"@ && "led"@ != "panel"@ && "led"@[0] != "dpi"@[0] && "led"@ != "profile"@);
}

/// Whether the colour text of a lighting item can be cut into byte pairs.
pub open spec fn hex_cuttable(bytes: Seq<u8>) -> bool {
    bytes.len() == 6 ==> vstd::utf8::is_char_boundary(bytes, 2) && vstd::utf8::is_char_boundary(
        bytes,
        4,
    )
}

/// What a lighting menu item asks for.
#[derive(Debug)]
pub enum LedMenuOutcome {
    /// Nothing (an unknown zone or item).
    Ignore,
    /// Open the colour picker for this zone and effect.
    PickColor { zone: u8, effect: String },
    /// Save the lighting without writing it (a rate set while the zone is off).
    SaveOnly { zone: u8, spec: LedSpec },
    /// Save the lighting and write it to the device.
    Apply { zone: u8, spec: LedSpec },
}

pub enum LedMenuView {
    Ignore,
    PickColor { zone: u8, effect: Seq<char> },
    SaveOnly { zone: u8, spec: LedSpecView },
    Apply { zone: u8, spec: LedSpecView },
}

impl View for LedMenuOutcome {
    type V = LedMenuView;

    open spec fn view(&self) -> LedMenuView {
        match self {
            LedMenuOutcome::Ignore => LedMenuView::Ignore,
            LedMenuOutcome::PickColor { zone, effect } => LedMenuView::PickColor {
                zone: *zone,
                effect: effect@,
            },
            LedMenuOutcome::SaveOnly { zone, spec } => LedMenuView::SaveOnly { zone: *zone, spec: spec@ },
            LedMenuOutcome::Apply { zone, spec } => LedMenuView::Apply { zone: *zone, spec: spec@ },
        }
    }
}

/// The lighting a zone has in the configuration, or the default.
pub open spec fn spec_zone_spec(zones: Map<Seq<char>, LedSpec>, zone: u8) -> LedSpecView {
    if zones.contains_key(spec_zone_key(zone)) {
        zones[spec_zone_key(zone)]@
    } else {
        default_led_view()
    }
}

/// What the lighting item `zone:…` does to the zone's lighting: `off` switches it
/// off; `solid:RRGGBB` and `breathing:RRGGBB` set effect and colour; `custom:E`
/// opens the colour picker; `rate:R` sets the rate (only saved while the zone is
/// off); `bright:N` sets the brightness when N reads as a byte; a single other word
/// is the effect. Effects switch the zone on.
pub open spec fn spec_led_menu(arg: Seq<char>, zones: Map<Seq<char>, LedSpec>) -> LedMenuView {
    let segs = spec_split(arg, ':');
    match spec_zone_from_key(segs[0]) {
        None => LedMenuView::Ignore,
        Some(zone) => {
            let base = spec_zone_spec(zones, zone);
            if segs.len() == 2 {
                if segs[1] == "off"@ {
                    LedMenuView::Apply { zone, spec: LedSpecView { off: true, ..base } }
                } else {
                    LedMenuView::Apply { zone, spec: LedSpecView { off: false, effect: segs[1], ..base } }
                }
            } else if segs.len() == 3 {
                if segs[1] == "solid"@ || segs[1] == "breathing"@ {
                    LedMenuView::Apply {
                        zone,
                        spec: LedSpecView {
                            off: false,
                            effect: segs[1],
                            rgb: spec_hex_rgb(vstd::utf8::encode_utf8(segs[2])),
                            ..base
                        },
                    }
                } else if segs[1] == "custom"@ {
                    LedMenuView::PickColor { zone, effect: segs[2] }
                } else if segs[1] == "rate"@ {
                    let spec = LedSpecView { rate: Some(segs[2]), ..base };
                    if spec.off {
                        LedMenuView::SaveOnly { zone, spec }
                    } else {
                        LedMenuView::Apply { zone, spec }
                    }
                } else if segs[1] == "bright"@ {
                    LedMenuView::Apply {
                        zone,
                        spec: LedSpecView {
                            brightness: match spec_parse_u8(segs[2]) {
                                Some(v) => v,
                                None => base.brightness,
                            },
                            ..base
                        },
                    }
                } else {
                    LedMenuView::Ignore
                }
            } else {
                LedMenuView::Ignore
            }
        },
    }
}

/// The lighting of a zone from the configuration, or the default.
pub fn zone_spec(zones: &NamedMap<LedSpec>, zone: u8) -> (r: LedSpec)
    ensures
        r@ == spec_zone_spec(zones.view(), zone),
{
    match zones.get(zone_key(zone)) {
        Some(s) => s.duplicate(),
        None => default_led_spec(),
    }
}

/// Works out what a lighting menu item does.
pub fn led_menu_update(arg: &str, zones: &NamedMap<LedSpec>) -> (r: LedMenuOutcome)
    requires
        ({
            let segs = spec_split(arg@, ':');
            segs.len() == 3 && (segs[1] == "solid"@ || segs[1] == "breathing"@) ==> hex_cuttable(
                vstd::utf8::encode_utf8(segs[2]),
            )
        }),
    ensures
        r@ == spec_led_menu(arg@, zones.view()),
{
    let segs = split_char(arg, ':');
    proof {
        lemma_split_nonempty(arg@, ':');
        reveal_strlit("off");
        reveal_strlit("solid");
        reveal_strlit("breathing");
    }
    let ghost views = spec_split(arg@, ':');
    assert(segs@[0]@ == views[0]);
    let zone = match zone_from_key(segs[0].as_str()) {
        Some(z) => z,
        None => return LedMenuOutcome::Ignore,
    };
    let mut spec = zone_spec(zones, zone);
    if segs.len() == 2 {
        assert(segs@[1]@ == views[1]);
        if str_is(segs[1].as_str(), "off") {
            spec.off = true;
        } else {
            spec.effect = segs[1].clone();
            spec.off = false;
        }
        return LedMenuOutcome::Apply { zone, spec };
    }
    if segs.len() != 3 {
        return LedMenuOutcome::Ignore;
    }
    assert(segs@[1]@ == views[1]);
    assert(segs@[2]@ == views[2]);
    let kind = segs[1].as_str();
    let value = segs[2].as_str();
    if str_is(kind, "solid") || str_is(kind, "breathing") {
        spec.rgb = hex_rgb(value);
        spec.effect = String::from_str(kind);
        spec.off = false;
        LedMenuOutcome::Apply { zone, spec }
    } else if str_is(kind, "custom") {
        LedMenuOutcome::PickColor { zone, effect: String::from_str(value) }
    } else if str_is(kind, "rate") {
        spec.rate = Some(String::from_str(value));
        if spec.off {
            LedMenuOutcome::SaveOnly { zone, spec }
        } else {
            LedMenuOutcome::Apply { zone, spec }
        }
    } else if str_is(kind, "bright") {
        match parse_u8(value) {
            Some(v) => {
                spec.brightness = v;
            },
            None => {},
        }
        LedMenuOutcome::Apply { zone, spec }
    } else {
        LedMenuOutcome::Ignore
    }
}

/// How a lighting change is reported: off, or effect, brightness and rate.
pub open spec fn spec_led_summary(spec: LedSpecView) -> Seq<char> {
    if spec.off {
        "关闭"@
    } else {
        spec.effect + " 亮度"@ + dec_digits(spec.brightness as nat) + "% 速率 "@ + match spec.rate {
            Some(r) => r,
            None => "默认"@,
        }
    }
}

/// The notice after a zone's lighting was written.
pub fn led_updated_text(zone: u8, spec: &LedSpec) -> (r: String)
    ensures
        r@ == spec_zone_label(zone) + " 灯效已更新: "@ + spec_led_summary(spec@),
{
    let mut s = String::from_str(zone_label(zone));
    s.append(" 灯效已更新: ");
    if spec.off {
        s.append("关闭");
    } else {
        s.append(spec.effect.as_str());
        s.append(" 亮度");
        let b = decimal(spec.brightness as u64);
        s.append(b.as_str());
        s.append("% 速率 ");
        match &spec.rate {
            Some(r) => s.append(r.as_str()),
            None => s.append("默认"),
        }
    }
    s
}

/// The rate and brightness items of the lighting menu are ticked when they match
/// the zone's lighting; an item id `led:ZONE:rate:R` or `led:ZONE:bright:N` that
/// does not have four parts is left alone.
pub open spec fn spec_rate_item_checked(id: Seq<char>, zones: Map<Seq<char>, LedSpec>) -> Option<bool> {
    let parts = spec_split(id, ':');
    if parts.len() == 4 {
        let spec = if zones.contains_key(parts[1]) {
            zones[parts[1]]@
        } else {
            default_led_view()
        };
        Some(spec.rate == Some(parts[3]))
    } else {
        None
    }
}

pub open spec fn spec_bright_item_checked(id: Seq<char>, zones: Map<Seq<char>, LedSpec>) -> Option<bool> {
    let parts = spec_split(id, ':');
    if parts.len() == 4 {
        let spec = if zones.contains_key(parts[1]) {
            zones[parts[1]]@
        } else {
            default_led_view()
        };
        Some(
            spec.brightness == match spec_parse_u8(parts[3]) {
                Some(v) => v,
                None => 0u8,
            },
        )
    } else {
        None
    }
}

fn item_zone_spec(zones: &NamedMap<LedSpec>, key: &str) -> (r: LedSpec)
    ensures
        r@ == if zones.view().contains_key(key@) {
            zones.view()[key@]@
        } else {
            default_led_view()
        },
{
    match zones.get(key) {
        Some(s) => s.duplicate(),
        None => default_led_spec(),
    }
}

pub fn rate_item_checked(id: &str, zones: &NamedMap<LedSpec>) -> (r: Option<bool>)
    ensures
        r == spec_rate_item_checked(id@, zones.view()),
{
    let parts = split_char(id, ':');
    if parts.len() != 4 {
        return None;
    }
    let spec = item_zone_spec(zones, parts[1].as_str());
    let value = parts[3].as_str();
    let checked = match &spec.rate {
        Some(r) => str_is(r.as_str(), value),
        None => false,
    };
    Some(checked)
}

pub fn bright_item_checked(id: &str, zones: &NamedMap<LedSpec>) -> (r: Option<bool>)
    ensures
        r == spec_bright_item_checked(id@, zones.view()),
{
    let parts = split_char(id, ':');
    if parts.len() != 4 {
        return None;
    }
    let spec = item_zone_spec(zones, parts[1].as_str());
    let value = match parse_u8(parts[3].as_str()) {
        Some(v) => v,
        None => 0,
    };
    Some(spec.brightness == value)
}

/// The configuration key of the macro bound to a button: `mouse` and its number.
pub fn button_macro_key(button: u32) -> (r: String)
    ensures
        r@ == "mouse"@ + dec_digits(button as nat),
{
    let mut s = String::from_str("mouse");
    let d = decimal(button as u64);
    s.append(d.as_str());
    s
}

/// The name of a kind of recording.
pub open spec fn spec_kind_name(kind: RecordingKind) -> Seq<char> {
    match kind {
        RecordingKind::Shortcut => "快捷键"@,
        RecordingKind::Sequence => "按键序列"@,
    }
}

/// The macro a finished recording becomes: named after its kind and label, enabled.
pub fn recording_binding(result: RecordingResult) -> (r: MacroBinding)
    ensures
        r.name matches Some(n) && n@ == "录制"@ + spec_kind_name(result.kind) + ": "@ + result.label@,
        r.enabled,
        r.actions == result.actions,
{
    let mut name = String::from_str("录制");
    name.append(match result.kind {
        RecordingKind::Shortcut => "快捷键",
        RecordingKind::Sequence => "按键序列",
    });
    name.append(": ");
    name.append(result.label.as_str());
    MacroBinding { name: Some(name), enabled: true, actions: result.actions }
}

/// How a saved recording's button is named.
pub open spec fn spec_button_text(button: u32) -> Seq<char> {
    if button == 3 {
        "G4 / mouse3"@
    } else if button == 4 {
        "G5 / mouse4"@
    } else {
        "button"@ + dec_digits(button as nat) + " / mouse"@ + dec_digits(button as nat)
    }
}

/// The notice after a recording was saved: bound, or replaced an earlier macro.
pub fn recording_saved_text(button: u32, replaced: bool, label: &str) -> (r: String)
    ensures
        r@ == spec_button_text(button) + " 已"@ + (if replaced {
            "替换"@
        } else {
            "绑定"@
        }) + "为 "@ + label@,
{
    let mut s = if button == 3 {
        String::from_str("G4 / mouse3")
    } else if button == 4 {
        String::from_str("G5 / mouse4")
    } else {
        let mut t = String::from_str("button");
        let d = decimal(button as u64);
        t.append(d.as_str());
        t.append(" / mouse");
        t.append(d.as_str());
        t
    };
    s.append(" 已");
    s.append(if replaced {
        "替换"
    } else {
        "绑定"
    });
    s.append("为 ");
    s.append(label);
    s
}

/// The notice of a cancelled recording.
pub fn recording_cancelled_text(reason: &str) -> (r: String)
    ensures
        r@ == "录制已取消: "@ + reason@,
{
    let mut s = String::from_str("录制已取消: ");
    s.append(reason);
    s
}

/// The notice after a recording was started.
pub open spec fn spec_recording_started_text(kind: RecordingKind) -> Seq<char> {
    match kind {
        RecordingKind::Shortcut => "请按要绑定的鼠标侧键，然后按键盘组合"@,
        RecordingKind::Sequence => "请按要绑定的鼠标侧键，然后开始键盘录制"@,
    }
}

pub fn recording_started_text(kind: RecordingKind) -> (r: &'static str)
    ensures
        r@ == spec_recording_started_text(kind),
{
    match kind {
        RecordingKind::Shortcut => "请按要绑定的鼠标侧键，然后按键盘组合",
        RecordingKind::Sequence => "请按要绑定的鼠标侧键，然后开始键盘录制",
    }
}

/// The mode the mode switch asks for: onboard from host, host otherwise.
pub fn mode_toggle_target(current: Option<OnboardMode>) -> (r: OnboardMode)
    ensures
        r == if current == Some(OnboardMode::Host) {
            OnboardMode::Onboard
        } else {
            OnboardMode::Host
        },
{
    match current {
        Some(OnboardMode::Host) => OnboardMode::Onboard,
        _ => OnboardMode::Host,
    }
}

/// The DPI a profile sets: its active DPI, else its last level.
pub fn profile_target_dpi(p: &Profile) -> (r: Option<u16>)
    ensures
        r == match p.active_dpi {
            Some(d) => Some(d),
            None => if p.dpi_levels@.len() > 0 {
                Some(p.dpi_levels@.last())
            } else {
                None
            },
        },
{
    match p.active_dpi {
        Some(d) => Some(d),
        None => {
            let n = p.dpi_levels.len();
            if n > 0 {
                Some(p.dpi_levels[n - 1])
            } else {
                None
            }
        },
    }
}

/// A confirmed DPI: the snapshot shows it in host mode.
pub fn note_dpi_confirmed(st: &mut MenuState, dpi: u16)
    ensures
        final(st).snap == (Snapshot { dpi: Some(dpi), mode: Some(OnboardMode::Host), ..old(st).snap }),
        final(st).dirty,
{
    st.snap.dpi = Some(dpi);
    st.snap.mode = Some(OnboardMode::Host);
    st.dirty = true;
}

/// A confirmed mode (and the DPI read with it).
pub fn note_mode_confirmed(st: &mut MenuState, mode: OnboardMode, dpi: Option<u16>)
    ensures
        final(st).snap == (Snapshot { dpi, mode: Some(mode), ..old(st).snap }),
        final(st).dirty,
{
    st.snap.mode = Some(mode);
    st.snap.dpi = dpi;
    st.dirty = true;
}

/// The configuration after a confirmed mode switch asks for that mode.
pub fn remember_mode(cfg: &mut Config, actual: OnboardMode)
    ensures
        final(cfg).desired_mode == if actual == OnboardMode::Host {
            DesiredMode::Host
        } else {
            DesiredMode::Onboard
        },
        final(cfg).desired_dpi == old(cfg).desired_dpi,
        final(cfg).dpi_levels == old(cfg).dpi_levels,
{
    cfg.desired_mode = if actual == OnboardMode::Host {
        DesiredMode::Host
    } else {
        DesiredMode::Onboard
    };
}

/// The configuration after a profile was applied: host mode, and its DPI when one
/// was set.
pub fn remember_profile(cfg: &mut Config, dpi: Option<u16>)
    ensures
        final(cfg).desired_mode == DesiredMode::Host,
        final(cfg).desired_dpi == match dpi {
            Some(d) => Some(d),
            None => old(cfg).desired_dpi,
        },
        final(cfg).dpi_levels == old(cfg).dpi_levels,
{
    cfg.desired_mode = DesiredMode::Host;
    if let Some(d) = dpi {
        cfg.desired_dpi = Some(d);
    }
}

/// A gap this long between two poll rounds means the system slept: the lighting
/// is restored again.
pub const SYSTEM_WAKE_GAP_MS: u64 = 15_000;

/// The poller's state between rounds: whether a device is held, its description,
/// the battery reads failed in a row, and whether the desired mode/DPI and the
/// lighting still have to be restored.
#[derive(Debug)]
pub struct PollState {
    pub active: bool,
    pub desc: String,
    pub battery_failures: u8,
    pub state_sync_pending: bool,
    pub led_sync_pending: bool,
    pub last_iteration: u64,
}

impl PollState {
    /// No device yet; the lighting is to be restored once one answers.
    pub fn new(now: u64) -> (r: Self)
        ensures
            !r.active,
            r.desc@ == Seq::<char>::empty(),
            r.battery_failures == 0,
            !r.state_sync_pending,
            r.led_sync_pending,
            r.last_iteration == now,
    {
        PollState {
            active: false,
            desc: String::new(),
            battery_failures: 0,
            state_sync_pending: false,
            led_sync_pending: true,
            last_iteration: now,
        }
    }
}

/// Starts a round: after a long gap (the system slept) the lighting is restored.
pub fn begin_round(ps: &mut PollState, now: u64)
    ensures
        final(ps).last_iteration == now,
        final(ps).led_sync_pending == (old(ps).led_sync_pending || (now >= old(ps).last_iteration
            && now - old(ps).last_iteration >= SYSTEM_WAKE_GAP_MS)),
        final(ps).active == old(ps).active,
        final(ps).desc == old(ps).desc,
        final(ps).battery_failures == old(ps).battery_failures,
        final(ps).state_sync_pending == old(ps).state_sync_pending,
{
    if now >= ps.last_iteration && now - ps.last_iteration >= SYSTEM_WAKE_GAP_MS {
        ps.led_sync_pending = true;
    }
    ps.last_iteration = now;
}

/// While a device is online its battery is read again after this many seconds.
pub const ONLINE_POLL_SECS: u64 = 5;

/// A held device answered with its battery: the failure count clears and the
/// reading is published. Returns the delay before the next round (the battery is
/// polled every 5 s while online) and whether the desired state must still be
/// applied.
pub fn battery_read_ok(ps: &mut PollState, st: &mut MenuState, battery: BatteryInfo) -> (r: (u64, bool))
    ensures
        r.0 == 5,
        r.1 == old(ps).state_sync_pending,
        final(ps).battery_failures == 0,
        final(ps).active == old(ps).active,
        final(ps).desc == old(ps).desc,
        final(ps).state_sync_pending == old(ps).state_sync_pending,
        final(ps).led_sync_pending == old(ps).led_sync_pending,
        final(ps).last_iteration == old(ps).last_iteration,
        final(st).snap == (Snapshot {
            device_desc: Some(old(ps).desc),
            battery: Some(battery),
            error: None,
            ..old(st).snap
        }),
        final(st).dirty,
{
    ps.battery_failures = 0;
    publish_battery(st, ps.desc.clone(), battery);
    (ONLINE_POLL_SECS, ps.state_sync_pending)
}

/// The outcome of applying the desired state to a held device: once applied the
/// full state is published and the lighting is restored later unless it was
/// synchronised; a failure is retried next round.
pub fn desired_state_applied(
    ps: &mut PollState,
    st: &mut MenuState,
    battery: BatteryInfo,
    applied: crate::controller::AppliedState,
    led_synced: bool,
)
    ensures
        !final(ps).state_sync_pending,
        final(ps).led_sync_pending == !led_synced,
        final(ps).active == old(ps).active,
        final(ps).desc == old(ps).desc,
        final(ps).battery_failures == old(ps).battery_failures,
        final(ps).last_iteration == old(ps).last_iteration,
        final(st).snap == (Snapshot {
            device_desc: Some(old(ps).desc),
            battery: Some(battery),
            dpi: applied.dpi,
            mode: Some(applied.mode),
            error: None,
        }),
        final(st).dirty,
{
    publish_connected(st, ps.desc.clone(), battery, applied.dpi, applied.mode);
    ps.state_sync_pending = false;
    ps.led_sync_pending = !led_synced;
}

/// Whether the lighting is restored this round: only once mode and DPI are in
/// place, in host mode, and when it is still pending.
pub fn led_sync_due(ps: &PollState, desired: DesiredMode) -> (r: bool)
    ensures
        r == (!ps.state_sync_pending && desired == DesiredMode::Host && ps.led_sync_pending),
{
    !ps.state_sync_pending && desired == DesiredMode::Host && ps.led_sync_pending
}

/// The outcome of restoring the lighting: pending again when it failed.
pub fn led_sync_result(ps: &mut PollState, ok: bool)
    ensures
        final(ps).led_sync_pending == !ok,
        final(ps).active == old(ps).active,
        final(ps).desc == old(ps).desc,
        final(ps).battery_failures == old(ps).battery_failures,
        final(ps).state_sync_pending == old(ps).state_sync_pending,
        final(ps).last_iteration == old(ps).last_iteration,
{
    ps.led_sync_pending = !ok;
}

/// Forgets the held device: everything is restored once it is found again.
fn drop_device(ps: &mut PollState)
    ensures
        !final(ps).active,
        final(ps).battery_failures == 0,
        !final(ps).state_sync_pending,
        final(ps).led_sync_pending,
        final(ps).desc == old(ps).desc,
        final(ps).last_iteration == old(ps).last_iteration,
{
    ps.active = false;
    ps.battery_failures = 0;
    ps.state_sync_pending = false;
    ps.led_sync_pending = true;
}

/// A battery read of the held device failed. The device stays while the failure
/// is tolerated (next round in 1 s); otherwise it is dropped and reported offline
/// with the error (next round in 2 s). Returns the delay and whether the device
/// was dropped.
pub fn battery_read_failed(
    ps: &mut PollState,
    st: &mut MenuState,
    error: String,
    interface_present: bool,
) -> (r: (u64, bool))
    ensures
        ({
            let failures = if old(ps).battery_failures == u8::MAX {
                u8::MAX
            } else {
                (old(ps).battery_failures + 1) as u8
            };
            if failures < 2 && interface_present {
                &&& r == (1u64, false)
                &&& final(ps).battery_failures == failures
                &&& final(ps).active == old(ps).active
                &&& final(ps).state_sync_pending == old(ps).state_sync_pending
                &&& final(ps).led_sync_pending == old(ps).led_sync_pending
                &&& final(st).snap == old(st).snap && final(st).dirty == old(st).dirty
            } else {
                &&& r == (2u64, true)
                &&& !final(ps).active
                &&& final(ps).battery_failures == 0
                &&& !final(ps).state_sync_pending
                &&& final(ps).led_sync_pending
                &&& final(st).snap == (Snapshot {
                    device_desc: None,
                    battery: None,
                    dpi: None,
                    mode: None,
                    error: Some(error),
                })
                &&& final(st).dirty
            }
        }),
        final(ps).desc == old(ps).desc,
        final(ps).last_iteration == old(ps).last_iteration,
{
    ps.battery_failures = if ps.battery_failures == u8::MAX {
        u8::MAX
    } else {
        ps.battery_failures + 1
    };
    if keep_online_after_battery_failure(ps.battery_failures, interface_present) {
        (1, false)
    } else {
        drop_device(ps);
        publish_offline(st, error);
        (2, true)
    }
}

/// A device was found and answered: it is held from now on. With its desired state
/// applied the full state is published (next round in 5 s); otherwise only what it
/// answered, and the state is applied later (next round in 2 s).
pub fn device_found(
    ps: &mut PollState,
    st: &mut MenuState,
    desc: String,
    battery: BatteryInfo,
    applied: Option<crate::controller::AppliedState>,
    led_synced: bool,
) -> (r: u64)
    ensures
        final(ps).active,
        final(ps).desc == desc,
        final(ps).state_sync_pending == applied is None,
        final(ps).led_sync_pending == !led_synced,
        final(ps).battery_failures == old(ps).battery_failures,
        final(ps).last_iteration == old(ps).last_iteration,
        r == if applied is Some {
            5u64
        } else {
            2u64
        },
        final(st).snap == match applied {
            Some(a) => Snapshot {
                device_desc: Some(desc),
                battery: Some(battery),
                dpi: a.dpi,
                mode: Some(a.mode),
                error: None,
            },
            None => Snapshot {
                device_desc: Some(desc),
                battery: Some(battery),
                dpi: None,
                mode: None,
                error: None,
            },
        },
        final(st).dirty,
{
    let shown = desc.clone();
    ps.desc = desc;
    ps.state_sync_pending = applied.is_none();
    ps.led_sync_pending = !led_synced;
    ps.active = true;
    match applied {
        Some(a) => {
            publish_connected(st, shown, battery, a.dpi, a.mode);
            5
        },
        None => {
            publish_partial(st, shown, battery);
            2
        },
    }
}

/// No device answered: offline with the error. While a G502 interface is still
/// plugged in (a receiver whose mouse sleeps) the next try backs off to 10 s;
/// otherwise it comes in 2 s.
pub fn device_not_found(st: &mut MenuState, error: String, interface_present: bool) -> (r: u64)
    ensures
        r == if interface_present {
            10u64
        } else {
            2u64
        },
        final(st).snap == (Snapshot {
            device_desc: None,
            battery: None,
            dpi: None,
            mode: None,
            error: Some(error),
        }),
        final(st).dirty,
{
    publish_offline(st, error);
    if interface_present {
        10
    } else {
        2
    }
}

/// A configuration without a desired DPI adopts the DPI a new device runs in host
/// mode, so that later restores keep it.
pub fn first_dpi_to_remember(desired_dpi: Option<u16>, applied: Option<crate::controller::AppliedState>) -> (r: Option<u16>)
    ensures
        r == match (desired_dpi, applied) {
            (None, Some(a)) => if a.mode == OnboardMode::Host {
                a.dpi
            } else {
                None
            },
            _ => None,
        },
{
    match (desired_dpi, applied) {
        (None, Some(a)) => if a.mode == OnboardMode::Host {
            a.dpi
        } else {
            None
        },
        _ => None,
    }
}

/// The USB connection of the held device changed while waiting: it is dropped and
/// reported offline until it is found again.
pub fn connection_changed(ps: &mut PollState, st: &mut MenuState)
    ensures
        !final(ps).active,
        final(ps).battery_failures == 0,
        !final(ps).state_sync_pending,
        final(ps).led_sync_pending,
        final(st).snap.device_desc is None,
        final(st).snap.battery is None,
        final(st).snap.dpi is None,
        final(st).snap.mode is None,
        final(st).snap.error matches Some(e) && e@ == "G502 USB 连接已变化，正在重新连接"@,
        final(st).dirty,
{
    drop_device(ps);
    publish_offline(st, String::from_str("G502 USB 连接已变化，正在重新连接"));
}

/// While waiting `remaining` seconds the interface is checked every 2 s: the next
/// pause and what remains after it.
pub fn watch_step(remaining: u64) -> (r: (u64, u64))
    requires
        remaining > 0,
    ensures
        r.0 == if remaining < 2 {
            remaining
        } else {
            2
        },
        r.1 == remaining - r.0,
        r.0 > 0,
{
    let step = if remaining < 2 {
        remaining
    } else {
        2
    };
    (step, remaining - step)
}

/// The tray icon is hidden while disconnected only when the configuration asks.
pub fn tray_visible(hide_when_disconnected: bool, connected: bool) -> (r: bool)
    ensures
        r == (!hide_when_disconnected || connected),
{
    if hide_when_disconnected {
        connected
    } else {
        true
    }
}

/// One tick of the menu pump: the tick counter (wrapping) and whether this tick
/// reloads the configuration and looks at the snapshot (every fifth tick).
pub fn pump_tick(ticks: u32) -> (r: (u32, bool))
    ensures
        r.0 == if ticks == u32::MAX {
            0
        } else {
            (ticks + 1) as u32
        },
        r.1 == (r.0 % 5 == 0),
{
    let t = if ticks == u32::MAX {
        0
    } else {
        ticks + 1
    };
    (t, t % 5 == 0)
}

/// What the pump does with the shared state: whether it takes a snapshot, whether
/// the menu must be redrawn, and whether the dirty mark is cleared.
pub fn pump_refresh(dirty: bool, recording_changed: bool, periodic: bool) -> (r: (bool, bool, bool))
    ensures
        r == if dirty || recording_changed {
            (true, true, true)
        } else if periodic {
            (true, false, false)
        } else {
            (false, false, false)
        },
{
    if dirty || recording_changed {
        (true, true, true)
    } else if periodic {
        (true, false, false)
    } else {
        (false, false, false)
    }
}

} // verus!
