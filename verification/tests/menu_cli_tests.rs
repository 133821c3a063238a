use g502hub::cli::{
    add_dpi_level, battery_text, cli_led_line, cli_led_spec, color_arg, led_zones_arg, levels_desc,
    macro_list_line, onboard_action, onboard_get_line, profile_list_line, remember_cli_dpi,
    reported_period, rgb_hex, should_alert, sort_levels, status_battery_line, status_mode_line,
    OnboardAction,
};
use g502hub::color_picker::{parse_picked_color, picked_spec, picked_text, picker_script, picker_start_rgb};
use g502hub::config::{default_led_spec, Config, DesiredMode, LedSpec, MacroBinding, Profile};
use g502hub::controller::{schedule_live_led, AppliedState, LiveLedState, TargetZone};
use g502hub::features::battery::BatteryInfo;
use g502hub::features::led::rate_period_ms;
use g502hub::features::onboard::OnboardMode;
use g502hub::hidpp::HidppError;
use g502hub::menu::{
    battery_read_failed, battery_read_ok, begin_round, device_found, device_not_found, first_dpi_to_remember,
    pump_refresh, pump_tick, tray_visible, watch_step, MenuState, PollState,
    battery_line, dpi_item_id, header_text, hex_rgb, led_menu_update, menu_command, mode_texts,
    mode_toggle_target, panel_status, profile_item_id, profile_target_dpi, LedMenuOutcome,
    MenuCommand, Snapshot,
};
use g502hub::named_map::NamedMap;
use g502hub::macro_engine::{RecordingKind, RecordingPhase};
use g502hub::panel::{hit_test_key, panel_macro_status, point_in_polygon, CanvasMode, CanvasState, PopoverPanel};
use g502hub::probe::{feature_line, hex, known_name, probe_sections, raw_probe_line, slot_effect_id, zone_count};

fn battery(percent: u8, charging: bool, mv: Option<u16>) -> BatteryInfo {
    BatteryInfo { percent, voltage_mv: mv, charging, state_text: "放电中".into() }
}

#[test]
fn menu_ids_read_as_commands() {
    assert!(matches!(menu_command("noop"), MenuCommand::Noop));
    assert!(matches!(menu_command("panel:open"), MenuCommand::OpenPanel));
    assert!(matches!(menu_command("dpi:1600"), MenuCommand::SetDpi(1600)));
    assert!(matches!(menu_command("dpi:fast"), MenuCommand::Ignored));
    assert!(matches!(menu_command("dpi:70000"), MenuCommand::Ignored));
    assert!(matches!(menu_command("profile:游戏"), MenuCommand::Profile(ref n) if n == "游戏"));
    assert!(matches!(menu_command("led:primary:solid:ff0000"), MenuCommand::Led(ref a) if a == "primary:solid:ff0000"));
    assert!(matches!(menu_command("mode:toggle"), MenuCommand::ToggleMode));
    assert!(matches!(menu_command("macro:record-shortcut"), MenuCommand::RecordShortcut));
    assert!(matches!(menu_command("macro:record-sequence"), MenuCommand::RecordSequence));
    assert!(matches!(menu_command("macro:record-g7"), MenuCommand::RecordFor(ref k) if k == "g7"));
    assert!(matches!(menu_command("macro:clear-mouse4"), MenuCommand::ClearFor(ref k) if k == "mouse4"));
    assert!(matches!(menu_command("macro:default-battery"), MenuCommand::DefaultBattery));
    assert!(matches!(menu_command("macro:battery-status"), MenuCommand::BatteryStatus));
    assert!(matches!(menu_command("macro:finish-recording"), MenuCommand::FinishRecording));
    assert!(matches!(menu_command("macro:cancel-recording"), MenuCommand::CancelRecording));
    assert!(matches!(menu_command("macro:poll-recording"), MenuCommand::PollRecording));
    assert!(matches!(menu_command("macro:toggle"), MenuCommand::ToggleEngine));
    assert!(matches!(menu_command("ghub:quit"), MenuCommand::QuitGhub));
    assert!(matches!(menu_command("config:open"), MenuCommand::OpenConfig));
    assert!(matches!(menu_command("app:quit"), MenuCommand::Quit));
    assert!(matches!(menu_command("app:restart"), MenuCommand::Ignored));
    assert!(matches!(menu_command(""), MenuCommand::Ignored));
}

#[test]
fn menu_item_ids_round_trip() {
    assert_eq!(dpi_item_id(3200), "dpi:3200");
    assert!(matches!(menu_command(&dpi_item_id(3200)), MenuCommand::SetDpi(3200)));
    assert_eq!(profile_item_id("a:b"), "profile:a:b");
    assert!(matches!(menu_command(&profile_item_id("a:b")), MenuCommand::Profile(ref n) if n == "a:b"));
}

#[test]
fn hex_colours() {
    assert_eq!(hex_rgb("ff6600"), [255, 102, 0]);
    assert_eq!(hex_rgb("00C8FF"), [0, 200, 255]);
    assert_eq!(hex_rgb("+f0010"), [15, 0, 16]);
    assert_eq!(hex_rgb("zz0010"), [255, 0, 16]);
    assert_eq!(hex_rgb("fff"), [255, 255, 255]);
    assert_eq!(hex_rgb(""), [255, 255, 255]);
}

fn zones_with_primary(spec: LedSpec) -> NamedMap<LedSpec> {
    let mut z = NamedMap::new();
    z.insert("primary".to_string(), spec);
    z
}

#[test]
fn lighting_menu_items() {
    let mut base = LedSpec::new("cycle", [1, 2, 3], 40, Some("slow"));
    let zones = zones_with_primary(base.clone());
    match led_menu_update("primary:off", &zones) {
        LedMenuOutcome::Apply { zone, spec } => {
            assert_eq!(zone, 0);
            assert!(spec.off);
            assert_eq!(spec.effect, "cycle");
        }
        other => panic!("unexpected {other:?}"),
    }
    match led_menu_update("primary:solid:00ff00", &zones) {
        LedMenuOutcome::Apply { spec, .. } => {
            assert!(!spec.off);
            assert_eq!(spec.effect, "solid");
            assert_eq!(spec.rgb, [0, 255, 0]);
            assert_eq!(spec.brightness, 40);
        }
        other => panic!("unexpected {other:?}"),
    }
    match led_menu_update("logo:breathing", &zones) {
        LedMenuOutcome::Apply { zone, spec } => {
            assert_eq!(zone, 1);
            assert_eq!(spec.effect, "breathing");
            // The logo zone is not configured: the rest comes from the default.
            let d = default_led_spec();
            assert_eq!(spec.rgb, d.rgb);
            assert_eq!(spec.brightness, d.brightness);
        }
        other => panic!("unexpected {other:?}"),
    }
    assert!(matches!(
        led_menu_update("primary:custom:breathing", &zones),
        LedMenuOutcome::PickColor { zone: 0, ref effect } if effect == "breathing"
    ));
    match led_menu_update("primary:bright:75", &zones) {
        LedMenuOutcome::Apply { spec, .. } => assert_eq!(spec.brightness, 75),
        other => panic!("unexpected {other:?}"),
    }
    match led_menu_update("primary:bright:300", &zones) {
        LedMenuOutcome::Apply { spec, .. } => assert_eq!(spec.brightness, 40),
        other => panic!("unexpected {other:?}"),
    }
    match led_menu_update("primary:rate:fast", &zones) {
        LedMenuOutcome::Apply { spec, .. } => assert_eq!(spec.rate.as_deref(), Some("fast")),
        other => panic!("unexpected {other:?}"),
    }
    base.off = true;
    let off_zones = zones_with_primary(base);
    assert!(matches!(led_menu_update("primary:rate:fast", &off_zones), LedMenuOutcome::SaveOnly { zone: 0, .. }));
    assert!(matches!(led_menu_update("middle:off", &zones), LedMenuOutcome::Ignore));
    assert!(matches!(led_menu_update("primary:spin:1", &zones), LedMenuOutcome::Ignore));
    assert!(matches!(led_menu_update("primary", &zones), LedMenuOutcome::Ignore));
}

#[test]
fn menu_texts() {
    let mut snap = Snapshot::default();
    assert_eq!(header_text(&snap), "G502 未连接");
    assert_eq!(battery_line(&snap), "");
    assert_eq!(panel_status(&snap), ("🔋 未连接".to_string(), "未知"));
    snap.device_desc = Some("G502 X PLUS".into());
    snap.battery = Some(battery(64, false, Some(3850)));
    snap.mode = Some(OnboardMode::Host);
    assert_eq!(header_text(&snap), "G502 X PLUS");
    assert_eq!(battery_line(&snap), "🔋 64% 放电中 · 3850mV");
    assert_eq!(panel_status(&snap), ("🔋 64%".to_string(), "主机控制"));
    snap.battery = Some(battery(90, true, None));
    assert_eq!(battery_line(&snap), "⚡️ 90% 放电中");
    assert_eq!(mode_texts(Some(OnboardMode::Host)), ("模式: 主机控制 · 自动恢复 DPI", Some("切换到板载模式"), true));
    assert_eq!(mode_texts(None), ("", None, false));
}

#[test]
fn mode_toggle_and_profile_targets() {
    assert_eq!(mode_toggle_target(Some(OnboardMode::Host)), OnboardMode::Onboard);
    assert_eq!(mode_toggle_target(Some(OnboardMode::Onboard)), OnboardMode::Host);
    assert_eq!(mode_toggle_target(None), OnboardMode::Host);
    let mut p = Profile { dpi_levels: vec![400, 1600], active_dpi: None, led: None };
    assert_eq!(profile_target_dpi(&p), Some(1600));
    p.active_dpi = Some(800);
    assert_eq!(profile_target_dpi(&p), Some(800));
    let empty = Profile { dpi_levels: vec![], active_dpi: None, led: None };
    assert_eq!(profile_target_dpi(&empty), None);
}

#[test]
fn cli_arguments() {
    assert_eq!(led_zones_arg("all"), Ok(vec![0, 1]));
    assert_eq!(led_zones_arg("logo"), Ok(vec![1]));
    assert_eq!(led_zones_arg("0"), Ok(vec![0]));
    assert_eq!(led_zones_arg("wheel"), Err("未知分区: wheel (primary/logo/all)".to_string()));
    assert_eq!(color_arg(None), Ok(None));
    assert_eq!(color_arg(Some("FF8000")), Ok(Some([255, 128, 0])));
    assert_eq!(color_arg(Some("ff80")), Err("颜色必须是 6 位十六进制 RRGGBB".to_string()));
    assert_eq!(color_arg(Some("gg8000")), Err("invalid digit found in string".to_string()));
    assert_eq!(onboard_action("get"), Ok(OnboardAction::Get));
    assert_eq!(onboard_action("host"), Ok(OnboardAction::Switch(OnboardMode::Host)));
    assert_eq!(onboard_action("onboard"), Ok(OnboardAction::Switch(OnboardMode::Onboard)));
    assert_eq!(onboard_action("off"), Err("未知动作: off (get/host/onboard)".to_string()));
}

#[test]
fn cli_lighting() {
    let base = LedSpec::new("cycle", [9, 9, 9], 50, None);
    let s = cli_led_spec(base.clone(), false, "solid", Some([255, 0, 16]), 70, Some("3000")).unwrap();
    assert!(!s.off);
    assert_eq!(s.effect, "solid");
    assert_eq!(s.rgb, [255, 0, 16]);
    assert_eq!(s.brightness, 70);
    assert_eq!(s.rate.as_deref(), Some("3000"));
    assert_eq!(cli_led_line(0, &s).unwrap(), "主要 灯效 → solid #ff0010 亮度70% 速率3000ms");
    assert_eq!(reported_period(&s), 3000);

    let off = cli_led_spec(base.clone(), true, "solid", None, 70, None).unwrap();
    assert!(off.off);
    assert_eq!(off.effect, "cycle");
    assert_eq!(cli_led_line(1, &off).unwrap(), "标志 灯效 → 关闭");
    assert_eq!(reported_period(&off), 0);

    let keep = cli_led_spec(base.clone(), false, "breathing", None, 20, None).unwrap();
    assert_eq!(keep.rgb, [9, 9, 9]);
    assert_eq!(cli_led_line(0, &keep).unwrap(), "主要 灯效 → breathing #090909 亮度20% 速率默认");

    match cli_led_spec(base, false, "solid", None, 70, Some("500")) {
        Err(HidppError::Invalid(m)) => assert_eq!(m, "速率超出范围: 500ms (官方支持 1000–20000ms)"),
        other => panic!("unexpected {other:?}"),
    }
    assert_eq!(rgb_hex([0, 171, 255]), "#00abff");
}

#[test]
fn rate_text_is_trimmed_and_lowercased() {
    assert_eq!(rate_period_ms(Some(" SLOW ")).unwrap(), 5000);
    assert_eq!(rate_period_ms(Some("Fast")).unwrap(), 1000);
    assert_eq!(rate_period_ms(Some(" 2500 ")).unwrap(), 2500);
    match rate_period_ms(Some("Turbo")) {
        Err(HidppError::Invalid(m)) => assert_eq!(m, "无效速率: Turbo (slow/medium/fast 或毫秒数)"),
        other => panic!("unexpected {other:?}"),
    }
}

#[test]
fn dpi_levels_texts_and_sorting() {
    assert_eq!(levels_desc(&[400, 800, 1600]), "400/800/1600");
    assert_eq!(levels_desc(&[]), "");
    let stepped: Vec<u16> = (1..=20).map(|i| i * 100).collect();
    assert_eq!(levels_desc(&stepped), "100~2000(步进100)");
    let mut uneven = stepped.clone();
    uneven[19] = 5000;
    assert_eq!(levels_desc(&uneven), "20 档");
    assert_eq!(sort_levels(&vec![3200, 400, 1600, 400]), vec![400, 400, 1600, 3200]);
    assert_eq!(add_dpi_level(&vec![400, 3200], 1200), vec![400, 1200, 3200]);
    assert_eq!(add_dpi_level(&vec![400, 3200], 400), vec![400, 3200]);

    let mut cfg = Config::default();
    cfg.desired_mode = DesiredMode::Onboard;
    remember_cli_dpi(&mut cfg, 1000, true);
    assert_eq!(cfg.desired_mode, DesiredMode::Host);
    assert_eq!(cfg.desired_dpi, Some(1000));
    assert_eq!(cfg.dpi_levels, vec![400, 800, 1000, 1600, 3200]);
    remember_cli_dpi(&mut cfg, 2000, false);
    assert_eq!(cfg.desired_dpi, Some(2000));
    assert_eq!(cfg.dpi_levels, vec![400, 800, 1000, 1600, 3200]);
}

#[test]
fn cli_status_lines() {
    assert_eq!(status_mode_line(&Some(Ok(OnboardMode::Host))), "模式   : 主机控制模式");
    assert_eq!(status_mode_line(&None), "模式   : 设备不支持 0x8100");
    assert!(status_mode_line(&Some(Err(HidppError::Io("x".into())))).starts_with("模式   : 读取失败: "));
    assert_eq!(onboard_get_line(&None), Ok("设备不支持板载模式 feature".to_string()));
    assert!(onboard_get_line(&Some(Err(HidppError::Io("x".into())))).unwrap_err().starts_with("读取失败: "));
    assert_eq!(status_battery_line(&battery(55, true, Some(3900))), "电池   : 55% ⚡放电中, 3900 mV");
    assert_eq!(status_battery_line(&battery(55, false, None)), "电池   : 55% 放电中");
    assert_eq!(battery_text(&battery(7, false, Some(3500))), "7%  放电中  (3500 mV)");
    let m = MacroBinding { name: Some("复制".into()), enabled: false, actions: vec![] };
    assert_eq!(macro_list_line("mouse3", &m), "mouse3: 复制  停用");
    let p = Profile { dpi_levels: vec![400, 800], active_dpi: None, led: Some(LedSpec::new("cycle", [0, 0, 0], 100, None)) };
    assert_eq!(profile_list_line("办公", &p), "办公: DPI [400, 800], LED cycle");
    let bare = Profile { dpi_levels: vec![], active_dpi: None, led: None };
    assert_eq!(profile_list_line("空", &bare), "空: DPI []");
}

#[test]
fn low_battery_alert_rule() {
    assert!(should_alert(false, 15, 15, 1_800_001));
    assert!(!should_alert(false, 15, 15, 1_800_000));
    assert!(!should_alert(true, 5, 15, 9_000_000));
    assert!(!should_alert(false, 16, 15, 9_000_000));
}

#[test]
fn panel_helpers() {
    let mut canvas = CanvasState::new();
    assert_eq!(canvas.mode, CanvasMode::Top);
    assert!(canvas.set_mode(CanvasMode::Side));
    assert!(!canvas.set_mode(CanvasMode::Side));
    canvas.clicked_key = Some("G7".into());
    assert_eq!(canvas.take_clicked_key().as_deref(), Some("G7"));
    assert_eq!(canvas.take_clicked_key(), None);

    let mut panel = PopoverPanel::new();
    assert!(!panel.poll_open_request());
    panel.request_show();
    assert!(panel.poll_open_request());
    assert!(!panel.poll_open_request());

    assert_eq!(PopoverPanel::switch_mouse_view(0), CanvasMode::Top);
    assert_eq!(PopoverPanel::switch_mouse_view(1), CanvasMode::Side);
    assert_eq!(PopoverPanel::zone_key_for(2), "logo");
    assert_eq!(PopoverPanel::zone_key_for(0), "primary");
    assert_eq!(PopoverPanel::rate_from_slider(0), 2000);
    assert_eq!(PopoverPanel::rate_from_slider(2449), 2400);
    assert_eq!(PopoverPanel::rate_from_slider(2450), 2500);
    assert_eq!(PopoverPanel::rate_from_slider(300), 1000);
    assert_eq!(PopoverPanel::rate_from_slider(15000), 10000);
    assert_eq!(PopoverPanel::rate_for_label(12000), 10000);
    assert_eq!(PopoverPanel::rate_pace(1500), "快");
    assert_eq!(PopoverPanel::rate_pace(3000), "适中");
    assert_eq!(PopoverPanel::rate_pace(6000), "舒缓");
    assert_eq!(PopoverPanel::rate_pace(6001), "慢速");
    assert_eq!(PopoverPanel::color_label_text([255, 102, 0], 1), "选定: 橙 · #ff6600");
    assert_eq!(PopoverPanel::color_label_text([1, 2, 3], 3), "选定: 自定义 · #010203");
    assert_eq!(PopoverPanel::color_label_text([1, 2, 3], 0), "灯效已关闭");
    let s = PopoverPanel::panel_spec(2, [1, 2, 3], 60, 4000);
    assert_eq!((s.off, s.effect.as_str(), s.brightness, s.rate.as_deref()), (false, "cycle", 60, Some("4000")));
    assert!(PopoverPanel::panel_spec(0, [1, 2, 3], 60, 4000).off);
}

#[test]
fn panel_shows_the_live_lighting_first() {
    let mut live = LiveLedState::new();
    let zones = zones_with_primary(LedSpec::new("solid", [1, 1, 1], 10, None));
    assert_eq!(PopoverPanel::current_spec(1, &live, &zones).effect, "solid");
    let logo = PopoverPanel::current_spec(2, &live, &zones);
    assert_eq!((logo.effect.as_str(), logo.rgb), ("breathing", [0, 200, 255]));
    schedule_live_led(&mut live, TargetZone::Single(0), LedSpec::new("cycle", [2, 2, 2], 20, None), 0);
    assert_eq!(PopoverPanel::current_spec(1, &live, &zones).effect, "cycle");
    assert_eq!(PopoverPanel::current_spec(2, &live, &zones).effect, "breathing");
}

#[test]
fn probe_lines() {
    assert_eq!(known_name(0x8070), "ColorLEDEffects");
    assert_eq!(known_name(0x4242), "");
    assert_eq!(hex(&[0x10, 0xff, 0x0a]), "10 ff 0a");
    assert_eq!(hex(&[]), "");
    assert_eq!(probe_sections("all"), (true, true, true, true, true));
    assert_eq!(probe_sections("dpi"), (false, false, true, false, false));
    assert_eq!(feature_line(0x1004, 6), "  0x1004  index=0x06  UnifiedBattery");
    assert_eq!(raw_probe_line(2, false, &Ok(vec![0x11, 0x01])), ("  f2 short → 11 01".to_string(), false));
    let refused = Err(HidppError::Rejected { code: 2, message: "InvalidArgument".into() });
    assert_eq!(raw_probe_line(3, true, &refused), ("  f3 long  → ✗ InvalidArgument (0x02)".to_string(), false));
    assert_eq!(raw_probe_line(1, true, &Err(HidppError::Timeout("t".into()))).0, "  f1 long  → ⚠ 超时");
    assert!(raw_probe_line(1, true, &Err(HidppError::Io("gone".into()))).1);
    assert_eq!(slot_effect_id(&[0, 0, 0, 0, 0, 0, 0x12, 0x34]), 0x1234);
    assert_eq!(slot_effect_id(&[0, 0]), 0);
    assert_eq!(zone_count(&Some(vec![0, 0, 0, 0, 3])), 3);
    assert_eq!(zone_count(&Some(vec![0, 0, 0, 0, 0])), 1);
    assert_eq!(zone_count(&None), 1);
}

#[test]
fn colour_picker_round_trip() {
    assert_eq!(picker_script([255, 0, 16]), "choose color default color {65535, 0, 4112}");
    assert_eq!(parse_picked_color("{65535, 0, 4112}\n"), Some([255, 0, 16]));
    assert_eq!(parse_picked_color(" {{65535,x, 257, 514}} "), Some([255, 1, 2]));
    assert_eq!(parse_picked_color("{1, 2}"), None);
    assert_eq!(parse_picked_color(""), None);

    let empty: NamedMap<LedSpec> = NamedMap::new();
    assert_eq!(picker_start_rgb(&empty, 0), [255, 255, 255]);
    let fresh = picked_spec(&empty, 1, "breathing", [1, 2, 3]);
    assert_eq!((fresh.off, fresh.effect.as_str(), fresh.rgb, fresh.brightness, fresh.rate.as_deref()),
        (false, "breathing", [1, 2, 3], 100, Some("medium")));
    assert_eq!(picked_text(1, &fresh), "标志 灯效已更新: breathing #010203 亮度100%");

    let mut saved = LedSpec::new("cycle", [9, 9, 9], 30, Some("fast"));
    saved.off = true;
    let zones = zones_with_primary(saved);
    assert_eq!(picker_start_rgb(&zones, 0), [9, 9, 9]);
    let s = picked_spec(&zones, 0, "solid", [4, 5, 6]);
    assert_eq!((s.off, s.effect.as_str(), s.rgb, s.brightness, s.rate.as_deref()),
        (false, "solid", [4, 5, 6], 30, Some("fast")));
}

#[test]
fn panel_reads_a_lighting_back() {
    assert_eq!(PopoverPanel::dpi_presets(), [400, 800, 1600, 3200, 6400]);
    let mut spec = LedSpec::new("cycle", [0, 0, 0], 50, Some("slow"));
    assert_eq!(PopoverPanel::effect_index(&spec), 2);
    assert_eq!(PopoverPanel::rate_slider_value(&spec), 5000);
    spec.rate = Some("20000".into());
    assert_eq!(PopoverPanel::rate_slider_value(&spec), 10000);
    spec.rate = Some("turbo".into());
    assert_eq!(PopoverPanel::rate_slider_value(&spec), 2000);
    spec.rate = None;
    assert_eq!(PopoverPanel::rate_slider_value(&spec), 2000);
    spec.effect = "solid".into();
    assert_eq!(PopoverPanel::effect_index(&spec), 1);
    spec.effect = "rainbow".into();
    assert_eq!(PopoverPanel::effect_index(&spec), 3);
    spec.off = true;
    assert_eq!(PopoverPanel::effect_index(&spec), 0);
}

#[test]
fn panel_macro_texts() {
    assert_eq!(
        panel_macro_status(true, RecordingPhase::Idle),
        ("● 宏引擎就绪 (支持组合键与指定文字)".to_string(), false, "● 宏引擎已开启")
    );
    assert_eq!(
        panel_macro_status(false, RecordingPhase::Idle),
        ("○ 宏引擎已停用 (点击开启以启用按键拦截)".to_string(), false, "○ 宏引擎已停用")
    );
    assert_eq!(panel_macro_status(true, RecordingPhase::AwaitMouse(RecordingKind::Sequence)).0, "👉 请按目标侧键开始录制序列...");
    assert_eq!(
        panel_macro_status(true, RecordingPhase::Sequence { button: 5, events: 12 }),
        ("🔴 录制中 button5: 已捕获 12 个按键事件".to_string(), true, "● 宏引擎已开启")
    );
    assert_eq!(panel_macro_status(true, RecordingPhase::Shortcut { button: 3 }).0, "⌨️ 正在录制 button3: 请按一次键盘快捷键...");
}

#[test]
fn named_map_insert_get_remove() {
    let mut m: NamedMap<u32> = NamedMap::new();
    m.insert("a".to_string(), 1);
    m.insert("b".to_string(), 2);
    m.insert("a".to_string(), 3);
    assert_eq!(m.len(), 2);
    assert_eq!(m.get("a"), Some(&3));
    assert_eq!(m.remove("a"), Some(3));
    assert_eq!(m.remove("a"), None);
    assert!(!m.contains_key("a"));
    assert_eq!(m.get("b"), Some(&2));
    assert_eq!(m.len(), 1);
    assert_eq!(m.remove("b"), Some(2));
    assert!(m.is_empty());
}

#[test]
fn named_map_keeps_names_in_order() {
    let mut m: NamedMap<u32> = NamedMap::new();
    for (k, v) in [("primary", 1), ("logo", 2), ("mouse8", 3), ("log", 4), ("中", 5), ("Z", 6)] {
        m.insert(k.to_string(), v);
    }
    m.insert("logo".to_string(), 7);
    let names: Vec<&str> = m.entries().iter().map(|(k, _)| k.as_str()).collect();
    assert_eq!(names, vec!["Z", "log", "logo", "mouse8", "primary", "中"]);
    let mut sorted = names.clone();
    sorted.sort();
    assert_eq!(names, sorted);
    assert_eq!(m.get("logo"), Some(&7));
}

#[test]
fn rate_aliases_after_trim_and_case() {
    assert_eq!(rate_period_ms(Some("中")).unwrap(), 2000);
    assert_eq!(rate_period_ms(Some(" Slow ")).unwrap(), 5000);
    assert_eq!(rate_period_ms(Some("\u{3000}快\t")).unwrap(), 1000);
    assert_eq!(rate_period_ms(Some("慢")).unwrap(), 5000);
    assert_eq!(rate_period_ms(Some("DEFAULT")).unwrap(), 0);
    for s in [" Mid", "NORMAL ", "1500", "Fast", "x"] {
        let norm = s.trim().to_lowercase();
        assert_eq!(rate_period_ms(Some(s)).ok(), rate_period_ms(Some(&norm)).ok());
    }
}

#[test]
fn poller_rounds() {
    let mut ps = PollState::new(0);
    let mut st = MenuState { snap: Snapshot::default(), dirty: false };
    assert_eq!(device_not_found(&mut st, "无设备".into(), true), 10);
    assert_eq!(st.snap.error.as_deref(), Some("无设备"));
    assert!(st.dirty);
    assert_eq!(device_not_found(&mut st, "无接口".into(), false), 2);

    let applied = AppliedState { mode: OnboardMode::Host, dpi: Some(1600) };
    let desc = "G502 (接收器 slot1, 0xc539, HID++ 4.2)".to_string();
    assert_eq!(device_found(&mut ps, &mut st, desc, battery(80, false, None), Some(applied), true), 5);
    assert!(ps.active && !ps.state_sync_pending && !ps.led_sync_pending);
    assert_eq!(st.snap.dpi, Some(1600));
    assert_eq!(st.snap.mode, Some(OnboardMode::Host));
    assert!(st.snap.error.is_none());

    assert_eq!(battery_read_failed(&mut ps, &mut st, "超时".into(), true), (1, false));
    assert!(ps.active);
    assert_eq!(battery_read_ok(&mut ps, &mut st, battery(79, false, None)), (5, false));
    assert_eq!(ps.battery_failures, 0);
    assert_eq!(st.snap.battery.as_ref().map(|b| b.percent), Some(79));
    assert_eq!(battery_read_failed(&mut ps, &mut st, "超时".into(), true), (1, false));
    assert_eq!(st.snap.dpi, Some(1600));
    assert_eq!(battery_read_failed(&mut ps, &mut st, "超时".into(), true), (2, true));
    assert!(!ps.active && ps.led_sync_pending);
    assert_eq!(st.snap.error.as_deref(), Some("超时"));
    assert!(st.snap.battery.is_none());

    let mut ps2 = PollState::new(1_000);
    ps2.led_sync_pending = false;
    begin_round(&mut ps2, 10_000);
    assert!(!ps2.led_sync_pending);
    begin_round(&mut ps2, 25_000);
    assert!(ps2.led_sync_pending);

    assert_eq!(watch_step(5), (2, 3));
    assert_eq!(watch_step(1), (1, 0));
    assert_eq!(pump_tick(4), (5, true));
    assert_eq!(pump_tick(5), (6, false));
    assert_eq!(pump_tick(u32::MAX), (0, true));
    assert_eq!(pump_refresh(false, false, true), (true, false, false));
    assert_eq!(pump_refresh(true, false, false), (true, true, true));
    assert_eq!(pump_refresh(false, false, false), (false, false, false));
    assert!(!tray_visible(true, false));
    assert!(tray_visible(false, false));
    assert_eq!(first_dpi_to_remember(None, Some(applied)), Some(1600));
    assert_eq!(first_dpi_to_remember(Some(800), Some(applied)), None);
}

#[test]
fn canvas_hit_tests_on_thousandths() {
    let square = vec![(100u16, 100u16), (300, 100), (300, 300), (100, 300)];
    assert!(point_in_polygon(200, 200, &square));
    assert!(!point_in_polygon(400, 200, &square));
    assert!(!point_in_polygon(200, 50, &square));
    let triangle = vec![(0u16, 0u16), (1000, 0), (0, 1000)];
    assert!(point_in_polygon(200, 200, &triangle));
    assert!(!point_in_polygon(700, 700, &triangle));
    assert!(!point_in_polygon(1, 1, &vec![(0u16, 0u16), (10, 10)]));

    assert_eq!(hit_test_key(CanvasMode::Side, 500, 600), Some("G5"));
    assert_eq!(hit_test_key(CanvasMode::Side, 350, 600), Some("G4"));
    assert_eq!(hit_test_key(CanvasMode::Side, 620, 450), Some("G6"));
    assert_eq!(hit_test_key(CanvasMode::Side, 10, 10), None);
    assert_eq!(hit_test_key(CanvasMode::Top, 300, 800), Some("G8"));
    assert_eq!(hit_test_key(CanvasMode::Top, 300, 700), Some("G7"));
    assert_eq!(hit_test_key(CanvasMode::Top, 500, 600), Some("G9"));
    assert_eq!(hit_test_key(CanvasMode::Top, 560, 800), Some("G11"));
    assert_eq!(hit_test_key(CanvasMode::Top, 500, 100), None);
}
