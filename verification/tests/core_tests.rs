use g502hub::config::{empty_action, Action, Config, MacroBinding};
use g502hub::features::battery::BatteryInfo;
use g502hub::features::battery_indicator::{
    bars_for_percent, indicator_spec, tier_for_percent, BatteryIndicatorTier,
};
use g502hub::features::indicator_led::{state_params, BATTERY_LED_INDEX, MODE_OFF, MODE_ON};
use g502hub::features::led::{
    breathing_payload, cycle_payload, effect_id, effect_name, intensity_byte, rate_period_ms,
    scale_rgb, zone_from_key, zone_key, zone_label, ALL_EFFECTS, RATE_FAST_MS, RATE_MEDIUM_MS,
    RATE_SLOW_MS, SLOT_BREATHING, SLOT_CYCLE, SLOT_SOLID, ZONE_LOGO, ZONE_PRIMARY,
};
use g502hub::hidpp::{is_transient_error, HidppError};
use g502hub::macro_engine::{
    close_pressed_keys, record_keyboard, record_mouse, recording_phase, sequence_event,
    take_recording_outcome, MacroTap, RecordingKind, RecordingOutcome, RecordingPhase,
    RecordingState, EVENT_FLAGS_CHANGED, EVENT_KEY_DOWN, EVENT_KEY_UP,
};
use g502hub::macro_keys::{
    button_to_key, combo_name, parse_combo, FLAG_COMMAND, FLAG_CONTROL, FLAG_SHIFT,
};
use g502hub::menu::{is_device_connected, keep_online_after_battery_failure, Snapshot};
use g502hub::named_map::NamedMap;
use g502hub::panel::{side_key_zones, top_key_zones};
use std::collections::HashSet;

#[test]
fn test_default_has_no_profiles() {
    assert!(Config::default().profiles.is_empty());
}

#[test]
fn test_battery_indicator_thresholds_match_ghub() {
    assert_eq!(tier_for_percent(0), BatteryIndicatorTier::Critical);
    assert_eq!(tier_for_percent(15), BatteryIndicatorTier::Critical);
    assert_eq!(tier_for_percent(16), BatteryIndicatorTier::Low);
    assert_eq!(tier_for_percent(30), BatteryIndicatorTier::Low);
    assert_eq!(tier_for_percent(31), BatteryIndicatorTier::Normal);
    assert_eq!(tier_for_percent(100), BatteryIndicatorTier::Normal);
}

#[test]
fn test_battery_bars_mapping() {
    assert_eq!(bars_for_percent(0), 1);
    assert_eq!(bars_for_percent(15), 1);
    assert_eq!(bars_for_percent(16), 1);
    assert_eq!(bars_for_percent(30), 1);
    assert_eq!(bars_for_percent(31), 2);
    assert_eq!(bars_for_percent(50), 2);
    assert_eq!(bars_for_percent(51), 3);
    assert_eq!(bars_for_percent(71), 3);
    assert_eq!(bars_for_percent(100), 3);
}

#[test]
fn test_indicator_specs() {
    let critical = indicator_spec(15);
    assert_eq!(critical.effect, "breathing");
    assert_eq!(critical.rgb, [255, 0, 0]);
    assert_eq!(critical.rate.as_deref(), Some("1000"));

    let low = indicator_spec(20);
    assert_eq!(low.effect, "solid");
    assert_eq!(low.rgb, [255, 160, 0]);

    let normal = indicator_spec(80);
    assert_eq!(normal.effect, "solid");
    assert_eq!(normal.rgb, [0, 255, 0]);
}

#[test]
fn test_led_state_payloads() {
    assert_eq!(
        state_params(BATTERY_LED_INDEX, MODE_ON, 1, 0, 0),
        [0, 0, 2, 0, 1, 0, 0, 0, 0]
    );
    assert_eq!(
        state_params(BATTERY_LED_INDEX, MODE_ON, 2, 0, 0),
        [0, 0, 2, 0, 2, 0, 0, 0, 0]
    );
    assert_eq!(
        state_params(BATTERY_LED_INDEX, MODE_ON, 3, 0, 0),
        [0, 0, 2, 0, 3, 0, 0, 0, 0]
    );
    assert_eq!(
        state_params(BATTERY_LED_INDEX, MODE_OFF, 0, 0, 0),
        [0, 0, 1, 0, 0, 0, 0, 0, 0]
    );
}

#[test]
fn test_effect_layout_constants() {
    assert_eq!(&ALL_EFFECTS[..], &[0x01, 0x0A, 0x03]);
    assert_eq!(effect_id("solid"), Some(0x01));
    assert_eq!(effect_id("cycle"), Some(0x03));
    assert_eq!(effect_id("breathing"), Some(0x0A));
    assert_eq!(effect_id("off"), Some(0x00));
    assert_eq!(effect_id("wave"), None);
    assert_eq!(intensity_byte(100), 255);
    assert_eq!(intensity_byte(50), 127);
    assert_eq!(intensity_byte(0), 0);
    assert_eq!(scale_rgb([255, 100, 0], 50), [127, 50, 0]);
    assert_eq!(scale_rgb([200, 200, 200], 100), [200, 200, 200]);
    assert_eq!(scale_rgb([255, 255, 255], 0), [0, 0, 0]);
    assert_eq!(SLOT_SOLID, 1);
    assert_eq!(SLOT_CYCLE, 2);
    assert_eq!(SLOT_BREATHING, 3);
    assert!(is_transient_error(&HidppError::Timeout("test".into())));
    assert!(is_transient_error(&HidppError::Rejected {
        code: 0x09,
        message: "busy".into(),
    }));
    assert!(!is_transient_error(&HidppError::Invalid("bad".into())));
    assert!(!is_transient_error(&HidppError::Rejected {
        code: 0x03,
        message: "invalid value".into(),
    }));
}

#[test]
fn test_rate_period_mapping() {
    assert_eq!(rate_period_ms(None).unwrap(), 0);
    assert_eq!(rate_period_ms(Some("")).unwrap(), 0);
    assert_eq!(rate_period_ms(Some("slow")).unwrap(), RATE_SLOW_MS);
    assert_eq!(rate_period_ms(Some("medium")).unwrap(), RATE_MEDIUM_MS);
    assert_eq!(rate_period_ms(Some("fast")).unwrap(), RATE_FAST_MS);
    assert_eq!(rate_period_ms(Some("1500")).unwrap(), 1500);
    assert!(rate_period_ms(Some("bogus")).is_err());
    assert!(rate_period_ms(Some("50")).is_err());
    assert!(rate_period_ms(Some("999")).is_err());
    assert_eq!(rate_period_ms(Some("1000")).unwrap(), 1000);
    assert_eq!(rate_period_ms(Some("20000")).unwrap(), 20000);
    assert!(rate_period_ms(Some("20001")).is_err());
}

#[test]
fn test_effect_and_zone_labels() {
    assert_eq!(effect_id("breathing"), Some(0x0A));
    assert_eq!(effect_name(0x0A), "breathing");
    assert_eq!(zone_from_key("primary"), Some(ZONE_PRIMARY));
    assert_eq!(zone_from_key("logo"), Some(ZONE_LOGO));
    assert_eq!(zone_from_key("bogus"), None);
    assert_eq!(zone_key(ZONE_LOGO), "logo");
    assert_eq!(zone_label(ZONE_PRIMARY), "主要");
}

#[test]
fn test_breathing_cycle_payload_layout() {
    let period_ms: u16 = 2000;
    let brightness: u8 = 80;
    let rgb = [0x00, 0xC8, 0xFF];
    let p_breathing: [u8; 16] = [
        0,
        SLOT_BREATHING,
        rgb[0],
        rgb[1],
        rgb[2],
        (period_ms >> 8) as u8,
        (period_ms & 0xff) as u8,
        0x00,
        brightness,
        0,
        0,
        0,
        0,
        0,
        0,
        0,
    ];
    assert_eq!(p_breathing[0], 0);
    assert_eq!(p_breathing[1], 3);
    assert_eq!(&p_breathing[2..5], &[0x00, 0xC8, 0xFF]);
    assert_eq!(p_breathing[5], 0x07);
    assert_eq!(p_breathing[6], 0xD0);
    assert_eq!(p_breathing[7], 0x00);
    assert_eq!(p_breathing[8], 80);
    assert_eq!(breathing_payload(0, rgb, period_ms, brightness), p_breathing);

    let p_cycle: [u8; 16] = [
        0,
        SLOT_CYCLE,
        0,
        0,
        0,
        0,
        0,
        (period_ms >> 8) as u8,
        (period_ms & 0xff) as u8,
        brightness,
        0,
        0,
        0,
        0,
        0,
        0,
    ];
    assert_eq!(p_cycle[0], 0);
    assert_eq!(p_cycle[1], 2);
    assert_eq!(&p_cycle[2..7], &[0, 0, 0, 0, 0]);
    assert_eq!(p_cycle[7], 0x07);
    assert_eq!(p_cycle[8], 0xD0);
    assert_eq!(p_cycle[9], 80);
    assert_eq!(cycle_payload(0, period_ms, brightness), p_cycle);
}

#[test]
fn test_button_to_key() {
    assert_eq!(button_to_key(0), Some("mouse0"));
    assert_eq!(button_to_key(3), Some("mouse3"));
    assert_eq!(button_to_key(4), Some("mouse4"));
    assert_eq!(button_to_key(31), Some("mouse31"));
    assert_eq!(button_to_key(32), None);
    assert_eq!(button_to_key(-1), None);
}

#[test]
fn test_parse_combo() {
    let (flags, code) = parse_combo("cmd+c").expect("parse cmd+c");
    assert_eq!(flags, FLAG_COMMAND);
    assert_eq!(code, 8);

    let (flags2, code2) = parse_combo("ctrl+shift+a").expect("parse ctrl+shift+a");
    assert_eq!(flags2, FLAG_CONTROL | FLAG_SHIFT);
    assert_eq!(code2, 0);

    assert!(parse_combo("invalid_key_name_xyz").is_err());
}

#[test]
fn test_combo_name_round_trip() {
    let combos = ["cmd+c", "ctrl+shift+a", "alt+f4", "cmd+shift+4"];
    for combo in combos {
        let (flags, code) = parse_combo(combo).unwrap();
        assert_eq!(combo_name(flags, code).as_deref(), Some(combo));
    }
}

#[test]
fn test_sequence_event_building() {
    let mut actions = Vec::new();
    let mut last: u64 = 1_000;
    sequence_event(&mut actions, &mut last, 1_000, 8, FLAG_COMMAND, true);
    sequence_event(&mut actions, &mut last, 1_040, 8, FLAG_COMMAND, false);
    let events: Vec<_> = actions.iter().filter(|a| a.keycode.is_some()).collect();
    assert_eq!(events.len(), 2);
    assert_eq!(events[0].key_down, Some(true));
    assert_eq!(events[1].key_down, Some(false));
    assert_eq!(events[0].modifiers, vec!["cmd"]);
}

#[test]
fn test_close_pressed_keys() {
    let mut press = empty_action();
    press.keycode = Some(8);
    press.key_down = Some(true);
    press.modifiers = vec!["cmd".into()];
    let mut actions = vec![press];
    close_pressed_keys(&mut actions);
    assert_eq!(actions.len(), 2);
    assert_eq!(actions[1].keycode, Some(8));
    assert_eq!(actions[1].key_down, Some(false));
    assert_eq!(actions[1].modifiers, vec!["cmd"]);
}

#[test]
fn test_sequence_skips_auto_repeat() {
    let mut tap = MacroTap::new(NamedMap::new());
    tap.recording = RecordingState::Sequence {
        button: 4,
        last_event: 0,
        actions: Vec::new(),
        mouse_up_pending: false,
    };
    assert!(record_keyboard(&mut tap, EVENT_KEY_DOWN, 8, 0, 10));
    assert!(record_keyboard(&mut tap, EVENT_KEY_DOWN, 8, 0, 40));
    assert!(record_keyboard(&mut tap, EVENT_KEY_UP, 8, 0, 90));
    let RecordingState::Sequence { actions, .. } = &tap.recording else {
        panic!("expected sequence state");
    };
    let events: Vec<_> = actions.iter().filter(|a| a.keycode.is_some()).collect();
    assert_eq!(events.len(), 2, "auto-repeat 不应产生新事件");
    assert_eq!(events[0].key_down, Some(true));
    assert_eq!(events[1].key_down, Some(false));
}

#[test]
fn test_recording_state_transitions() {
    let mut tap = MacroTap::new(NamedMap::new());
    tap.recording = RecordingState::AwaitMouse {
        kind: RecordingKind::Shortcut,
        started: 0,
    };
    assert!(record_mouse(&mut tap, 7, true, 100));
    assert_eq!(recording_phase(&tap), RecordingPhase::Shortcut { button: 7 });
    assert!(record_keyboard(&mut tap, EVENT_KEY_DOWN, 8, FLAG_COMMAND, 200));
    assert!(record_keyboard(&mut tap, EVENT_KEY_UP, 8, FLAG_COMMAND, 300));
    assert!(record_keyboard(&mut tap, EVENT_FLAGS_CHANGED, 55, 0, 400));
    let Some(RecordingOutcome::Completed(result)) = take_recording_outcome(&mut tap) else {
        panic!("expected completed recording");
    };
    assert_eq!(result.button, 7);
    assert_eq!(result.label, "cmd+c");
    assert_eq!(result.actions[0].keys.as_deref(), Some("cmd+c"));
}

#[test]
fn temporary_battery_failure_keeps_device_visible() {
    assert!(keep_online_after_battery_failure(1, true));
    assert!(!keep_online_after_battery_failure(2, true));
    assert!(!keep_online_after_battery_failure(1, false));
}

#[test]
fn test_is_device_connected() {
    let mut snap = Snapshot::default();
    assert!(!is_device_connected(&snap));

    snap.device_desc = Some("G502 LIGHTSPEED".into());
    assert!(!is_device_connected(&snap));

    snap.battery = Some(BatteryInfo {
        percent: 80,
        charging: false,
        voltage_mv: Some(3900),
        state_text: "放电中".into(),
    });
    assert!(is_device_connected(&snap));
}

#[test]
fn test_top_zones_coverage_and_uniqueness() {
    let mut keys = HashSet::new();
    for z in top_key_zones() {
        assert!(keys.insert(z.key), "Duplicate key in TOP_KEY_ZONES: {}", z.key);
        assert!(z.points.len() >= 3);
        for &(x, y) in &z.points {
            let (x, y) = (x as f64 / 1000.0, y as f64 / 1000.0);
            assert!((0.0..=1.0).contains(&x));
            assert!((0.0..=1.0).contains(&y));
        }
    }
    for expected in ["G7", "G8", "G9", "G10", "G11"] {
        assert!(keys.contains(expected), "Missing top key: {expected}");
    }
}

#[test]
fn test_side_zones_coverage_and_uniqueness() {
    let mut keys = HashSet::new();
    for z in side_key_zones() {
        assert!(keys.insert(z.key), "Duplicate key in SIDE_KEY_ZONES: {}", z.key);
        assert!(z.points.len() >= 3);
        for &(x, y) in &z.points {
            let (x, y) = (x as f64 / 1000.0, y as f64 / 1000.0);
            assert!((0.0..=1.0).contains(&x));
            assert!((0.0..=1.0).contains(&y));
        }
    }
    for expected in ["G4", "G5", "G6"] {
        assert!(keys.contains(expected), "Missing side key: {expected}");
    }
}

#[test]
fn test_macro_tap_bindings_and_atomic_state() {
    let mut initial_bindings = NamedMap::new();
    initial_bindings.insert(
        "mouse3".to_string(),
        MacroBinding {
            name: Some("测试".into()),
            enabled: true,
            actions: vec![Action {
                keys: Some("cmd+c".into()),
                text: None,
                keycode: None,
                delay_ms: None,
                key_down: None,
                modifiers: Vec::new(),
            }],
        },
    );

    let mut tap = MacroTap::new(initial_bindings);
    assert!(!tap.is_running());

    {
        let b = tap.bindings();
        assert!(b.contains_key("mouse3"));
        assert!(b.get("mouse3").unwrap().enabled);
    }

    let mut updated_bindings = NamedMap::new();
    updated_bindings.insert(
        "mouse4".to_string(),
        MacroBinding {
            name: Some("前进".into()),
            enabled: false,
            actions: vec![],
        },
    );
    tap.update_bindings(updated_bindings);

    {
        let b = tap.bindings();
        assert!(!b.contains_key("mouse3"));
        assert!(b.contains_key("mouse4"));
        assert!(!b.get("mouse4").unwrap().enabled);
    }

    tap.last_button = 4;
    assert_eq!(tap.last_button(), Some(4));
    assert_eq!(g502hub::macro_engine::last_button(&tap), Some(4));

    tap.last_button = -1;
    assert_eq!(tap.last_button(), None);
}
