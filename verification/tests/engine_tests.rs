use g502hub::config::{empty_action, Action, Config, DesiredMode, LedSpec, MacroBinding};
use g502hub::controller::{
    get_live_dpi, get_live_spec_for_zone, lighting_synced, live_dpi_step, replays_lighting, live_led_step, persist_dpi_update,
    persist_led_update, schedule_live_dpi, schedule_live_led, AppliedState, ApplyEvent, ApplyRequest,
    ApplyRun, LiveDpiState, LiveDpiStep, LiveLedState, LiveLedStep, TargetZone,
};
use g502hub::features::onboard::OnboardMode;
use g502hub::hidpp::HidppError;
use g502hub::macro_engine::{
    handle_event, playback_step, recording_phase, take_recording_outcome, MacroTap, PlaybackStep,
    RecordingKind, RecordingOutcome, RecordingPhase, TapEvent, TapVerdict, EVENT_KEY_DOWN,
    EVENT_KEY_UP, EVENT_OTHER_MOUSE_DOWN, EVENT_OTHER_MOUSE_UP, EVENT_TAP_DISABLED_BY_TIMEOUT,
    PLAYBACK_EVENT_TAG,
};
use g502hub::macro_keys::{parse_combo, FLAG_COMMAND};
use g502hub::named_map::NamedMap;

fn mouse(etype: u64, button: i64) -> TapEvent {
    TapEvent { etype: etype as u32, user_data: 0, keycode: 0, flags: 0, button }
}

fn key(etype: u64, code: i64, flags: u64) -> TapEvent {
    TapEvent { etype: etype as u32, user_data: 0, keycode: code, flags, button: -1 }
}

fn combo_binding(keys: &str, enabled: bool) -> MacroBinding {
    let mut a = empty_action();
    a.keys = Some(keys.to_string());
    MacroBinding { name: Some("复制".into()), enabled, actions: vec![a] }
}

fn running_tap(bindings: NamedMap<MacroBinding>) -> MacroTap {
    let mut tap = MacroTap::new(bindings);
    tap.running = true;
    tap
}

#[test]
fn tap_reenables_and_lets_playback_through() {
    let mut tap = running_tap(NamedMap::new());
    let v = handle_event(&mut tap, mouse(EVENT_TAP_DISABLED_BY_TIMEOUT, 3), 0);
    assert!(matches!(v, TapVerdict::Reenable));
    let mut posted = key(EVENT_KEY_DOWN, 8, 0);
    posted.user_data = PLAYBACK_EVENT_TAG;
    assert!(matches!(handle_event(&mut tap, posted, 0), TapVerdict::Pass));
    // A key while nothing records is not the tap's business.
    assert!(matches!(handle_event(&mut tap, key(EVENT_KEY_DOWN, 8, 0), 0), TapVerdict::Pass));
}

#[test]
fn bound_button_plays_its_macro() {
    let mut b = NamedMap::new();
    b.insert("mouse4".to_string(), combo_binding("cmd+c", true));
    b.insert("mouse5".to_string(), combo_binding("cmd+v", false));
    let mut tap = running_tap(b);

    match handle_event(&mut tap, mouse(EVENT_OTHER_MOUSE_DOWN, 4), 10) {
        TapVerdict::Play(actions) => {
            assert_eq!(actions.len(), 1);
            assert_eq!(actions[0].keys.as_deref(), Some("cmd+c"));
        }
        other => panic!("expected playback, got {other:?}"),
    }
    assert!(matches!(handle_event(&mut tap, mouse(EVENT_OTHER_MOUSE_UP, 4), 20), TapVerdict::Swallow));
    assert_eq!(tap.last_button(), Some(4));
    // A disabled binding and an unbound button leave the event alone.
    assert!(matches!(handle_event(&mut tap, mouse(EVENT_OTHER_MOUSE_DOWN, 5), 30), TapVerdict::Pass));
    assert!(matches!(handle_event(&mut tap, mouse(EVENT_OTHER_MOUSE_DOWN, 9), 40), TapVerdict::Pass));
    assert_eq!(tap.last_button(), Some(9));
}

#[test]
fn begin_recording_needs_a_running_tap() {
    let mut tap = MacroTap::new(NamedMap::new());
    assert_eq!(tap.begin_recording(RecordingKind::Shortcut, 0), Err("宏引擎尚未运行".to_string()));
    assert_eq!(recording_phase(&tap), RecordingPhase::Idle);
    tap.running = true;
    let before = tap.serial;
    assert_eq!(tap.begin_recording(RecordingKind::Sequence, 5), Ok(()));
    assert_eq!(recording_phase(&tap), RecordingPhase::AwaitMouse(RecordingKind::Sequence));
    assert_ne!(tap.serial, before);
}

#[test]
fn shortcut_recorded_through_the_tap() {
    let mut tap = running_tap(NamedMap::new());
    tap.begin_recording(RecordingKind::Shortcut, 0).unwrap();
    // The button to bind is kept from the system, press and release.
    assert!(matches!(handle_event(&mut tap, mouse(EVENT_OTHER_MOUSE_DOWN, 6), 100), TapVerdict::Swallow));
    assert!(matches!(handle_event(&mut tap, mouse(EVENT_OTHER_MOUSE_UP, 6), 150), TapVerdict::Swallow));
    assert_eq!(recording_phase(&tap), RecordingPhase::Shortcut { button: 6 });
    assert!(matches!(handle_event(&mut tap, key(EVENT_KEY_DOWN, 9, FLAG_COMMAND), 200), TapVerdict::Swallow));
    assert!(matches!(handle_event(&mut tap, key(EVENT_KEY_UP, 9, 0), 250), TapVerdict::Swallow));
    assert_eq!(recording_phase(&tap), RecordingPhase::Idle);
    match take_recording_outcome(&mut tap) {
        Some(RecordingOutcome::Completed(r)) => {
            assert_eq!(r.button, 6);
            assert_eq!(r.kind, RecordingKind::Shortcut);
            assert_eq!(r.label, "cmd+v");
            assert_eq!(r.actions[0].keys.as_deref(), Some("cmd+v"));
        }
        other => panic!("expected a completed shortcut, got {other:?}"),
    }
    assert!(take_recording_outcome(&mut tap).is_none());
}

#[test]
fn sequence_recorded_and_finished() {
    let mut tap = running_tap(NamedMap::new());
    tap.begin_recording(RecordingKind::Sequence, 0).unwrap();
    handle_event(&mut tap, mouse(EVENT_OTHER_MOUSE_DOWN, 4), 10);
    handle_event(&mut tap, mouse(EVENT_OTHER_MOUSE_UP, 4), 20);
    assert!(matches!(handle_event(&mut tap, key(EVENT_KEY_DOWN, 0, 0), 100), TapVerdict::Swallow));
    assert!(matches!(handle_event(&mut tap, key(EVENT_KEY_UP, 0, 0), 150), TapVerdict::Swallow));
    assert_eq!(recording_phase(&tap), RecordingPhase::Sequence { button: 4, events: 2 });
    let r = tap.finish_sequence().unwrap();
    assert_eq!(r.button, 4);
    assert_eq!(r.kind, RecordingKind::Sequence);
    assert_eq!(r.label, "按键序列（2 个事件）");
    assert_eq!(r.actions.len(), 3);
    assert_eq!(r.actions[0].key_down, Some(true));
    assert_eq!(r.actions[1].delay_ms, Some(50));
    assert_eq!(r.actions[2].key_down, Some(false));
    assert_eq!(recording_phase(&tap), RecordingPhase::Idle);
}

#[test]
fn finishing_a_sequence_releases_held_keys() {
    let mut tap = running_tap(NamedMap::new());
    tap.begin_recording(RecordingKind::Sequence, 0).unwrap();
    handle_event(&mut tap, mouse(EVENT_OTHER_MOUSE_DOWN, 4), 10);
    handle_event(&mut tap, key(EVENT_KEY_DOWN, 56, 0), 30);
    let r = tap.finish_sequence().unwrap();
    assert_eq!(r.label, "按键序列（2 个事件）");
    assert_eq!(r.actions.len(), 2);
    assert_eq!(r.actions[1].keycode, Some(56));
    assert_eq!(r.actions[1].key_down, Some(false));
}

#[test]
fn finish_sequence_errors() {
    let mut tap = running_tap(NamedMap::new());
    assert_eq!(tap.finish_sequence().unwrap_err(), "当前没有正在录制的按键序列");
    tap.begin_recording(RecordingKind::Sequence, 0).unwrap();
    handle_event(&mut tap, mouse(EVENT_OTHER_MOUSE_DOWN, 4), 10);
    assert_eq!(tap.finish_sequence().unwrap_err(), "未录到键盘事件");
    assert_eq!(recording_phase(&tap), RecordingPhase::Idle);
}

#[test]
fn recordings_expire_and_cancel() {
    let mut tap = running_tap(NamedMap::new());
    tap.begin_recording(RecordingKind::Shortcut, 1_000).unwrap();
    tap.expire_recording(20_999);
    assert_eq!(recording_phase(&tap), RecordingPhase::AwaitMouse(RecordingKind::Shortcut));
    tap.expire_recording(21_000);
    assert_eq!(recording_phase(&tap), RecordingPhase::Idle);
    match take_recording_outcome(&mut tap) {
        Some(RecordingOutcome::Cancelled(m)) => assert_eq!(m, "等待鼠标按键超时；该按键可能未暴露给主机"),
        other => panic!("expected a timeout, got {other:?}"),
    }

    tap.begin_recording(RecordingKind::Shortcut, 0).unwrap();
    handle_event(&mut tap, mouse(EVENT_OTHER_MOUSE_DOWN, 6), 0);
    tap.expire_recording(30_000);
    match take_recording_outcome(&mut tap) {
        Some(RecordingOutcome::Cancelled(m)) => assert_eq!(m, "等待快捷键超时"),
        other => panic!("expected a timeout, got {other:?}"),
    }

    tap.begin_recording(RecordingKind::Sequence, 0).unwrap();
    handle_event(&mut tap, mouse(EVENT_OTHER_MOUSE_DOWN, 6), 0);
    tap.expire_recording(120_000);
    match take_recording_outcome(&mut tap) {
        Some(RecordingOutcome::Cancelled(m)) => assert_eq!(m, "按键序列录制空闲超时"),
        other => panic!("expected a timeout, got {other:?}"),
    }

    tap.begin_recording(RecordingKind::Sequence, 0).unwrap();
    tap.cancel_recording("用户取消".to_string());
    assert_eq!(recording_phase(&tap), RecordingPhase::Idle);
    match take_recording_outcome(&mut tap) {
        Some(RecordingOutcome::Cancelled(m)) => assert_eq!(m, "用户取消"),
        other => panic!("expected a cancellation, got {other:?}"),
    }
    // An idle recorder has nothing to cancel.
    tap.cancel_recording("再次取消".to_string());
    assert!(take_recording_outcome(&mut tap).is_none());
}

#[test]
fn playback_steps() {
    let mut delay = empty_action();
    delay.delay_ms = Some(120);
    delay.keys = Some("cmd+c".into());
    assert!(matches!(playback_step(&delay), Ok(Some(PlaybackStep::Pause(120)))));

    let mut combo = empty_action();
    combo.keys = Some(" CMD + C ".into());
    let (flags, code) = parse_combo("cmd+c").unwrap();
    match playback_step(&combo) {
        Ok(Some(PlaybackStep::Combo { flags: f, code: c })) => {
            assert_eq!((f, c), (flags, code));
            assert_eq!(f, FLAG_COMMAND);
        }
        other => panic!("expected a combination, got {other:?}"),
    }

    let mut bad = empty_action();
    bad.keys = Some("cmd+nosuchkey".into());
    assert_eq!(playback_step(&bad).unwrap_err(), "无法解析按键: cmd+nosuchkey");

    let mut text = empty_action();
    text.text = Some("你好".into());
    assert!(matches!(playback_step(&text), Ok(Some(PlaybackStep::Text(ref t))) if t == "你好"));
    text.text = Some(String::new());
    assert!(matches!(playback_step(&text), Ok(None)));

    let raw = Action {
        keys: None,
        text: None,
        keycode: Some(8),
        delay_ms: None,
        key_down: Some(false),
        modifiers: vec!["cmd".into()],
    };
    match playback_step(&raw) {
        Ok(Some(PlaybackStep::Keys { code, flags, down })) => {
            assert_eq!(code, 8);
            assert_eq!(flags, FLAG_COMMAND);
            assert_eq!(down, Some(false));
        }
        other => panic!("expected a key event, got {other:?}"),
    }
    assert!(matches!(playback_step(&empty_action()), Ok(None)));
}

fn spec(effect: &str) -> LedSpec {
    LedSpec::new(effect, [1, 2, 3], 80, Some("fast"))
}

#[test]
fn live_lighting_reads_back_before_it_is_saved() {
    let mut st = LiveLedState::new();
    assert!(get_live_spec_for_zone(&st, "primary").is_none());
    schedule_live_led(&mut st, TargetZone::Single(1), spec("solid"), 1_000);
    assert_eq!(get_live_spec_for_zone(&st, "logo").unwrap().effect, "solid");
    assert!(get_live_spec_for_zone(&st, "primary").is_none());
    // A newer change replaces the one not yet sent.
    schedule_live_led(&mut st, TargetZone::All, spec("breathing"), 1_050);
    assert_eq!(get_live_spec_for_zone(&st, "primary").unwrap().effect, "breathing");

    match live_led_step(&mut st, 1_060) {
        LiveLedStep::Dispatch(u) => {
            assert_eq!(u.spec.effect, "breathing");
            assert_eq!(u.updated_at, 1_050);
        }
        other => panic!("expected a dispatch, got {other:?}"),
    }
    // Sent but not saved: still read back.
    assert_eq!(get_live_spec_for_zone(&st, "logo").unwrap().effect, "breathing");
    assert!(matches!(live_led_step(&mut st, 1_100), LiveLedStep::Wait(150)));
    match live_led_step(&mut st, 1_250) {
        LiveLedStep::Persist(u) => assert_eq!(u.spec.effect, "breathing"),
        other => panic!("expected a save, got {other:?}"),
    }
    assert!(matches!(live_led_step(&mut st, 2_000), LiveLedStep::Sleep));
    assert!(get_live_spec_for_zone(&st, "logo").is_none());
}

#[test]
fn live_lighting_saved_under_zone_keys() {
    let mut cfg = Config::default();
    let mut st = LiveLedState::new();
    schedule_live_led(&mut st, TargetZone::All, spec("cycle"), 0);
    let LiveLedStep::Dispatch(u) = live_led_step(&mut st, 0) else { panic!("expected a dispatch") };
    persist_led_update(&mut cfg, u);
    assert_eq!(cfg.led_zones.get("primary").unwrap().effect, "cycle");
    assert_eq!(cfg.led_zones.get("logo").unwrap().effect, "cycle");

    schedule_live_led(&mut st, TargetZone::Single(0), spec("solid"), 10);
    let LiveLedStep::Dispatch(u) = live_led_step(&mut st, 10) else { panic!("expected a dispatch") };
    persist_led_update(&mut cfg, u);
    assert_eq!(cfg.led_zones.get("primary").unwrap().effect, "solid");
    assert_eq!(cfg.led_zones.get("logo").unwrap().effect, "cycle");
}

#[test]
fn live_dpi_channel() {
    let mut st = LiveDpiState::new();
    assert_eq!(get_live_dpi(&st), None);
    schedule_live_dpi(&mut st, 1600, 0);
    schedule_live_dpi(&mut st, 2400, 5);
    assert_eq!(get_live_dpi(&st), Some(2400));
    assert!(matches!(live_dpi_step(&mut st, 5), LiveDpiStep::Dispatch(2400)));
    assert_eq!(get_live_dpi(&st), Some(2400));
    assert!(matches!(live_dpi_step(&mut st, 105), LiveDpiStep::Wait(100)));
    assert!(matches!(live_dpi_step(&mut st, 205), LiveDpiStep::Persist(2400)));
    assert!(matches!(live_dpi_step(&mut st, 300), LiveDpiStep::Sleep));
    assert_eq!(get_live_dpi(&st), None);

    let mut cfg = Config::default();
    cfg.desired_mode = DesiredMode::Onboard;
    persist_dpi_update(&mut cfg, 2400);
    assert_eq!(cfg.desired_dpi, Some(2400));
    assert_eq!(cfg.desired_mode, DesiredMode::Host);
}

fn finished(req: ApplyRequest) -> Result<AppliedState, HidppError> {
    match req {
        ApplyRequest::Finished(r) => r,
        other => panic!("expected the end of the run, got {other:?}"),
    }
}

#[test]
fn apply_run_switches_to_host_and_writes_dpi() {
    let (run, req) = ApplyRun::start(DesiredMode::Host, Some(1600));
    assert!(matches!(req, ApplyRequest::ReadMode));
    let (run, req) = run.step(ApplyEvent::Mode(Ok(OnboardMode::Onboard)));
    assert!(matches!(req, ApplyRequest::SetMode(OnboardMode::Host)));
    let (run, req) = run.step(ApplyEvent::Mode(Ok(OnboardMode::Host)));
    assert!(matches!(req, ApplyRequest::ReadDpi));
    let (run, req) = run.step(ApplyEvent::Dpi(Ok(800)));
    assert!(matches!(req, ApplyRequest::SetDpi(1600)));
    let (_, req) = run.step(ApplyEvent::Dpi(Ok(1600)));
    let st = finished(req).unwrap();
    assert_eq!(st.mode, OnboardMode::Host);
    assert_eq!(st.dpi, Some(1600));
}

#[test]
fn apply_run_in_host_mode_at_target_writes_nothing() {
    let (run, _) = ApplyRun::start(DesiredMode::Host, Some(800));
    let (run, req) = run.step(ApplyEvent::Mode(Ok(OnboardMode::Host)));
    assert!(matches!(req, ApplyRequest::ReadDpi));
    let (_, req) = run.step(ApplyEvent::Dpi(Ok(800)));
    let st = finished(req).unwrap();
    assert_eq!((st.mode, st.dpi), (OnboardMode::Host, Some(800)));
}

#[test]
fn apply_run_onboard_releases_indicator() {
    let (run, _) = ApplyRun::start(DesiredMode::Onboard, None);
    let (run, req) = run.step(ApplyEvent::Mode(Ok(OnboardMode::Host)));
    assert!(matches!(req, ApplyRequest::ReadDpi));
    let (run, req) = run.step(ApplyEvent::Dpi(Ok(1200)));
    assert!(matches!(req, ApplyRequest::SetMode(OnboardMode::Onboard)));
    let (run, req) = run.step(ApplyEvent::Mode(Ok(OnboardMode::Onboard)));
    assert!(matches!(req, ApplyRequest::ReleaseIndicator));
    let (run, req) = run.step(ApplyEvent::Released);
    assert!(matches!(req, ApplyRequest::ReadDpi));
    // The DPI read after that is best effort.
    let (_, req) = run.step(ApplyEvent::Dpi(Err(HidppError::Timeout("t".into()))));
    let st = finished(req).unwrap();
    assert_eq!((st.mode, st.dpi), (OnboardMode::Onboard, None));
}

#[test]
fn apply_run_errors_end_the_run() {
    let (run, _) = ApplyRun::start(DesiredMode::Host, Some(800));
    let (_, req) = run.step(ApplyEvent::Mode(Err(HidppError::Io("断开".into()))));
    assert!(matches!(finished(req), Err(HidppError::Io(ref m)) if m == "断开"));

    let (run, _) = ApplyRun::start(DesiredMode::Host, Some(800));
    let (run, _) = run.step(ApplyEvent::Mode(Ok(OnboardMode::Host)));
    let (_, req) = run.step(ApplyEvent::Dpi(Err(HidppError::Invalid("坏回复".into()))));
    assert!(matches!(finished(req), Err(HidppError::Invalid(_))));
}

#[test]
fn lighting_sync_after_full_restore() {
    let host = AppliedState { mode: OnboardMode::Host, dpi: Some(1600) };
    let onboard = AppliedState { mode: OnboardMode::Onboard, dpi: None };
    assert!(replays_lighting(&host));
    assert!(!replays_lighting(&onboard));
    assert!(lighting_synced(&onboard, &None));
    assert!(lighting_synced(&host, &Some(Ok(()))));
    assert!(!lighting_synced(&host, &Some(Err(HidppError::Timeout("无响应".into())))));
}

#[test]
fn combos_ignore_case_and_spaces() {
    assert_eq!(parse_combo("CMD+C").unwrap(), parse_combo("cmd+c").unwrap());
    assert_eq!(parse_combo(" Cmd + c ").unwrap().0, FLAG_COMMAND);
}
