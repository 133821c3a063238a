use g502hub::device::{
    describe, feature_request_params, hex, interface_order, open_failure_message,
    parse_feature_index, ping_params, ping_response_online, probe_index, Mode,
};
use g502hub::features::battery::{
    battery_features, no_battery_feature, parse_status_battery, parse_unified_battery,
    parse_voltage_battery, percent_from_voltage,
};
use g502hub::features::battery_indicator::{bars_for_percent, tier_for_percent, BatteryIndicatorTier};
use g502hub::features::dpi::{
    append_dpi_page, check_set_dpi_echo, confirm_dpi_readback, decode_dpi_list, decode_dpi_list_checked,
    dpi_list_page_params, parse_get_dpi, read_be16, sensor_count_from, set_dpi_params,
};
use g502hub::features::indicator_led::{bars_state_params, software_control_params};
use g502hub::features::onboard::{
    mode_mismatch_error, mode_switch_step, parse_onboard_mode, read_mode_result, readback_note,
    set_mode_params, ModeSwitchStep, OnboardMode,
};
use g502hub::hidpp::{
    classify_report, encode_request, error_name, is_receiver_pid, is_vendor_interface, rejection,
    retry_again, timeout_error, HidppError, ReportMatch, SOFT_ID,
};

fn invalid_text(e: &HidppError) -> String {
    match e {
        HidppError::Invalid(m) => m.clone(),
        other => panic!("unexpected error {other:?}"),
    }
}

#[test]
fn short_request_frame_is_padded_to_seven_bytes() {
    let frame = encode_request(0xFF, 0x05, 0x02, &[0x01, 0x02], false).unwrap();
    assert_eq!(frame, vec![0x10, 0xFF, 0x05, 0x25, 0x01, 0x02, 0x00]);
}

#[test]
fn four_parameter_bytes_make_a_long_request() {
    let frame = encode_request(0x01, 0x08, 0x03, &[1, 2, 3, 4], true).unwrap();
    assert_eq!(frame.len(), 20);
    assert_eq!(&frame[..8], &[0x11, 0x01, 0x08, 0x35, 1, 2, 3, 4]);
    assert!(frame[8..].iter().all(|b| *b == 0));
}

#[test]
fn request_errors() {
    let e = encode_request(1, 1, 0x10, &[], false).unwrap_err();
    assert_eq!(invalid_text(&e), "function 编号必须 0-15: 0x10");
    let e = encode_request(1, 1, 0x01, &[1, 2, 3, 4], false).unwrap_err();
    assert_eq!(invalid_text(&e), "short report 最多 3 字节参数");
}

#[test]
fn reports_are_classified() {
    let reply = [0x11, 0xFF, 0x05, 0x25, 0, 0];
    assert_eq!(classify_report(&reply, 0xFF, 0x05, 0x02, SOFT_ID), ReportMatch::Reply);
    let err = [0x10, 0xFF, 0xFF, 0x05, 0x25, 0x09, 0];
    assert_eq!(classify_report(&err, 0xFF, 0x05, 0x02, SOFT_ID), ReportMatch::Rejected(0x09));
    let other = [0x02, 0xFF, 0x05, 0x25];
    assert_eq!(classify_report(&other, 0xFF, 0x05, 0x02, SOFT_ID), ReportMatch::Unrelated);
    let wrong_function = [0x11, 0xFF, 0x05, 0x35];
    assert_eq!(classify_report(&wrong_function, 0xFF, 0x05, 0x02, SOFT_ID), ReportMatch::Unrelated);
    assert_eq!(classify_report(&[], 0xFF, 0x05, 0x02, SOFT_ID), ReportMatch::Unrelated);
}

#[test]
fn error_texts_of_every_variant() {
    assert_eq!(HidppError::Timeout("x".into()).to_text(), "设备未响应: x");
    assert_eq!(HidppError::Io("x".into()).to_text(), "IO 错误: x");
    assert_eq!(HidppError::Open("x".into()).to_text(), "打开失败: x");
    assert_eq!(HidppError::Invalid("x".into()).to_text(), "无效请求: x");
    assert_eq!(
        HidppError::Rejected { code: 0x09, message: "Busy".into() }.to_text(),
        "HID++ 拒绝 (code=0x09) Busy"
    );
    match rejection(0x02) {
        HidppError::Rejected { code, message } => {
            assert_eq!(code, 0x02);
            assert_eq!(message, error_name(0x02));
        }
        other => panic!("unexpected {other:?}"),
    }
    match timeout_error(0x05, 0x02) {
        HidppError::Timeout(m) => assert!(m.starts_with("feature=0x05")),
        other => panic!("unexpected {other:?}"),
    }
}

#[test]
fn interfaces_and_pids() {
    assert!(is_vendor_interface(0x046D, 0xFF00));
    assert!(!is_vendor_interface(0x046D, 0x0001));
    assert!(!is_vendor_interface(0x1234, 0xFF00));
    assert!(!is_receiver_pid(0xC08D));
}

#[test]
fn device_helpers() {
    assert_eq!(hex(&[0x00, 0xAB, 0x10]), "00 ab 10");
    assert_eq!(hex(&[]), "");
    assert_eq!(ping_params().len(), 3);
    assert!(ping_response_online(&[0x11, 0xFF, 0x00, 0x15, 0x04]));
    assert!(!ping_response_online(&[0x11, 0xFF, 0x00, 0x15, 0x00]));
    assert_eq!(feature_request_params(0x2201), [0x22, 0x01, 0x00]);
    assert_eq!(parse_feature_index(0x2201, &[0x11, 0xFF, 0x00, 0x05, 0x07]).unwrap(), 0x07);
    assert!(parse_feature_index(0x2201, &[0x11, 0xFF, 0x00, 0x05, 0x00]).is_err());
    assert_eq!(
        describe(Mode::Wired, 0, 0xC08D, &Ok(vec![0x11, 0xFF, 0x00, 0x15, 4, 2])),
        "G502 (USB 有线, 0xc08d, HID++ 4.2)"
    );
    assert_eq!(
        describe(Mode::Receiver, 1, 0xC539, &Err(HidppError::Timeout("t".into()))),
        "G502 (接收器 slot1, 0xc539, HID++ ?)"
    );
    let notes = vec!["a".to_string(), "b".to_string()];
    assert_eq!(
        open_failure_message(&notes, false),
        "未找到可应答的 G502(请动一下鼠标唤醒它)。\n  - a\n  - b"
    );
    assert!(open_failure_message(&notes, true).ends_with("再试。"));
    let (online, note) = probe_index(1, &Err(HidppError::Timeout("t".into())));
    assert!(!online);
    assert_eq!(note, "idx0x01: 无响应(未配对或休眠)");
    let order = interface_order(&[0xC08D, 0xC539]);
    assert_eq!(order.len(), 2);
}

#[test]
fn dpi_list_decoding() {
    assert_eq!(read_be16(0x03, 0x20), 800);
    let raw = [0x01, 0x90, 0x03, 0x20, 0x06, 0x40, 0x00, 0x00];
    assert_eq!(decode_dpi_list(&raw), vec![400, 800, 1600]);
    // 100, then a range with step 50 up to 300.
    let ranged = [0x00, 0x64, 0xE0, 0x32, 0x01, 0x2C, 0x00, 0x00];
    assert_eq!(decode_dpi_list(&ranged), vec![100, 150, 200, 250, 300]);
    assert_eq!(decode_dpi_list(&[]), vec![800]);
    assert_eq!(dpi_list_page_params(10), [0, 0, 5]);
    let mut acc = Vec::new();
    assert!(!append_dpi_page(&mut acc, &[0x11, 0xFF, 0x05, 0x15, 0x00, 0x01, 0x90]));
    assert!(append_dpi_page(&mut acc, &[0x11, 0xFF, 0x05, 0x15, 0x00, 0x00, 0x00]));
    assert_eq!(acc, vec![0x01, 0x90, 0x00, 0x00]);
    assert_eq!(sensor_count_from(&Ok(vec![0, 0, 0, 0, 0])), 1);
    assert_eq!(sensor_count_from(&Ok(vec![0, 0, 0, 0, 2])), 2);
    assert_eq!(sensor_count_from(&Err(HidppError::Timeout("t".into()))), 1);
}

#[test]
fn dpi_list_decoding_checked() {
    let ranged = [0x00, 0x64, 0xE0, 0x64, 0x01, 0xF4, 0x00, 0x00];
    assert_eq!(decode_dpi_list_checked(&ranged), Some(vec![100, 200, 300, 400, 500]));
    assert_eq!(decode_dpi_list_checked(&ranged).unwrap(), decode_dpi_list(&ranged));
    assert_eq!(decode_dpi_list_checked(&[]), Some(vec![800]));
    // A range up to 0xFFFF steps past 16 bits after its last value.
    let overflowing = [0x00, 0x64, 0xE0, 0x64, 0xFF, 0xFF, 0x00, 0x00];
    assert_eq!(decode_dpi_list_checked(&overflowing), None);
}

#[test]
fn dpi_read_and_write() {
    assert_eq!(parse_get_dpi(&[0x11, 0xFF, 0x05, 0x25, 0, 0x06, 0x40, 0x03, 0x20]).unwrap(), 1600);
    assert_eq!(parse_get_dpi(&[0x11, 0xFF, 0x05, 0x25, 0, 0x00, 0x00, 0x03, 0x20]).unwrap(), 800);
    let e = parse_get_dpi(&[0x11, 0xFF, 0x05, 0x25, 0, 0x00, 0x0A, 0, 0]).unwrap_err();
    assert_eq!(invalid_text(&e), "DPI 读取异常: 10");
    assert_eq!(set_dpi_params(1600).unwrap(), [0x00, 0x06, 0x40]);
    let e = set_dpi_params(40000).unwrap_err();
    assert_eq!(invalid_text(&e), "DPI 超出合理范围: 40000");
    assert!(check_set_dpi_echo(1600, &[0x11, 0xFF, 0x05, 0x35, 0x00, 0x06, 0x40]).is_ok());
    assert_eq!(confirm_dpi_readback(1600, 1600).unwrap(), 1600);
    assert!(confirm_dpi_readback(1600, 800).is_err());
}

/// The voltage curve, computed in floating point as a check of the integer version.
fn float_percent(mv: u16) -> u8 {
    let curve: [(u16, u8); 13] = [
        (4186, 100),
        (4067, 90),
        (3989, 80),
        (3922, 70),
        (3859, 60),
        (3811, 50),
        (3778, 40),
        (3751, 30),
        (3717, 20),
        (3671, 10),
        (3646, 5),
        (3579, 2),
        (3500, 0),
    ];
    if mv >= curve[0].0 {
        return curve[0].1;
    }
    if mv <= curve[12].0 {
        return curve[12].1;
    }
    for w in curve.windows(2) {
        let (v1, p1) = w[0];
        let (v2, p2) = w[1];
        if (v2..=v1).contains(&mv) {
            let ratio = (v1 - mv) as f32 / (v1 - v2) as f32;
            return (p1 as f32 + (p2 as i16 - p1 as i16) as f32 * ratio).round() as u8;
        }
    }
    0
}

#[test]
fn voltage_curve_matches_float_interpolation() {
    for mv in 3000u16..=4500 {
        assert_eq!(percent_from_voltage(mv), float_percent(mv), "at {mv} mV");
    }
    assert_eq!(percent_from_voltage(4186), 100);
    assert_eq!(percent_from_voltage(3500), 0);
    assert_eq!(percent_from_voltage(3811), 50);
}

#[test]
fn higher_voltage_never_shows_less_charge() {
    for mv in 3000u16..4500 {
        assert!(percent_from_voltage(mv) <= percent_from_voltage(mv + 1), "at {mv} mV");
    }
    assert!(percent_from_voltage(3700) < percent_from_voltage(3900));
}

#[test]
fn battery_replies() {
    let b = parse_voltage_battery(&[0x11, 0xFF, 0x06, 0x05, 0x0E, 0xE3, 0x00]).unwrap();
    assert_eq!(b.voltage_mv, Some(3811));
    assert_eq!(b.percent, 50);
    assert!(!b.charging);
    assert_eq!(b.state_text, "放电中");
    let c = parse_voltage_battery(&[0x11, 0xFF, 0x06, 0x05, 0x0E, 0xE3, 0x88]).unwrap();
    assert!(c.charging);
    assert_eq!(c.state_text, "充电中(快充)");
    let low = parse_voltage_battery(&[0x11, 0xFF, 0x06, 0x05, 0x0D, 0xAC, 0x22]).unwrap();
    assert_eq!(low.state_text, "放电中 ⚠️电量极低");
    let e = parse_voltage_battery(&[0x11, 0xFF, 0x06]).unwrap_err();
    assert_eq!(invalid_text(&e), "电池响应过短");
    let u = parse_unified_battery(&[0x11, 0xFF, 0x06, 0x05, 200, 0, 2]);
    assert_eq!(u.percent, 78);
    assert_eq!(u.state_text, "放电中");
    let s = parse_status_battery(&[0x11, 0xFF, 0x06, 0x05, 120, 7]);
    assert_eq!(s.percent, 100);
    assert_eq!(s.state_text, "状态7");
    assert_eq!(battery_features(), [0x1001, 0x1004, 0x1000]);
    assert_eq!(
        invalid_text(&no_battery_feature()),
        "设备不支持任何已知电池 feature (0x1000/0x1001/0x1004)"
    );
}

#[test]
fn battery_bars_never_decrease_and_agree_with_tiers() {
    for p in 0u8..=100 {
        assert!(bars_for_percent(p) <= bars_for_percent(p.saturating_add(1)));
        if tier_for_percent(p) == BatteryIndicatorTier::Critical {
            assert_eq!(bars_for_percent(p), 1);
        }
    }
    assert_eq!(bars_state_params(3)[4], 3);
    assert_eq!(software_control_params(true).len(), 3);
}

#[test]
fn onboard_mode_round_trip_and_errors() {
    for mode in [OnboardMode::Onboard, OnboardMode::Host] {
        let params = set_mode_params(mode);
        let reply = [0x11, 0xFF, 0x0A, 0x25, params[0]];
        assert_eq!(parse_onboard_mode(&reply), mode);
    }
    assert_eq!(readback_note(&Some(Ok(OnboardMode::Host))), "实际为 主机控制模式");
    assert_eq!(readback_note(&None), "设备不支持板载模式 feature");
    let e = mode_mismatch_error(OnboardMode::Host, &None);
    assert_eq!(invalid_text(&e), "模式切换读回不一致: 请求 主机控制模式, 无读回");
    let e = read_mode_result(None).unwrap_err();
    assert_eq!(invalid_text(&e), "设备不支持板载模式 feature 0x8100");
    assert_eq!(read_mode_result(Some(Ok(OnboardMode::Onboard))).unwrap(), OnboardMode::Onboard);
}

#[test]
fn transient_errors_are_retried_three_attempts_in_all() {
    let timeout = HidppError::Timeout("无响应".into());
    assert!(retry_again(1, &timeout));
    assert!(retry_again(2, &timeout));
    assert!(!retry_again(3, &timeout));
    assert!(retry_again(1, &rejection(0x09)));
    assert!(!retry_again(1, &rejection(0x02)));
    assert!(!retry_again(1, &HidppError::Invalid("坏参数".into())));

    // A request that keeps timing out is sent exactly three times.
    let mut sent = 0u8;
    loop {
        sent += 1;
        if !retry_again(sent, &timeout) {
            break;
        }
    }
    assert_eq!(sent, 3);
}

#[test]
fn mode_switch_steps() {
    let host = OnboardMode::Host;
    assert!(matches!(mode_switch_step(host, 1, Ok(()), &Some(Ok(host))), ModeSwitchStep::Confirmed(OnboardMode::Host)));
    assert!(matches!(
        mode_switch_step(host, 1, Ok(()), &Some(Ok(OnboardMode::Onboard))),
        ModeSwitchStep::Again
    ));
    assert!(matches!(mode_switch_step(host, 2, Ok(()), &None), ModeSwitchStep::Again));
    match mode_switch_step(host, 3, Ok(()), &Some(Ok(OnboardMode::Onboard))) {
        ModeSwitchStep::Failed(e) => {
            assert_eq!(invalid_text(&e), "模式切换读回不一致: 请求 主机控制模式, 实际为 板载模式")
        }
        _ => panic!("third unconfirmed read-back must fail"),
    }
    match mode_switch_step(host, 1, Err(rejection(0x05)), &None) {
        ModeSwitchStep::Failed(HidppError::Rejected { code, .. }) => assert_eq!(code, 0x05),
        _ => panic!("a refused request ends the switch with its error"),
    }
}
