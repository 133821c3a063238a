//! RGB lighting: HID++ feature 0x8070 (Color LED Effects).
//!
//! Functions: f0 GetInfo, f1 GetZoneInfo(z), f2 GetZoneEffectInfo(z, slot),
//! f3 SetZoneEffect, f14 GetZoneEffect(z). The G502 LIGHTSPEED has two zones:
//! zone 0 = primary (light strip), zone 1 = logo.
//!
//! The device has four fixed effect slots on both zones:
//! slot 0 = off (0x0000), slot 1 = solid (0x0001), slot 2 = cycle (0x0003),
//! slot 3 = breathing (0x000A). The 16-byte SetZoneEffect payload is read
//! according to the target slot:
//!   off:       [zone, 0, 0...]
//!   solid:     [zone, 1, R, G, B, 0x02, 0...]            (RGB pre-scaled by brightness)
//!   cycle:     [zone, 2, 0, 0, 0, 0, 0, period hi, period lo, brightness, 0...]
//!   breathing: [zone, 3, R, G, B, period hi, period lo, 0x00, brightness, 0...]
//! Periods are big-endian milliseconds; f14 always reads back 0, so a write is
//! only confirmed by the transport.
use crate::hidpp::HidppError;
use crate::text::{
    dec_digits, hex_prefixed, hex_prefixed_exec, parse_u16, spec_lowercase, spec_parse_u16,
    spec_trim, str_is, all_plain_case, has_plain_case, is_unicode_space, lemma_trim_range,
    lemma_trim_unchanged, plain_lower,
};
use vstd::prelude::*;

verus! {

pub const F_COLOR_LED_EFFECTS: u16 = 0x8070;

pub const ZONE_PRIMARY: u8 = 0;
pub const ZONE_LOGO: u8 = 1;

pub const RATE_SLOW_MS: u16 = 5000;
pub const RATE_MEDIUM_MS: u16 = 2000;
pub const RATE_FAST_MS: u16 = 1000;

/// Lowest effect period the official software offers.
pub const RATE_MIN_MS: u16 = 1000;
/// Highest effect period the official software offers.
pub const RATE_MAX_MS: u16 = 20000;

pub const SLOT_OFF: u8 = 0;
pub const SLOT_SOLID: u8 = 1;
pub const SLOT_CYCLE: u8 = 2;
pub const SLOT_BREATHING: u8 = 3;

/// The effects the device supports, in display order (off has its own menu entry).
pub const ALL_EFFECTS: [u16; 3] = [0x01, 0x0A, 0x03];

/// The zone a configuration key names.
pub open spec fn spec_zone_from_key(key: Seq<char>) -> Option<u8> {
    if key == "primary"@ || key == "0"@ {
        Some(ZONE_PRIMARY)
    } else if key == "logo"@ || key == "1"@ {
        Some(ZONE_LOGO)
    } else {
        None
    }
}

pub fn zone_from_key(key: &str) -> (r: Option<u8>)
    ensures
        r == spec_zone_from_key(key@),
{
    if str_is(key, "primary") || str_is(key, "0") {
        Some(ZONE_PRIMARY)
    } else if str_is(key, "logo") || str_is(key, "1") {
        Some(ZONE_LOGO)
    } else {
        None
    }
}

/// The configuration key of a zone; every zone other than the logo is the primary zone.
pub open spec fn spec_zone_key(zone: u8) -> Seq<char> {
    if zone == ZONE_LOGO {
        "logo"@
    } else {
        "primary"@
    }
}

pub fn zone_key(zone: u8) -> (r: &'static str)
    ensures
        r@ == spec_zone_key(zone),
{
    if zone == ZONE_LOGO {
        "logo"
    } else {
        "primary"
    }
}

pub open spec fn spec_zone_label(zone: u8) -> Seq<char> {
    if zone == ZONE_LOGO {
        "标志"@
    } else {
        "主要"@
    }
}

pub fn zone_label(zone: u8) -> (r: &'static str)
    ensures
        r@ == spec_zone_label(zone),
{
    if zone == ZONE_LOGO {
        "标志"
    } else {
        "主要"
    }
}

/// The effect id of an effect name.
pub open spec fn spec_effect_id(name: Seq<char>) -> Option<u16> {
    if name == "off"@ {
        Some(0x00)
    } else if name == "solid"@ {
        Some(0x01)
    } else if name == "cycle"@ {
        Some(0x03)
    } else if name == "breathing"@ {
        Some(0x0A)
    } else {
        None
    }
}

pub fn effect_id(name: &str) -> (r: Option<u16>)
    ensures
        r == spec_effect_id(name@),
{
    if str_is(name, "off") {
        Some(0x00)
    } else if str_is(name, "solid") {
        Some(0x01)
    } else if str_is(name, "cycle") {
        Some(0x03)
    } else if str_is(name, "breathing") {
        Some(0x0A)
    } else {
        None
    }
}

/// The name of an effect id; an unknown id is shown in hexadecimal (`0x000b`).
pub open spec fn spec_effect_name(id: u16) -> Seq<char> {
    if id == 0x00 {
        "off"@
    } else if id == 0x01 {
        "solid"@
    } else if id == 0x03 {
        "cycle"@
    } else if id == 0x0A {
        "breathing"@
    } else {
        hex_prefixed(id as nat, 4)
    }
}

pub fn effect_name(id: u16) -> (r: String)
    ensures
        r@ == spec_effect_name(id),
{
    match id {
        0x00 => String::from_str("off"),
        0x01 => String::from_str("solid"),
        0x03 => String::from_str("cycle"),
        0x0A => String::from_str("breathing"),
        other => hex_prefixed_exec(other as u64, 4),
    }
}

/// The period a rate name stands for, after trimming and lowercasing:
/// empty or `default` is 0 (the device's own pace), `slow`/`慢` 5000 ms,
/// `medium`/`mid`/`normal`/`中` 2000 ms, `fast`/`快` 1000 ms; anything else must be
/// a number of milliseconds.
pub open spec fn spec_rate_alias(t: Seq<char>) -> Option<u16> {
    if t == ""@ || t == "default"@ {
        Some(0)
    } else if t == "slow"@ || t == "慢"@ {
        Some(RATE_SLOW_MS)
    } else if t == "medium"@ || t == "mid"@ || t == "normal"@ || t == "中"@ {
        Some(RATE_MEDIUM_MS)
    } else if t == "fast"@ || t == "快"@ {
        Some(RATE_FAST_MS)
    } else {
        None
    }
}

/// The normalised rate text that `rate_period_ms` matches.
pub open spec fn spec_rate_text(rate: Seq<char>) -> Seq<char> {
    spec_lowercase(spec_trim(rate))
}

/// The period a rate gives, when the rate is accepted: `None` (no rate) is the
/// device default 0; a name maps by `spec_rate_alias`; a number must lie in
/// 1000–20000 ms.
pub open spec fn spec_rate_period(rate: Option<Seq<char>>) -> Option<u16> {
    match rate {
        None => Some(0),
        Some(s) => {
            let t = spec_rate_text(s);
            match spec_rate_alias(t) {
                Some(v) => Some(v),
                None => match spec_parse_u16(t) {
                    Some(v) => if RATE_MIN_MS <= v <= RATE_MAX_MS {
                        Some(v)
                    } else {
                        None
                    },
                    None => None,
                },
            }
        },
    }
}

/// The message refusing a rate that `spec_rate_period` does not accept.
pub open spec fn spec_rate_error(s: Seq<char>) -> Seq<char> {
    match spec_parse_u16(spec_rate_text(s)) {
        Some(v) => "速率超出范围: "@ + dec_digits(v as nat) + "ms (官方支持 1000–20000ms)"@,
        None => "无效速率: "@ + s + " (slow/medium/fast 或毫秒数)"@,
    }
}

/// Normalising a rate again changes nothing, for a rate written in ASCII and CJK
/// ideographs: trimming and lowercasing leave no white space at the ends and no
/// capital letter.
proof fn lemma_rate_text_settles(s: Seq<char>, t: Seq<char>)
    requires
        all_plain_case(s),
        all_plain_case(spec_trim(s)) ==> t == spec_trim(s).map_values(|c: char| plain_lower(c)),
        all_plain_case(spec_trim(s)) ==> spec_lowercase(t) == t,
        t == spec_rate_text(s),
    ensures
        spec_rate_text(t) == t,
{
    let trimmed = spec_trim(s);
    let ij = lemma_trim_range(s);
    assert forall|k: int| 0 <= k < trimmed.len() implies #[trigger] has_plain_case(trimmed[k]) by {
        assert(trimmed[k] == s[ij.0 + k]);
    }
    if t.len() > 0 {
        let a = trimmed[0];
        let b = trimmed.last();
        assert(a == s[ij.0]);
        assert(b == s[ij.1 - 1]);
        assert(t[0] == plain_lower(a));
        assert(t.last() == plain_lower(b));
        assert(!is_unicode_space(plain_lower(a)));
        assert(!is_unicode_space(plain_lower(b)));
    }
    lemma_trim_unchanged(t);
}

/// The option of a string's view.
pub open spec fn opt_str_view(rate: Option<&str>) -> Option<Seq<char>> {
    match rate {
        Some(s) => Some(s@),
        None => None,
    }
}

/// Maps a rate (alias or milliseconds) to an effect period.
///
/// `None` is the device default (0). A number must lie in 1000–20000 ms: the
/// firmware accepts other values but they wedge its effect engine.
pub fn rate_period_ms(rate: Option<&str>) -> (r: Result<u16, HidppError>)
    ensures
        match spec_rate_period(opt_str_view(rate)) {
            Some(v) => r == Ok::<u16, HidppError>(v),
            None => rate matches Some(s) && (r matches Err(HidppError::Invalid(m)) && m@
                == spec_rate_error(s@)),
        },
        r matches Ok(v) ==> v == 0 || (RATE_MIN_MS <= v <= RATE_MAX_MS),
        rate matches Some(s) ==> (all_plain_case(s@) ==> spec_rate_period(
            Some(spec_rate_text(s@)),
        ) == spec_rate_period(Some(s@))),
        rate matches Some(s) ==> (all_plain_case(s@) ==> spec_rate_text(s@) == spec_trim(
            s@,
        ).map_values(|c: char| plain_lower(c))),
{
    let rate = match rate {
        None => return Ok(0),
        Some(r) => r,
    };
    let trimmed = crate::text::trim(rate);
    let t = crate::text::to_lowercase(trimmed);
    proof {
        if all_plain_case(rate@) {
            lemma_rate_text_settles(rate@, t@);
            let ij = lemma_trim_range(rate@);
            assert forall|k: int| 0 <= k < trimmed@.len() implies #[trigger] has_plain_case(
                trimmed@[k],
            ) by {
                assert(trimmed@[k] == rate@[ij.0 + k]);
            }
        }
    }
    let ts = t.as_str();
    if str_is(ts, "") || str_is(ts, "default") {
        Ok(0)
    } else if str_is(ts, "slow") || str_is(ts, "慢") {
        Ok(RATE_SLOW_MS)
    } else if str_is(ts, "medium") || str_is(ts, "mid") || str_is(ts, "normal") || str_is(ts, "中") {
        Ok(RATE_MEDIUM_MS)
    } else if str_is(ts, "fast") || str_is(ts, "快") {
        Ok(RATE_FAST_MS)
    } else {
        match parse_u16(ts) {
            None => {
                let mut m = String::from_str("无效速率: ");
                m.append(rate);
                m.append(" (slow/medium/fast 或毫秒数)");
                Err(HidppError::Invalid(m))
            },
            Some(v) => {
                if RATE_MIN_MS <= v && v <= RATE_MAX_MS {
                    Ok(v)
                } else {
                    let mut m = String::from_str("速率超出范围: ");
                    let d = crate::text::decimal(v as u64);
                    m.append(d.as_str());
                    m.append("ms (官方支持 1000–20000ms)");
                    Err(HidppError::Invalid(m))
                }
            },
        }
    }
}

/// The period sent for a cycle or breathing effect: 0 means the medium pace,
/// anything else is clamped to the official range.
pub open spec fn spec_effect_period(period_ms: u16) -> u16 {
    if period_ms == 0 {
        RATE_MEDIUM_MS
    } else if period_ms < RATE_MIN_MS {
        RATE_MIN_MS
    } else if period_ms > RATE_MAX_MS {
        RATE_MAX_MS
    } else {
        period_ms
    }
}

fn effect_period(period_ms: u16) -> (r: u16)
    ensures
        r == spec_effect_period(period_ms),
{
    if period_ms == 0 {
        RATE_MEDIUM_MS
    } else if period_ms < RATE_MIN_MS {
        RATE_MIN_MS
    } else if period_ms > RATE_MAX_MS {
        RATE_MAX_MS
    } else {
        period_ms
    }
}

pub open spec fn spec_min100(b: u8) -> u8 {
    if b > 100 {
        100
    } else {
        b
    }
}

/// One colour channel scaled by a brightness percentage (capped at 100).
pub open spec fn spec_scale(c: u8, brightness: u8) -> u8 {
    (c as nat * spec_min100(brightness) as nat / 100) as u8
}

/// Scales a colour by a brightness percentage (0–100); the firmware ignores its own
/// brightness byte for solid colours, so brightness is applied to the colour.
pub fn scale_rgb(rgb: [u8; 3], brightness: u8) -> (r: [u8; 3])
    ensures
        r@ == seq![
            spec_scale(rgb[0], brightness),
            spec_scale(rgb[1], brightness),
            spec_scale(rgb[2], brightness),
        ],
        r[0] <= rgb[0] && r[1] <= rgb[1] && r[2] <= rgb[2],
{
    let b: u16 = if brightness > 100 { 100 } else { brightness as u16 };
    proof {
        assert(rgb[0] as nat * b as nat / 100 <= rgb[0]) by (nonlinear_arith)
            requires b <= 100;
        assert(rgb[1] as nat * b as nat / 100 <= rgb[1]) by (nonlinear_arith)
            requires b <= 100;
        assert(rgb[2] as nat * b as nat / 100 <= rgb[2]) by (nonlinear_arith)
            requires b <= 100;
    }
    let r = [
        (rgb[0] as u16 * b / 100) as u8,
        (rgb[1] as u16 * b / 100) as u8,
        (rgb[2] as u16 * b / 100) as u8,
    ];
    assert(r@ =~= seq![
        spec_scale(rgb[0], brightness),
        spec_scale(rgb[1], brightness),
        spec_scale(rgb[2], brightness),
    ]);
    r
}

/// Brightness percentage (0–100) as an effect intensity byte (0–255).
pub fn intensity_byte(brightness: u8) -> (r: u8)
    ensures
        r == spec_min100(brightness) as nat * 255 / 100,
{
    let b: u16 = if brightness > 100 { 100 } else { brightness as u16 };
    proof {
        assert(b as nat * 255 / 100 <= 255) by (nonlinear_arith)
            requires b <= 100;
    }
    (b * 255 / 100) as u8
}

pub open spec fn spec_off_payload(zone: u8) -> Seq<u8> {
    seq![zone, SLOT_OFF] + Seq::new(14, |i: int| 0u8)
}

pub open spec fn spec_solid_payload(zone: u8, rgb: [u8; 3], brightness: u8) -> Seq<u8> {
    seq![
        zone,
        SLOT_SOLID,
        spec_scale(rgb[0], brightness),
        spec_scale(rgb[1], brightness),
        spec_scale(rgb[2], brightness),
        0x02u8,
    ] + Seq::new(10, |i: int| 0u8)
}

pub open spec fn spec_cycle_payload(zone: u8, period_ms: u16, brightness: u8) -> Seq<u8> {
    let p = spec_effect_period(period_ms);
    seq![zone, SLOT_CYCLE, 0u8, 0u8, 0u8, 0u8, 0u8, (p / 256) as u8, (p % 256) as u8, spec_min100(brightness)]
        + Seq::new(6, |i: int| 0u8)
}

pub open spec fn spec_breathing_payload(
    zone: u8,
    rgb: [u8; 3],
    period_ms: u16,
    brightness: u8,
) -> Seq<u8> {
    let p = spec_effect_period(period_ms);
    seq![
        zone,
        SLOT_BREATHING,
        rgb[0],
        rgb[1],
        rgb[2],
        (p / 256) as u8,
        (p % 256) as u8,
        0x00u8,
        spec_min100(brightness),
    ] + Seq::new(7, |i: int| 0u8)
}

/// SetZoneEffect payload that turns a zone off (slot 0, all parameters zero).
pub fn off_payload(zone: u8) -> (r: [u8; 16])
    ensures
        r@ == spec_off_payload(zone),
{
    let r = [zone, SLOT_OFF, 0, 0, 0, 0, 0, 0, 0, 0, 0, 0, 0, 0, 0, 0];
    assert(r@ =~= spec_off_payload(zone));
    r
}

/// SetZoneEffect payload for a solid colour, scaled by the brightness.
pub fn solid_payload(zone: u8, rgb: [u8; 3], brightness: u8) -> (r: [u8; 16])
    ensures
        r@ == spec_solid_payload(zone, rgb, brightness),
{
    let c = scale_rgb(rgb, brightness);
    let r = [zone, SLOT_SOLID, c[0], c[1], c[2], 0x02, 0, 0, 0, 0, 0, 0, 0, 0, 0, 0];
    assert(r@ =~= spec_solid_payload(zone, rgb, brightness));
    r
}

/// SetZoneEffect payload for the colour cycle; the period (0 = medium) is clamped
/// to 1000–20000 ms and the brightness to 100.
pub fn cycle_payload(zone: u8, period_ms: u16, brightness: u8) -> (r: [u8; 16])
    ensures
        r@ == spec_cycle_payload(zone, period_ms, brightness),
{
    let period = effect_period(period_ms);
    let b = if brightness > 100 { 100 } else { brightness };
    let hi = (period >> 8) as u8;
    let lo = (period & 0xff) as u8;
    assert(hi == (period / 256) as u8 && lo == (period % 256) as u8) by (bit_vector)
        requires hi == (period >> 8) as u8, lo == (period & 0xff) as u8;
    let r = [zone, SLOT_CYCLE, 0, 0, 0, 0, 0, hi, lo, b, 0, 0, 0, 0, 0, 0];
    assert(r@ =~= spec_cycle_payload(zone, period_ms, brightness));
    r
}

/// SetZoneEffect payload for breathing: the unscaled colour, the period (0 = medium,
/// clamped to 1000–20000 ms), a zero waveform byte and the peak brightness.
pub fn breathing_payload(zone: u8, rgb: [u8; 3], period_ms: u16, brightness: u8) -> (r: [u8; 16])
    ensures
        r@ == spec_breathing_payload(zone, rgb, period_ms, brightness),
{
    let period = effect_period(period_ms);
    let b = if brightness > 100 { 100 } else { brightness };
    let hi = (period >> 8) as u8;
    let lo = (period & 0xff) as u8;
    assert(hi == (period / 256) as u8 && lo == (period % 256) as u8) by (bit_vector)
        requires hi == (period >> 8) as u8, lo == (period & 0xff) as u8;
    let r = [zone, SLOT_BREATHING, rgb[0], rgb[1], rgb[2], hi, lo, 0x00, b, 0, 0, 0, 0, 0, 0, 0];
    assert(r@ =~= spec_breathing_payload(zone, rgb, period_ms, brightness));
    r
}

/// The SetZoneEffect payload for an effect by name.
pub open spec fn spec_effect_payload(
    zone: u8,
    effect: Seq<char>,
    rgb: [u8; 3],
    brightness: u8,
    period_ms: u16,
) -> Option<Seq<u8>> {
    if effect == "off"@ {
        Some(spec_off_payload(zone))
    } else if effect == "solid"@ {
        Some(spec_solid_payload(zone, rgb, brightness))
    } else if effect == "cycle"@ {
        Some(spec_cycle_payload(zone, period_ms, brightness))
    } else if effect == "breathing"@ {
        Some(spec_breathing_payload(zone, rgb, period_ms, brightness))
    } else {
        None
    }
}

/// The payload that sets `effect` on `zone`; an unknown effect name is refused.
pub fn effect_payload(
    zone: u8,
    effect: &str,
    rgb: [u8; 3],
    brightness: u8,
    period_ms: u16,
) -> (r: Result<[u8; 16], HidppError>)
    ensures
        spec_effect_payload(zone, effect@, rgb, brightness, period_ms) matches Some(p) ==> (r matches Ok(
            a,
        ) && a@ == p),
        spec_effect_payload(zone, effect@, rgb, brightness, period_ms) is None ==> (r matches Err(
            HidppError::Invalid(m),
        ) && m@ == "未知灯效: "@ + effect@ + " (off/solid/cycle/breathing)"@),
{
    if str_is(effect, "off") {
        Ok(off_payload(zone))
    } else if str_is(effect, "solid") {
        Ok(solid_payload(zone, rgb, brightness))
    } else if str_is(effect, "cycle") {
        Ok(cycle_payload(zone, period_ms, brightness))
    } else if str_is(effect, "breathing") {
        Ok(breathing_payload(zone, rgb, period_ms, brightness))
    } else {
        let mut m = String::from_str("未知灯效: ");
        m.append(effect);
        m.append(" (off/solid/cycle/breathing)");
        Err(HidppError::Invalid(m))
    }
}

/// Every period that reaches the device lies in the official 1000–20000 ms range,
/// and every brightness byte is at most 100.
pub proof fn lemma_payload_ranges(zone: u8, rgb: [u8; 3], period_ms: u16, brightness: u8)
    ensures
        ({
            let c = spec_cycle_payload(zone, period_ms, brightness);
            let b = spec_breathing_payload(zone, rgb, period_ms, brightness);
            &&& RATE_MIN_MS <= c[7] as int * 256 + c[8] as int <= RATE_MAX_MS
            &&& RATE_MIN_MS <= b[5] as int * 256 + b[6] as int <= RATE_MAX_MS
            &&& c[9] <= 100 && b[8] <= 100
        }),
{
}

/// Full brightness leaves a colour unchanged.
pub proof fn lemma_full_brightness_keeps_colour(c: u8)
    ensures
        spec_scale(c, 100) == c,
{
    assert(c as nat * 100 / 100 == c) by (nonlinear_arith);
}

/// A solid payload carries the colour in R, G, B order, each channel scaled by the
/// brightness (capped at 100): byte 2 is red, byte 3 green, byte 4 blue. At full
/// brightness they are the requested colour, the same bytes a breathing payload
/// carries for that colour.
pub proof fn lemma_solid_colour_order(
    zone: u8,
    rgb: [u8; 3],
    brightness: u8,
    period_ms: u16,
    breathing_brightness: u8,
)
    ensures
        ({
            let p = spec_solid_payload(zone, rgb, brightness);
            let b = if brightness > 100 { 100nat } else { brightness as nat };
            &&& p.len() == 16
            &&& p[0] == zone && p[1] == 1
            &&& p[2] as nat == rgb[0] as nat * b / 100
            &&& p[3] as nat == rgb[1] as nat * b / 100
            &&& p[4] as nat == rgb[2] as nat * b / 100
        }),
        spec_solid_payload(zone, rgb, 100).subrange(2, 5) == seq![rgb[0], rgb[1], rgb[2]],
        spec_solid_payload(zone, rgb, 100).subrange(2, 5) == spec_breathing_payload(
            zone,
            rgb,
            period_ms,
            breathing_brightness,
        ).subrange(2, 5),
{
    let b = spec_min100(brightness);
    assert(rgb[0] as nat * b as nat / 100 <= 255) by (nonlinear_arith)
        requires
            b <= 100,
    ;
    assert(rgb[1] as nat * b as nat / 100 <= 255) by (nonlinear_arith)
        requires
            b <= 100,
    ;
    assert(rgb[2] as nat * b as nat / 100 <= 255) by (nonlinear_arith)
        requires
            b <= 100,
    ;
    lemma_full_brightness_keeps_colour(rgb[0]);
    lemma_full_brightness_keeps_colour(rgb[1]);
    lemma_full_brightness_keeps_colour(rgb[2]);
    assert(spec_solid_payload(zone, rgb, 100).subrange(2, 5) =~= seq![rgb[0], rgb[1], rgb[2]]);
    assert(spec_breathing_payload(zone, rgb, period_ms, breathing_brightness).subrange(2, 5)
        =~= seq![rgb[0], rgb[1], rgb[2]]);
}

} // verus!
