//! Protocol probing (read only): the names of known features, which sections a
//! probe covers, and the lines it prints for each request.
use crate::device::spec_hex;
use crate::hidpp::{spec_error_text, HidppError};
use crate::text::{hex_prefixed, hex_prefixed_exec};
use vstd::prelude::*;

verus! {

/// The name of a known HID++ feature; empty for the others.
pub open spec fn spec_known_name(id: u16) -> Seq<char> {
    if id == 0x0001 {
        "FeatureSet"@
    } else if id == 0x0003 {
        "DeviceName"@
    } else if id == 0x0005 {
        "FirmwareVersion"@
    } else if id == 0x1000 {
        "BatteryStatus"@
    } else if id == 0x1001 {
        "BatteryVoltage"@
    } else if id == 0x1004 {
        "UnifiedBattery"@
    } else if id == 0x1300 {
        "LedSoftwareControl"@
    } else if id == 0x2200 {
        "MousePointerBasic"@
    } else if id == 0x2201 {
        "AdjustableDPI"@
    } else if id == 0x2202 {
        "MouseButtonSpy"@
    } else if id == 0x8060 {
        "ReportRate"@
    } else if id == 0x8070 {
        "ColorLEDEffects"@
    } else if id == 0x8100 {
        "OnboardProfiles"@
    } else {
        ""@
    }
}

pub fn known_name(id: u16) -> (r: &'static str)
    ensures
        r@ == spec_known_name(id),
{
    proof {
        reveal_strlit("");
    }
    match id {
        0x0001 => "FeatureSet",
        0x0003 => "DeviceName",
        0x0005 => "FirmwareVersion",
        0x1000 => "BatteryStatus",
        0x1001 => "BatteryVoltage",
        0x1004 => "UnifiedBattery",
        0x1300 => "LedSoftwareControl",
        0x2200 => "MousePointerBasic",
        0x2201 => "AdjustableDPI",
        0x2202 => "MouseButtonSpy",
        0x8060 => "ReportRate",
        0x8070 => "ColorLEDEffects",
        0x8100 => "OnboardProfiles",
        _ => "",
    }
}

/// Bytes as lowercase hexadecimal pairs separated by spaces.
pub fn hex(data: &[u8]) -> (r: String)
    ensures
        r@ == spec_hex(data@),
{
    crate::device::hex(data)
}

/// Which sections a probe covers: features, battery, DPI, lighting, onboard.
pub open spec fn spec_probe_sections(what: Seq<char>) -> (bool, bool, bool, bool, bool) {
    let all = what == "all"@;
    (
        all || what == "features"@,
        all || what == "battery"@,
        all || what == "dpi"@,
        all || what == "led"@,
        all || what == "onboard"@,
    )
}

pub fn probe_sections(what: &str) -> (r: (bool, bool, bool, bool, bool))
    ensures
        r == spec_probe_sections(what@),
{
    let all = crate::text::str_is(what, "all");
    (
        all || crate::text::str_is(what, "features"),
        all || crate::text::str_is(what, "battery"),
        all || crate::text::str_is(what, "dpi"),
        all || crate::text::str_is(what, "led"),
        all || crate::text::str_is(what, "onboard"),
    )
}

/// The line of a request in a raw probe, and whether the probe of this feature
/// stops there (on an error other than a refusal or a timeout).
pub open spec fn spec_raw_probe_line(function: u8, long: bool, result: Result<Vec<u8>, HidppError>) -> (
    Seq<char>,
    bool,
) {
    let head = "  f"@ + crate::text::dec_digits(function as nat) + " "@ + if long {
        "long "@
    } else {
        "short"@
    } + " → "@;
    match result {
        Ok(resp) => (head + spec_hex(resp@), false),
        Err(HidppError::Rejected { code, message }) => (
            head + "✗ "@ + message@ + " ("@ + hex_prefixed(code as nat, 2) + ")"@,
            false,
        ),
        Err(HidppError::Timeout(_)) => (head + "⚠ 超时"@, false),
        Err(e) => (head + "⚠ "@ + spec_error_text(e), true),
    }
}

pub fn raw_probe_line(function: u8, long: bool, result: &Result<Vec<u8>, HidppError>) -> (r: (
    String,
    bool,
))
    ensures
        r.0@ == spec_raw_probe_line(function, long, *result).0,
        r.1 == spec_raw_probe_line(function, long, *result).1,
{
    let mut s = String::from_str("  f");
    let f = crate::text::decimal(function as u64);
    s.append(f.as_str());
    s.append(" ");
    s.append(if long {
        "long "
    } else {
        "short"
    });
    s.append(" → ");
    match result {
        Ok(resp) => {
            let h = crate::device::hex(resp.as_slice());
            s.append(h.as_str());
            (s, false)
        },
        Err(HidppError::Rejected { code, message }) => {
            s.append("✗ ");
            s.append(message.as_str());
            s.append(" (");
            let c = hex_prefixed_exec(*code as u64, 2);
            s.append(c.as_str());
            s.append(")");
            (s, false)
        },
        Err(HidppError::Timeout(_)) => {
            s.append("⚠ 超时");
            (s, false)
        },
        Err(e) => {
            s.append("⚠ ");
            let t = e.to_text();
            s.append(t.as_str());
            (s, true)
        },
    }
}

/// The effect id a GetZoneEffectInfo reply names (bytes 6–7, big-endian); 0 for a
/// short reply.
pub fn slot_effect_id(resp: &[u8]) -> (r: u16)
    ensures
        r == if resp@.len() >= 8 {
            resp@[6] as int * 256 + resp@[7] as int
        } else {
            0
        },
{
    if resp.len() >= 8 {
        let hi = resp[6] as u16;
        let lo = resp[7] as u16;
        assert(hi * 256 + lo <= 0xFFFF) by (nonlinear_arith)
            requires
                hi <= 255,
                lo <= 255,
        ;
        hi * 256 + lo
    } else {
        0
    }
}

/// The number of lighting zones a GetInfo reply gives (byte 4), at least one; one
/// when the request failed.
pub fn zone_count(resp: &Option<Vec<u8>>) -> (r: u8)
    ensures
        r == match resp {
            Some(v) => if v@.len() > 4 && v@[4] > 0 {
                v@[4]
            } else {
                1u8
            },
            None => 1u8,
        },
{
    match resp {
        Some(v) => if v.len() > 4 && v[4] > 0 {
            v[4]
        } else {
            1
        },
        None => 1,
    }
}

/// The line of a feature in the feature list: id, index and known name.
pub fn feature_line(id: u16, index: u8) -> (r: String)
    ensures
        r@ == "  "@ + hex_prefixed(id as nat, 4) + "  index="@ + hex_prefixed(index as nat, 2) + "  "@
            + spec_known_name(id),
{
    let mut s = String::from_str("  ");
    let a = hex_prefixed_exec(id as u64, 4);
    s.append(a.as_str());
    s.append("  index=");
    let b = hex_prefixed_exec(index as u64, 2);
    s.append(b.as_str());
    s.append("  ");
    s.append(known_name(id));
    s
}

} // verus!
