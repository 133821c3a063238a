//! Battery: HID++ features 0x1001 (Battery Voltage), 0x1004 (Unified Battery) and
//! 0x1000 (Battery Status).
//!
//! A 0x1001 reply carries `[voltage mV (u16 BE), flags]`; flags bit 7 = charging,
//! bits 0–1 sub-state (0 charging, 1 full, 2 not charging), bit 3 fast charge,
//! bit 4 slow charge, bit 5 critically low.
use crate::features::dpi::{be16, read_be16};
use crate::hidpp::HidppError;
use crate::text::dec_digits;
use vstd::prelude::*;

verus! {

pub const F_UNIFIED_BATTERY: u16 = 0x1004;
pub const F_BATTERY_VOLTAGE: u16 = 0x1001;
pub const F_BATTERY_STATUS: u16 = 0x1000;

#[derive(Debug, Clone)]
pub struct BatteryInfo {
    pub percent: u8,
    pub voltage_mv: Option<u16>,
    pub charging: bool,
    pub state_text: String,
}

/// Voltage (mV) of point `k` of the voltage-to-charge curve, highest voltage first.
pub open spec fn curve_mv(k: int) -> int {
    if k == 0 {
        4186
    } else if k == 1 {
        4067
    } else if k == 2 {
        3989
    } else if k == 3 {
        3922
    } else if k == 4 {
        3859
    } else if k == 5 {
        3811
    } else if k == 6 {
        3778
    } else if k == 7 {
        3751
    } else if k == 8 {
        3717
    } else if k == 9 {
        3671
    } else if k == 10 {
        3646
    } else if k == 11 {
        3579
    } else {
        3500
    }
}

/// Charge (%) of point `k` of the voltage-to-charge curve.
pub open spec fn curve_percent(k: int) -> int {
    if k == 0 {
        100
    } else if k == 1 {
        90
    } else if k == 2 {
        80
    } else if k == 3 {
        70
    } else if k == 4 {
        60
    } else if k == 5 {
        50
    } else if k == 6 {
        40
    } else if k == 7 {
        30
    } else if k == 8 {
        20
    } else if k == 9 {
        10
    } else if k == 10 {
        5
    } else if k == 11 {
        2
    } else {
        0
    }
}

/// Linear interpolation on segment `k` (between points `k` and `k + 1`),
/// rounded to the nearest percent with halves rounded up.
pub open spec fn segment_percent(k: int, mv: int) -> int {
    let (v1, p1, v2, p2) = (curve_mv(k), curve_percent(k), curve_mv(k + 1), curve_percent(k + 1));
    let d = (p1 - p2) * (v1 - mv);
    let q = v1 - v2;
    (q * (2 * p1 + 1) - 2 * d) / (2 * q)
}

/// Interpolates on the first segment, from `k` on, that contains `mv`.
pub open spec fn curve_search(mv: int, k: int) -> int
    decreases 12 - k,
{
    if k >= 12 || k < 0 {
        0
    } else if curve_mv(k + 1) <= mv <= curve_mv(k) {
        segment_percent(k, mv)
    } else {
        curve_search(mv, k + 1)
    }
}

/// Charge percentage for a battery voltage: 100 at 4186 mV and above, 0 at 3500 mV
/// and below, linear between the points of the curve in between.
pub open spec fn spec_percent_from_voltage(mv: u16) -> int {
    if mv >= 4186 {
        100
    } else if mv <= 3500 {
        0
    } else {
        curve_search(mv as int, 0)
    }
}

proof fn lemma_segment_bounds(k: int, mv: int)
    requires
        0 <= k < 12,
        curve_mv(k + 1) <= mv <= curve_mv(k),
    ensures
        curve_percent(k + 1) <= segment_percent(k, mv) <= curve_percent(k),
{
    let (v1, p1, v2, p2) = (curve_mv(k), curve_percent(k), curve_mv(k + 1), curve_percent(k + 1));
    assert(v1 > v2 && p1 > p2 && p2 >= 0);
    let d = (p1 - p2) * (v1 - mv);
    let q = v1 - v2;
    assert(0 <= d <= (p1 - p2) * q) by (nonlinear_arith)
        requires p1 > p2, 0 <= v1 - mv <= q, d == (p1 - p2) * (v1 - mv);
    assert(p2 <= (q * (2 * p1 + 1) - 2 * d) / (2 * q) <= p1) by (nonlinear_arith)
        requires q > 0, 0 <= d <= (p1 - p2) * q, p2 <= p1;
}

proof fn lemma_search_bounds(mv: int, k: int)
    requires
        0 <= k <= 12,
        curve_mv(12) < mv < curve_mv(0),
        mv <= curve_mv(k),
    ensures
        0 <= curve_search(mv, k) <= 100,
    decreases 12 - k,
{
    if k < 12 {
        if curve_mv(k + 1) <= mv <= curve_mv(k) {
            lemma_segment_bounds(k, mv);
        } else {
            lemma_search_bounds(mv, k + 1);
        }
    }
}

/// Within one segment, a higher voltage gives at least the same percentage.
proof fn lemma_segment_monotone(k: int, mv1: int, mv2: int)
    requires
        0 <= k < 12,
        curve_mv(k + 1) <= mv1 <= mv2 <= curve_mv(k),
    ensures
        segment_percent(k, mv1) <= segment_percent(k, mv2),
{
    let (v1, p1, v2, p2) = (curve_mv(k), curve_percent(k), curve_mv(k + 1), curve_percent(k + 1));
    assert(v1 > v2 && p1 > p2);
    let q = v1 - v2;
    let d1 = (p1 - p2) * (v1 - mv1);
    let d2 = (p1 - p2) * (v1 - mv2);
    assert(d2 <= d1) by (nonlinear_arith)
        requires p1 > p2, v1 - mv2 <= v1 - mv1, d1 == (p1 - p2) * (v1 - mv1), d2 == (p1 - p2) * (v1 - mv2);
    let n1 = q * (2 * p1 + 1) - 2 * d1;
    let n2 = q * (2 * p1 + 1) - 2 * d2;
    assert(n1 <= n2);
    assert(n1 / (2 * q) <= n2 / (2 * q)) by (nonlinear_arith)
        requires q > 0, n1 <= n2;
}

/// The curve search lands on a segment that holds `mv`, when one from `k` on does.
proof fn lemma_search_segment(mv: int, k: int) -> (s: int)
    requires
        0 <= k <= 12,
        curve_mv(12) < mv < curve_mv(0),
        mv <= curve_mv(k),
    ensures
        k <= s < 12,
        curve_mv(s + 1) <= mv <= curve_mv(s),
        curve_search(mv, k) == segment_percent(s, mv),
    decreases 12 - k,
{
    if k < 12 && curve_mv(k + 1) <= mv {
        k
    } else {
        lemma_search_segment(mv, k + 1)
    }
}

/// A higher battery voltage never shows a lower charge percentage.
pub proof fn lemma_percent_monotone(mv1: u16, mv2: u16)
    requires
        mv1 <= mv2,
    ensures
        spec_percent_from_voltage(mv1) <= spec_percent_from_voltage(mv2),
{
    if mv1 > 3500 && mv2 < 4186 && mv1 < mv2 {
        let s1 = lemma_search_segment(mv1 as int, 0);
        let s2 = lemma_search_segment(mv2 as int, 0);
        if s1 == s2 {
            lemma_segment_monotone(s1, mv1 as int, mv2 as int);
        } else {
            lemma_segment_bounds(s1, mv1 as int);
            lemma_segment_bounds(s2, mv2 as int);
            assert(s1 > s2);
            assert(curve_percent(s1) <= curve_percent(s2 + 1));
        }
    } else if mv1 > 3500 && mv1 < 4186 && mv2 >= 4186 {
        lemma_search_bounds(mv1 as int, 0);
    } else if mv1 <= 3500 && mv2 > 3500 && mv2 < 4186 {
        lemma_search_bounds(mv2 as int, 0);
    }
}

/// Charge percentage for a battery voltage (linear approximation of the curve).
pub fn percent_from_voltage(mv: u16) -> (r: u8)
    ensures
        r == spec_percent_from_voltage(mv),
        r <= 100,
{
    let vs: [u32; 13] = [4186, 4067, 3989, 3922, 3859, 3811, 3778, 3751, 3717, 3671, 3646, 3579, 3500];
    let ps: [u32; 13] = [100, 90, 80, 70, 60, 50, 40, 30, 20, 10, 5, 2, 0];
    if mv >= 4186 {
        return 100;
    }
    if mv <= 3500 {
        return 0;
    }
    proof {
        lemma_search_bounds(mv as int, 0);
    }
    let m = mv as u32;
    let mut k: usize = 0;
    while k < 12
        invariant
            k <= 12,
            3500 < m < 4186,
            m == mv as u32,
            3500 < mv < 4186,
            m <= curve_mv(k as int),
            curve_search(m as int, 0) == curve_search(m as int, k as int),
            forall|j: int| 0 <= j < 13 ==> vs@[j] == curve_mv(j) && ps@[j] == curve_percent(j),
        decreases 12 - k,
    {
        let (v1, p1, v2, p2) = (vs[k], ps[k], vs[k + 1], ps[k + 1]);
        if v2 <= m && m <= v1 {
            let q = v1 - v2;
            assert(p1 > p2 && p1 <= 100 && q <= 700 && v1 - m <= q);
            assert((p1 - p2) * (v1 - m) <= 100 * 700) by (nonlinear_arith)
                requires 0 <= p1 - p2 <= 100, 0 <= v1 - m <= 700;
            let d = (p1 - p2) * (v1 - m);
            proof {
                lemma_segment_bounds(k as int, m as int);
                assert(0 <= d <= (p1 - p2) * q) by (nonlinear_arith)
                    requires p1 > p2, 0 <= v1 - m <= q, d == (p1 - p2) * (v1 - m);
                assert(q * (2 * p1 + 1) <= 700 * 201) by (nonlinear_arith)
                    requires 0 <= q <= 700, 0 <= p1 <= 100;
                assert(2 * d <= q * (2 * p1 + 1)) by (nonlinear_arith)
                    requires 0 <= d <= (p1 - p2) * q, p2 >= 0, q >= 0, p1 >= p2;
                assert(curve_search(m as int, k as int) == segment_percent(k as int, m as int));
            }
            let value = (q * (2 * p1 + 1) - 2 * d) / (2 * q);
            assert(value == segment_percent(k as int, m as int));
            assert(value <= 100);
            return value as u8;
        }
        k += 1;
    }
    proof {
        assert(curve_mv(12) == 3500);
    }
    0
}

pub open spec fn spec_voltage_state(flags: u8) -> Seq<char> {
    let charging = flags & 0x80 != 0;
    let base = if flags & 0x03 == 1 {
        "已充满"@
    } else if charging {
        if flags & 0x08 != 0 {
            "充电中(快充)"@
        } else if flags & 0x10 != 0 {
            "充电中(慢充)"@
        } else {
            "充电中"@
        }
    } else {
        "放电中"@
    };
    if flags & 0x20 != 0 {
        base + " ⚠️电量极低"@
    } else {
        base
    }
}

/// What a 0x1001 reply's flags byte reports first: full ("已充满") whenever the
/// sub-state bits (flags & 0x03) are 1, whatever bit 7 (external power) says;
/// otherwise charging ("充电中", with its speed) while bit 7 is set, and discharging
/// ("放电中") while it is not.
pub proof fn lemma_voltage_state_leads(flags: u8)
    ensures
        flags & 0x03 == 1 ==> spec_voltage_state(flags).take(3) == "已充满"@,
        flags & 0x03 != 1 && flags & 0x80 != 0 ==> spec_voltage_state(flags).take(3) == "充电中"@,
        flags & 0x03 != 1 && flags & 0x80 == 0 ==> spec_voltage_state(flags).take(3) == "放电中"@,
{
    reveal_strlit("已充满");
    reveal_strlit("充电中(快充)");
    reveal_strlit("充电中(慢充)");
    reveal_strlit("充电中");
    reveal_strlit("放电中");
    reveal_strlit(" ⚠️电量极低");
    let st = spec_voltage_state(flags);
    if flags & 0x03 == 1 {
        assert(st.take(3) =~= "已充满"@);
    } else if flags & 0x80 != 0 {
        assert(st.take(3) =~= "充电中"@);
    } else {
        assert(st.take(3) =~= "放电中"@);
    }
}

/// Decodes a 0x1001 GetBatteryVoltage reply; one shorter than 7 bytes is refused.
pub fn parse_voltage_battery(resp: &[u8]) -> (r: Result<BatteryInfo, HidppError>)
    ensures
        resp@.len() < 7 ==> (r matches Err(HidppError::Invalid(m)) && m@ == "电池响应过短"@),
        resp@.len() >= 7 ==> (r matches Ok(b) && {
            let mv = be16(resp@[4], resp@[5]);
            &&& b.voltage_mv == Some(mv as u16)
            &&& b.percent == spec_percent_from_voltage(mv as u16)
            &&& b.charging == (resp@[6] & 0x80 != 0)
            &&& b.state_text@ == spec_voltage_state(resp@[6])
        }),
{
    if resp.len() < 7 {
        return Err(HidppError::Invalid(String::from_str("电池响应过短")));
    }
    let mv = read_be16(resp[4], resp[5]);
    let flags = resp[6];
    let charging = flags & 0x80 != 0;
    let mut state = if flags & 0x03 == 1 {
        String::from_str("已充满")
    } else if charging {
        if flags & 0x08 != 0 {
            String::from_str("充电中(快充)")
        } else if flags & 0x10 != 0 {
            String::from_str("充电中(慢充)")
        } else {
            String::from_str("充电中")
        }
    } else {
        String::from_str("放电中")
    };
    if flags & 0x20 != 0 {
        state.append(" ⚠️电量极低");
    }
    Ok(BatteryInfo { percent: percent_from_voltage(mv), voltage_mv: Some(mv), charging, state_text: state })
}

fn numbered_state(n: u8) -> (r: String)
    ensures
        r@ == "状态"@ + dec_digits(n as nat),
{
    let mut s = String::from_str("状态");
    let d = crate::text::decimal(n as u64);
    s.append(d.as_str());
    s
}

pub open spec fn spec_unified_state(state: u8) -> Seq<char> {
    if state == 0 {
        "充电中"@
    } else if state == 1 {
        "已充满"@
    } else if state == 2 {
        "放电中"@
    } else {
        "状态"@ + dec_digits(state as nat)
    }
}

/// Decodes a 0x1004 unified battery reply `[level, external, charge state]`;
/// a level above 100 is read on a 0–255 scale; charge state 0 means charging.
pub fn parse_unified_battery(resp: &[u8]) -> (r: BatteryInfo)
    requires
        resp@.len() >= 6,
    ensures
        ({
            let level = resp@[4];
            let state: u8 = if resp@.len() > 6 { resp@[6] } else { 0 };
            &&& r.percent == (if level <= 100 { level as int } else { level as int * 100 / 255 })
            &&& r.voltage_mv is None
            &&& r.charging == (state == 0)
            &&& r.state_text@ == spec_unified_state(state)
        }),
{
    let level = resp[4];
    let state: u8 = if resp.len() > 6 { resp[6] } else { 0 };
    let percent: u8 = if level <= 100 {
        level
    } else {
        assert(level as u32 * 100 / 255 <= 100) by (nonlinear_arith)
            requires level <= 255;
        (level as u32 * 100 / 255) as u8
    };
    let text = match state {
        0 => String::from_str("充电中"),
        1 => String::from_str("已充满"),
        2 => String::from_str("放电中"),
        other => numbered_state(other),
    };
    BatteryInfo { percent, voltage_mv: None, charging: state == 0, state_text: text }
}

pub open spec fn spec_status_state(state: u8) -> Seq<char> {
    if state == 0 {
        "放电中"@
    } else if state == 1 {
        "充电中"@
    } else if state == 2 {
        "几乎充满"@
    } else if state == 3 {
        "电量不足"@
    } else {
        "状态"@ + dec_digits(state as nat)
    }
}

/// Decodes a 0x1000 battery status reply `[level, state]`; state 1 means charging.
pub fn parse_status_battery(resp: &[u8]) -> (r: BatteryInfo)
    requires
        resp@.len() >= 6,
    ensures
        r.percent == (if resp@[4] > 100 { 100 } else { resp@[4] }),
        r.voltage_mv is None,
        r.charging == (resp@[5] == 1),
        r.state_text@ == spec_status_state(resp@[5]),
{
    let level = resp[4];
    let state = resp[5];
    let text = match state {
        0 => String::from_str("放电中"),
        1 => String::from_str("充电中"),
        2 => String::from_str("几乎充满"),
        3 => String::from_str("电量不足"),
        other => numbered_state(other),
    };
    BatteryInfo {
        percent: if level > 100 { 100 } else { level },
        voltage_mv: None,
        charging: state == 1,
        state_text: text,
    }
}

/// The battery features a read tries, in order: voltage first (the G502 answers
/// it), then unified battery, then battery status; the first that answers wins.
pub fn battery_features() -> (r: [u16; 3])
    ensures
        r@ == seq![F_BATTERY_VOLTAGE, F_UNIFIED_BATTERY, F_BATTERY_STATUS],
{
    let r = [F_BATTERY_VOLTAGE, F_UNIFIED_BATTERY, F_BATTERY_STATUS];
    assert(r@ =~= seq![F_BATTERY_VOLTAGE, F_UNIFIED_BATTERY, F_BATTERY_STATUS]);
    r
}

/// The error when none of the battery features answered.
pub fn no_battery_feature() -> (r: HidppError)
    ensures
        r matches HidppError::Invalid(m) && m@ == "设备不支持任何已知电池 feature (0x1000/0x1001/0x1004)"@,
{
    HidppError::Invalid(String::from_str("设备不支持任何已知电池 feature (0x1000/0x1001/0x1004)"))
}

} // verus!
