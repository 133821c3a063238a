//! Three-segment indicator strip: HID++ feature 0x1300 (LED Software Control).
//!
//! The strip has three physical LEDs shared by three logical indicators:
//! index 0 = battery, 1 = DPI, 2 = profile.
//! f3 SetSWControl(true) hands the strip to the host, (false) back to the firmware.
//! f5 SetLEDState(index, mode, value, on_time, off_time): mode 0x0001 is off,
//! 0x0002 is on with value 1..=3 lit segments.
use vstd::prelude::*;

verus! {

pub const F_LED_SW_CONTROL: u16 = 0x1300;
pub const BATTERY_LED_INDEX: u8 = 0;
pub const DPI_LED_INDEX: u8 = 1;
pub const PROFILE_LED_INDEX: u8 = 2;
pub const PRIMARY_SEGMENT_COUNT: u8 = 3;
pub const MODE_OFF: u16 = 0x0001;
pub const MODE_ON: u16 = 0x0002;

/// The 9 parameter bytes of SetLEDState: the index, then mode, value, on time and off
/// time as big-endian 16-bit numbers.
pub open spec fn spec_state_params(led_index: u8, mode: u16, value: u16, on_time: u16, off_time: u16) -> Seq<u8> {
    seq![
        led_index,
        (mode / 256) as u8,
        (mode % 256) as u8,
        (value / 256) as u8,
        (value % 256) as u8,
        (on_time / 256) as u8,
        (on_time % 256) as u8,
        (off_time / 256) as u8,
        (off_time % 256) as u8,
    ]
}

fn split_be(v: u16) -> (r: (u8, u8))
    ensures
        r.0 == (v / 256) as u8,
        r.1 == (v % 256) as u8,
{
    let hi = (v >> 8) as u8;
    let lo = v as u8;
    assert(hi == (v / 256) as u8 && lo == (v % 256) as u8) by (bit_vector)
        requires hi == (v >> 8) as u8, lo == v as u8;
    (hi, lo)
}

pub fn state_params(led_index: u8, mode: u16, logical_value: u16, on_time: u16, off_time: u16) -> (r: [u8; 9])
    ensures
        r@ == spec_state_params(led_index, mode, logical_value, on_time, off_time),
{
    let m = split_be(mode);
    let v = split_be(logical_value);
    let a = split_be(on_time);
    let b = split_be(off_time);
    let r = [led_index, m.0, m.1, v.0, v.1, a.0, a.1, b.0, b.1];
    assert(r@ =~= spec_state_params(led_index, mode, logical_value, on_time, off_time));
    r
}

/// Parameters of SetSWControl: 1 hands the strip to the host, 0 to the firmware.
pub fn software_control_params(enabled: bool) -> (r: [u8; 3])
    ensures
        r@ == seq![if enabled { 1u8 } else { 0u8 }, 0u8, 0u8],
{
    let r = [if enabled { 1 } else { 0 }, 0, 0];
    assert(r@ =~= seq![if enabled { 1u8 } else { 0u8 }, 0u8, 0u8]);
    r
}

/// The SetLEDState that shows `bars` lit segments on the battery indicator:
/// 0 switches it off, 1..=3 lights that many, more lights all three.
pub open spec fn spec_bars_state(bars: u8) -> Seq<u8> {
    if bars == 0 {
        spec_state_params(BATTERY_LED_INDEX, MODE_OFF, 0, 0, 0)
    } else if bars <= 3 {
        spec_state_params(BATTERY_LED_INDEX, MODE_ON, bars as u16, 0, 0)
    } else {
        spec_state_params(BATTERY_LED_INDEX, MODE_ON, PRIMARY_SEGMENT_COUNT as u16, 0, 0)
    }
}

pub fn bars_state_params(bars: u8) -> (r: [u8; 9])
    ensures
        r@ == spec_bars_state(bars),
{
    if bars == 0 {
        state_params(BATTERY_LED_INDEX, MODE_OFF, 0, 0, 0)
    } else if bars <= 3 {
        state_params(BATTERY_LED_INDEX, MODE_ON, bars as u16, 0, 0)
    } else {
        state_params(BATTERY_LED_INDEX, MODE_ON, PRIMARY_SEGMENT_COUNT as u16, 0, 0)
    }
}

} // verus!
