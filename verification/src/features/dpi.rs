//! DPI: HID++ feature 0x2201 (Adjustable DPI).
//!
//! Functions: f0 GetSensorCount, f1 GetSensorDPIList, f2 GetSensorDPI, f3 SetSensorDPI.
//! The DPI list is a sequence of big-endian `u16` entries ending with 0x0000; an entry
//! whose top three bits are `0b111` describes a range: its low 13 bits are the step,
//! and the next entry is the inclusive end of the range, which starts after the
//! previous value.
use crate::hidpp::HidppError;
use crate::text::dec_digits;
use vstd::prelude::*;

verus! {

pub const F_ADJUSTABLE_DPI: u16 = 0x2201;
/// Most values a single range entry may add to the list.
pub const DPI_LIST_CAP: usize = 4096;
/// The list reported when the device lists nothing.
pub const DEFAULT_DPI: u16 = 800;
pub const DPI_MIN: u16 = 50;
pub const DPI_MAX: u16 = 32000;

pub open spec fn be16(hi: u8, lo: u8) -> nat {
    hi as nat * 256 + lo as nat
}

/// Reads a big-endian `u16` from two bytes.
pub fn read_be16(hi: u8, lo: u8) -> (r: u16)
    ensures
        r == be16(hi, lo),
{
    let r = ((hi as u16) << 8) | lo as u16;
    assert(r == hi as nat * 256 + lo as nat) by (bit_vector)
        requires r == ((hi as u16) << 8) | lo as u16;
    r
}

/// Values of a range: `v`, `v + step`, ... while at most `end` and while the list
/// holds fewer than 4096 values.
pub open spec fn spec_range_run(vals: Seq<u16>, v: nat, step: nat, end: nat) -> Seq<u16>
    decreases DPI_LIST_CAP - vals.len(),
{
    if v <= end && vals.len() < DPI_LIST_CAP {
        spec_range_run(vals.push(v as u16), v + step, step, end)
    } else {
        vals
    }
}

/// No value computed while expanding a range exceeds 16 bits.
pub open spec fn spec_range_run_fits(vals: Seq<u16>, v: nat, step: nat, end: nat) -> bool
    decreases DPI_LIST_CAP - vals.len(),
{
    v <= 0xFFFF && (v <= end && vals.len() < DPI_LIST_CAP ==> spec_range_run_fits(
        vals.push(v as u16),
        v + step,
        step,
        end,
    ))
}

/// Decodes the entries from byte `i` on, appending to `vals`.
pub open spec fn spec_decode_from(raw: Seq<u8>, i: nat, vals: Seq<u16>) -> Seq<u16>
    decreases raw.len() - i,
{
    if i + 1 >= raw.len() {
        vals
    } else {
        let val = be16(raw[i as int], raw[(i + 1) as int]);
        if val == 0 {
            vals
        } else if val >= 0xE000 {
            if i + 3 >= raw.len() {
                vals
            } else {
                let step = (val - 0xE000) as nat;
                let end = be16(raw[(i + 2) as int], raw[(i + 3) as int]);
                let next = if vals.len() > 0 && step > 0 {
                    spec_range_run(vals, vals.last() as nat + step, step, end)
                } else {
                    vals
                };
                spec_decode_from(raw, i + 4, next)
            }
        } else {
            spec_decode_from(raw, i + 2, vals.push(val as u16))
        }
    }
}

/// Decoding from byte `i` never computes a value above 16 bits.
pub open spec fn spec_decode_fits(raw: Seq<u8>, i: nat, vals: Seq<u16>) -> bool
    decreases raw.len() - i,
{
    if i + 1 >= raw.len() {
        true
    } else {
        let val = be16(raw[i as int], raw[(i + 1) as int]);
        if val == 0 {
            true
        } else if val >= 0xE000 {
            if i + 3 >= raw.len() {
                true
            } else {
                let step = (val - 0xE000) as nat;
                let end = be16(raw[(i + 2) as int], raw[(i + 3) as int]);
                if vals.len() > 0 && step > 0 {
                    spec_range_run_fits(vals, vals.last() as nat + step, step, end)
                        && spec_decode_fits(
                        raw,
                        i + 4,
                        spec_range_run(vals, vals.last() as nat + step, step, end),
                    )
                } else {
                    spec_decode_fits(raw, i + 4, vals)
                }
            }
        } else {
            spec_decode_fits(raw, i + 2, vals.push(val as u16))
        }
    }
}

/// The DPI list a raw f1 answer describes; 800 alone when it lists nothing.
pub open spec fn spec_decode_dpi_list(raw: Seq<u8>) -> Seq<u16> {
    let vals = spec_decode_from(raw, 0, Seq::empty());
    if vals.len() == 0 {
        seq![DEFAULT_DPI]
    } else {
        vals
    }
}

proof fn lemma_range_run_grows(vals: Seq<u16>, v: nat, step: nat, end: nat)
    ensures
        spec_range_run(vals, v, step, end).len() >= vals.len(),
        spec_range_run(vals, v, step, end).len() <= DPI_LIST_CAP || spec_range_run(vals, v, step, end)
            == vals,
    decreases DPI_LIST_CAP - vals.len(),
{
    if v <= end && vals.len() < DPI_LIST_CAP {
        lemma_range_run_grows(vals.push(v as u16), v + step, step, end);
    }
}

fn expand_range(vals: &mut Vec<u16>, step: u16, end: u16)
    requires
        old(vals)@.len() > 0,
        step > 0,
        spec_range_run_fits(old(vals)@, old(vals)@.last() as nat + step as nat, step as nat, end as nat),
    ensures
        final(vals)@ == spec_range_run(old(vals)@, old(vals)@.last() as nat + step as nat, step as nat, end as nat),
{
    let ghost target = spec_range_run(vals@, vals@.last() as nat + step as nat, step as nat, end as nat);
    let last = vals[vals.len() - 1];
    let mut v = last + step;
    while v <= end && vals.len() < DPI_LIST_CAP
        invariant
            spec_range_run(vals@, v as nat, step as nat, end as nat) == target,
            spec_range_run_fits(vals@, v as nat, step as nat, end as nat),
        decreases DPI_LIST_CAP - vals@.len(),
    {
        vals.push(v);
        assert(spec_range_run_fits(vals@, v as nat + step as nat, step as nat, end as nat));
        v = v + step;
    }
}

/// Decodes a raw f1 answer (the concatenated pages without their sensor byte) into the
/// supported DPI values, expanding range entries.
pub fn decode_dpi_list(raw: &[u8]) -> (r: Vec<u16>)
    requires
        spec_decode_fits(raw@, 0, Seq::empty()),
    ensures
        r@ == spec_decode_dpi_list(raw@),
        r@.len() > 0,
{
    let mut vals: Vec<u16> = Vec::new();
    let mut i: usize = 0;
    let ghost target = spec_decode_from(raw@, 0, Seq::empty());
    while i < raw.len() && raw.len() - i >= 2
        invariant
            i <= raw@.len(),
            spec_decode_from(raw@, i as nat, vals@) == target,
            spec_decode_fits(raw@, i as nat, vals@),
        ensures
            vals@ == target,
        decreases raw@.len() - i,
    {
        let val = read_be16(raw[i], raw[i + 1]);
        if val == 0 {
            break;
        }
        if val >> 13 == 0b111 {
            let step = val & 0x1FFF;
            assert(val >> 13 == 7 <==> val >= 0xE000) by (bit_vector);
            assert(val >= 0xE000 ==> step == val - 0xE000) by (bit_vector)
                requires step == val & 0x1FFF;
            if raw.len() - i <= 3 {
                break;
            }
            let end = read_be16(raw[i + 2], raw[i + 3]);
            if vals.len() > 0 && step > 0 {
                expand_range(&mut vals, step, end);
            }
            i += 4;
        } else {
            assert(val >> 13 != 7 ==> val < 0xE000) by (bit_vector);
            vals.push(val);
            i += 2;
        }
    }
    if vals.len() == 0 {
        vals.push(DEFAULT_DPI);
    }
    vals
}

/// Expands a range as `expand_range` does, but stops and reports `false` when a value
/// would not fit in 16 bits.
fn expand_range_checked(vals: &mut Vec<u16>, step: u16, end: u16) -> (ok: bool)
    requires
        old(vals)@.len() > 0,
        0 < step <= 0x1FFF,
    ensures
        ok == spec_range_run_fits(old(vals)@, old(vals)@.last() as nat + step as nat, step as nat, end as nat),
        ok ==> final(vals)@ == spec_range_run(old(vals)@, old(vals)@.last() as nat + step as nat, step as nat, end as nat),
{
    let ghost start = old(vals)@.last() as nat + step as nat;
    let ghost target = spec_range_run(vals@, start, step as nat, end as nat);
    let ghost fits = spec_range_run_fits(vals@, start, step as nat, end as nat);
    let last = vals[vals.len() - 1];
    let mut v: u32 = last as u32 + step as u32;
    while v <= end as u32 && vals.len() < DPI_LIST_CAP
        invariant
            0 < step <= 0x1FFF,
            v <= 0xFFFF + 0x1FFF,
            spec_range_run(vals@, v as nat, step as nat, end as nat) == target,
            spec_range_run_fits(vals@, v as nat, step as nat, end as nat) == fits,
        decreases DPI_LIST_CAP - vals@.len(),
    {
        if v > 0xFFFF {
            return false;
        }
        vals.push(v as u16);
        v = v + step as u32;
    }
    v <= 0xFFFF
}

/// Decodes a raw f1 answer as `decode_dpi_list` does, when no value of it needs more
/// than 16 bits; `None` otherwise.
pub fn decode_dpi_list_checked(raw: &[u8]) -> (r: Option<Vec<u16>>)
    ensures
        r is Some <==> spec_decode_fits(raw@, 0, Seq::empty()),
        r matches Some(v) ==> v@ == spec_decode_dpi_list(raw@),
{
    let mut vals: Vec<u16> = Vec::new();
    let mut i: usize = 0;
    let ghost target = spec_decode_from(raw@, 0, Seq::empty());
    let ghost fits = spec_decode_fits(raw@, 0, Seq::empty());
    while i < raw.len() && raw.len() - i >= 2
        invariant
            i <= raw@.len(),
            spec_decode_from(raw@, i as nat, vals@) == target,
            spec_decode_fits(raw@, i as nat, vals@) == fits,
            fits == spec_decode_fits(raw@, 0, Seq::empty()),
        ensures
            vals@ == target,
            fits,
        decreases raw@.len() - i,
    {
        let val = read_be16(raw[i], raw[i + 1]);
        if val == 0 {
            break;
        }
        if val >> 13 == 0b111 {
            let step = val & 0x1FFF;
            assert(val >> 13 == 7 <==> val >= 0xE000) by (bit_vector);
            assert(val >= 0xE000 ==> step == val - 0xE000 && step <= 0x1FFF) by (bit_vector)
                requires step == val & 0x1FFF;
            if raw.len() - i <= 3 {
                break;
            }
            let end = read_be16(raw[i + 2], raw[i + 3]);
            if vals.len() > 0 && step > 0 {
                if !expand_range_checked(&mut vals, step, end) {
                    return None;
                }
            }
            i += 4;
        } else {
            assert(val >> 13 != 7 ==> val < 0xE000) by (bit_vector);
            vals.push(val);
            i += 2;
        }
    }
    if vals.len() == 0 {
        vals.push(DEFAULT_DPI);
    }
    Some(vals)
}

/// Parameters of the f1 request for the page that starts after `raw_len` bytes.
pub fn dpi_list_page_params(raw_len: usize) -> (r: [u8; 3])
    ensures
        r@ == seq![0u8, 0u8, (raw_len / 2) as u8],
{
    let r = [0x00, 0x00, (raw_len / 2) as u8];
    assert(r@ =~= seq![0u8, 0u8, (raw_len / 2) as u8]);
    r
}

/// Appends one f1 page (the reply without its first five bytes) and tells whether
/// the list is complete, i.e. ends with a 0x0000 entry.
pub fn append_dpi_page(raw: &mut Vec<u8>, resp: &[u8]) -> (done: bool)
    requires
        resp@.len() >= 5,
    ensures
        final(raw)@ == old(raw)@ + resp@.subrange(5, resp@.len() as int),
        done == (final(raw)@.len() >= 2 && final(raw)@[final(raw)@.len() - 2] == 0
            && final(raw)@.last() == 0),
{
    let mut k: usize = 5;
    let ghost start = raw@;
    while k < resp.len()
        invariant
            5 <= k <= resp@.len(),
            raw@ =~= start + resp@.subrange(5, k as int),
        decreases resp@.len() - k,
    {
        raw.push(resp[k]);
        k += 1;
    }
    let n = raw.len();
    n >= 2 && raw[n - 2] == 0 && raw[n - 1] == 0
}

/// The sensor count from the f0 reply; at least 1, and 1 when the request failed.
pub fn sensor_count_from(resp: &Result<Vec<u8>, HidppError>) -> (r: u8)
    requires
        resp matches Ok(v) ==> v@.len() >= 5,
    ensures
        resp matches Ok(v) ==> r == (if v@[4] == 0 { 1 } else { v@[4] }),
        resp is Err ==> r == 1,
{
    match resp {
        Ok(v) => if v[4] == 0 { 1 } else { v[4] },
        Err(_) => 1,
    }
}

pub open spec fn spec_dpi_in_range(dpi: nat) -> bool {
    DPI_MIN <= dpi <= DPI_MAX
}

/// The DPI an f2 reply reports: the current value, or the default value when the
/// current one reads 0; values outside 50–32000 are refused.
pub fn parse_get_dpi(resp: &[u8]) -> (r: Result<u16, HidppError>)
    requires
        resp@.len() >= 9,
    ensures
        ({
            let cur = be16(resp@[5], resp@[6]);
            let dpi = if cur == 0 { be16(resp@[7], resp@[8]) } else { cur };
            &&& spec_dpi_in_range(dpi) ==> r == Ok::<u16, HidppError>(dpi as u16)
            &&& !spec_dpi_in_range(dpi) ==> (r matches Err(HidppError::Invalid(m)) && m@
                == "DPI 读取异常: "@ + dec_digits(dpi))
        }),
{
    let mut dpi = read_be16(resp[5], resp[6]);
    if dpi == 0 {
        dpi = read_be16(resp[7], resp[8]);
    }
    if !(DPI_MIN <= dpi && dpi <= DPI_MAX) {
        let mut m = String::from_str("DPI 读取异常: ");
        let d = crate::text::decimal(dpi as u64);
        m.append(d.as_str());
        return Err(HidppError::Invalid(m));
    }
    Ok(dpi)
}

/// Parameters of the f3 SetSensorDPI request; a DPI outside 50–32000 is refused.
pub fn set_dpi_params(dpi: u16) -> (r: Result<[u8; 3], HidppError>)
    ensures
        spec_dpi_in_range(dpi as nat) ==> (r matches Ok(p) && p@ == seq![0u8, (dpi / 256) as u8, (dpi % 256) as u8]),
        !spec_dpi_in_range(dpi as nat) ==> (r matches Err(HidppError::Invalid(m)) && m@
            == "DPI 超出合理范围: "@ + dec_digits(dpi as nat)),
{
    if !(DPI_MIN <= dpi && dpi <= DPI_MAX) {
        let mut m = String::from_str("DPI 超出合理范围: ");
        let d = crate::text::decimal(dpi as u64);
        m.append(d.as_str());
        return Err(HidppError::Invalid(m));
    }
    let hi = (dpi >> 8) as u8;
    let lo = dpi as u8;
    assert(hi == (dpi / 256) as u8 && lo == (dpi % 256) as u8) by (bit_vector)
        requires hi == (dpi >> 8) as u8, lo == dpi as u8;
    let p = [0x00, hi, lo];
    assert(p@ =~= seq![0u8, (dpi / 256) as u8, (dpi % 256) as u8]);
    Ok(p)
}

/// Checks the DPI that the f3 reply echoes: 0 (no echo) or the requested value.
pub fn check_set_dpi_echo(dpi: u16, resp: &[u8]) -> (r: Result<(), HidppError>)
    requires
        resp@.len() >= 7,
    ensures
        ({
            let echoed = be16(resp@[5], resp@[6]);
            &&& (echoed == 0 || echoed == dpi) ==> r is Ok
            &&& !(echoed == 0 || echoed == dpi) ==> (r matches Err(HidppError::Invalid(m)) && m@
                == "DPI 写入回显不一致: 请求 "@ + dec_digits(dpi as nat) + ", 回显 "@ + dec_digits(echoed))
        }),
{
    let echoed = read_be16(resp[5], resp[6]);
    if echoed != 0 && echoed != dpi {
        let mut m = String::from_str("DPI 写入回显不一致: 请求 ");
        let d = crate::text::decimal(dpi as u64);
        m.append(d.as_str());
        m.append(", 回显 ");
        let e = crate::text::decimal(echoed as u64);
        m.append(e.as_str());
        return Err(HidppError::Invalid(m));
    }
    Ok(())
}

/// Confirms that the DPI read back after a write is the requested one.
pub fn confirm_dpi_readback(dpi: u16, actual: u16) -> (r: Result<u16, HidppError>)
    ensures
        actual == dpi ==> r == Ok::<u16, HidppError>(dpi),
        actual != dpi ==> (r matches Err(HidppError::Invalid(m)) && m@ == "DPI 读回不一致: 请求 "@
            + dec_digits(dpi as nat) + ", 实际 "@ + dec_digits(actual as nat)),
{
    if actual != dpi {
        let mut m = String::from_str("DPI 读回不一致: 请求 ");
        let d = crate::text::decimal(dpi as u64);
        m.append(d.as_str());
        m.append(", 实际 ");
        let a = crate::text::decimal(actual as u64);
        m.append(a.as_str());
        return Err(HidppError::Invalid(m));
    }
    Ok(actual)
}

/// A DPI written with the f3 parameters and reported back in an f2 reply in the same
/// byte positions reads back as the value written.
pub proof fn lemma_set_then_get_round_trip(dpi: u16, resp: Seq<u8>)
    requires
        spec_dpi_in_range(dpi as nat),
        resp.len() >= 9,
        resp[5] == (dpi / 256) as u8,
        resp[6] == (dpi % 256) as u8,
    ensures
        be16(resp[5], resp[6]) == dpi,
        be16(resp[5], resp[6]) != 0,
{
}

proof fn lemma_range_run_nonzero(vals: Seq<u16>, v: nat, step: nat, end: nat)
    requires
        forall|k: int| 0 <= k < vals.len() ==> vals[k] != 0,
        v > 0,
        spec_range_run_fits(vals, v, step, end),
    ensures
        forall|k: int| 0 <= k < spec_range_run(vals, v, step, end).len() ==> spec_range_run(
            vals,
            v,
            step,
            end,
        )[k] != 0,
    decreases DPI_LIST_CAP - vals.len(),
{
    if v <= end && vals.len() < DPI_LIST_CAP {
        let next = vals.push(v as u16);
        assert forall|k: int| 0 <= k < next.len() implies next[k] != 0 by {
            if k < vals.len() {
                assert(next[k] == vals[k]);
            }
        }
        assert((v as u16) != 0);
        assert(spec_range_run(vals, v, step, end) == spec_range_run(next, v + step, step, end));
        lemma_range_run_nonzero(next, v + step, step, end);
    } else {
        assert(spec_range_run(vals, v, step, end) == vals);
    }
}

proof fn lemma_decode_from_nonzero(raw: Seq<u8>, i: nat, vals: Seq<u16>)
    requires
        forall|k: int| 0 <= k < vals.len() ==> vals[k] != 0,
        spec_decode_fits(raw, i, vals),
    ensures
        forall|k: int| 0 <= k < spec_decode_from(raw, i, vals).len() ==> spec_decode_from(raw, i, vals)[k]
            != 0,
    decreases raw.len() - i,
{
    if i + 1 >= raw.len() {
        assert(spec_decode_from(raw, i, vals) == vals);
        return;
    }
    let val = be16(raw[i as int], raw[(i + 1) as int]);
    if val == 0 {
        assert(spec_decode_from(raw, i, vals) == vals);
    } else if val >= 0xE000 {
        if i + 3 >= raw.len() {
            assert(spec_decode_from(raw, i, vals) == vals);
        } else {
            let step = (val - 0xE000) as nat;
            let end = be16(raw[(i + 2) as int], raw[(i + 3) as int]);
            if vals.len() > 0 && step > 0 {
                assert(vals[vals.len() - 1] != 0);
                lemma_range_run_nonzero(vals, vals.last() as nat + step, step, end);
                let next = spec_range_run(vals, vals.last() as nat + step, step, end);
                assert(spec_decode_from(raw, i, vals) == spec_decode_from(raw, i + 4, next));
                lemma_decode_from_nonzero(raw, i + 4, next);
            } else {
                assert(spec_decode_from(raw, i, vals) == spec_decode_from(raw, i + 4, vals));
                lemma_decode_from_nonzero(raw, i + 4, vals);
            }
        }
    } else {
        let next = vals.push(val as u16);
        assert forall|k: int| 0 <= k < next.len() implies next[k] != 0 by {
            if k < vals.len() {
                assert(next[k] == vals[k]);
            }
        }
        assert(spec_decode_from(raw, i, vals) == spec_decode_from(raw, i + 2, next));
        lemma_decode_from_nonzero(raw, i + 2, next);
    }
}

/// Every decoded DPI value is non-zero (0 ends the list, ranges only climb).
pub proof fn lemma_decoded_dpi_nonzero(raw: Seq<u8>)
    requires
        spec_decode_fits(raw, 0, Seq::empty()),
    ensures
        forall|k: int| 0 <= k < spec_decode_dpi_list(raw).len() ==> spec_decode_dpi_list(raw)[k] != 0,
{
    lemma_decode_from_nonzero(raw, 0, Seq::empty());
}

/// Whether the bytes of `x` from `i` on are a run of whole list entries with no
/// terminator: two-byte values that are neither 0 nor 0xE000 and above, and
/// four-byte range entries (a first value of 0xE000 or above, then the range's end).
pub open spec fn spec_whole_entries(x: Seq<u8>, i: nat) -> bool
    decreases x.len() - i,
{
    if i >= x.len() {
        i == x.len()
    } else if i + 1 >= x.len() {
        false
    } else {
        let v = be16(x[i as int], x[(i + 1) as int]);
        if v == 0 {
            false
        } else if v >= 0xE000 {
            i + 3 < x.len() && spec_whole_entries(x, i + 4)
        } else {
            spec_whole_entries(x, i + 2)
        }
    }
}

proof fn lemma_decode_concat(x: Seq<u8>, y: Seq<u8>, i: nat, vals: Seq<u16>)
    requires
        i <= x.len(),
        spec_whole_entries(x, i),
    ensures
        spec_decode_from(x + y, i, vals) == spec_decode_from(x + y, x.len(), spec_decode_from(x, i, vals)),
    decreases x.len() - i,
{
    let raw = x + y;
    if i < x.len() {
        assert(raw[i as int] == x[i as int] && raw[(i + 1) as int] == x[(i + 1) as int]);
        let v = be16(x[i as int], x[(i + 1) as int]);
        if v >= 0xE000 {
            assert(raw[(i + 2) as int] == x[(i + 2) as int] && raw[(i + 3) as int] == x[(i + 3) as int]);
            let step = (v - 0xE000) as nat;
            let end = be16(x[(i + 2) as int], x[(i + 3) as int]);
            let next = if vals.len() > 0 && step > 0 {
                spec_range_run(vals, vals.last() as nat + step, step, end)
            } else {
                vals
            };
            lemma_decode_concat(x, y, i + 4, next);
        } else {
            lemma_decode_concat(x, y, i + 2, vals.push(v as u16));
        }
    }
}

proof fn lemma_decode_shift(raw: Seq<u8>, i: nat, vals: Seq<u16>)
    requires
        i <= raw.len(),
    ensures
        spec_decode_from(raw, i, vals) == spec_decode_from(raw.subrange(i as int, raw.len() as int), 0, vals),
    decreases raw.len() - i,
{
    let sub = raw.subrange(i as int, raw.len() as int);
    if i + 1 < raw.len() {
        assert(sub[0] == raw[i as int] && sub[1] == raw[(i + 1) as int]);
        let v = be16(raw[i as int], raw[(i + 1) as int]);
        if v >= 0xE000 && i + 3 < raw.len() {
            assert(sub[2] == raw[(i + 2) as int] && sub[3] == raw[(i + 3) as int]);
            let step = (v - 0xE000) as nat;
            let end = be16(raw[(i + 2) as int], raw[(i + 3) as int]);
            let next = if vals.len() > 0 && step > 0 {
                spec_range_run(vals, vals.last() as nat + step, step, end)
            } else {
                vals
            };
            lemma_decode_shift(raw, i + 4, next);
            lemma_decode_shift(sub, 4, next);
            assert(sub.subrange(4, sub.len() as int) =~= raw.subrange((i + 4) as int, raw.len() as int));
        } else if v != 0 && v < 0xE000 {
            lemma_decode_shift(raw, i + 2, vals.push(v as u16));
            lemma_decode_shift(sub, 2, vals.push(v as u16));
            assert(sub.subrange(2, sub.len() as int) =~= raw.subrange((i + 2) as int, raw.len() as int));
        }
    }
}

proof fn lemma_range_run_prefix(vals: Seq<u16>, v: nat, step: nat, end: nat)
    ensures
        vals.len() <= spec_range_run(vals, v, step, end).len(),
        forall|k: int| 0 <= k < vals.len() ==> spec_range_run(vals, v, step, end)[k] == #[trigger] vals[k],
    decreases DPI_LIST_CAP - vals.len(),
{
    if v <= end && vals.len() < DPI_LIST_CAP {
        lemma_range_run_prefix(vals.push(v as u16), v + step, step, end);
        assert forall|k: int| 0 <= k < vals.len() implies spec_range_run(vals, v, step, end)[k]
            == #[trigger] vals[k] by {
            assert(vals.push(v as u16)[k] == vals[k]);
        }
    }
}

proof fn lemma_decode_prefix(raw: Seq<u8>, i: nat, vals: Seq<u16>)
    ensures
        vals.len() <= spec_decode_from(raw, i, vals).len(),
        forall|k: int| 0 <= k < vals.len() ==> spec_decode_from(raw, i, vals)[k] == #[trigger] vals[k],
    decreases raw.len() - i,
{
    if i + 1 < raw.len() {
        let v = be16(raw[i as int], raw[(i + 1) as int]);
        if v >= 0xE000 && i + 3 < raw.len() {
            let step = (v - 0xE000) as nat;
            let end = be16(raw[(i + 2) as int], raw[(i + 3) as int]);
            if vals.len() > 0 && step > 0 {
                let next = spec_range_run(vals, vals.last() as nat + step, step, end);
                lemma_range_run_prefix(vals, vals.last() as nat + step, step, end);
                lemma_decode_prefix(raw, i + 4, next);
                assert forall|k: int| 0 <= k < vals.len() implies spec_decode_from(raw, i, vals)[k]
                    == #[trigger] vals[k] by {
                    assert(next[k] == vals[k]);
                }
            } else {
                lemma_decode_prefix(raw, i + 4, vals);
            }
        } else if v != 0 && v < 0xE000 {
            let next = vals.push(v as u16);
            lemma_decode_prefix(raw, i + 2, next);
            assert forall|k: int| 0 <= k < vals.len() implies spec_decode_from(raw, i, vals)[k]
                == #[trigger] vals[k] by {
                assert(next[k] == vals[k]);
            }
        }
    }
}

/// Decoding goes entry by entry: when `x` is a run of whole entries (no terminator),
/// the list decoded from `x` followed by `y` is what `x` decodes to, continued with
/// the entries of `y`. In particular a range entry does not end the list.
pub proof fn lemma_decode_compositional(x: Seq<u8>, y: Seq<u8>, vals: Seq<u16>)
    requires
        spec_whole_entries(x, 0),
    ensures
        spec_decode_from(x + y, 0, vals) == spec_decode_from(y, 0, spec_decode_from(x, 0, vals)),
{
    lemma_decode_concat(x, y, 0, vals);
    lemma_decode_shift(x + y, x.len(), spec_decode_from(x, 0, vals));
    assert((x + y).subrange(x.len() as int, (x + y).len() as int) =~= y);
}

/// Every plain entry before the terminator is in the decoded DPI list, right after
/// what the entries before it decoded to, whatever comes after it.
pub proof fn lemma_plain_entry_kept(x: Seq<u8>, hi: u8, lo: u8, y: Seq<u8>)
    requires
        spec_whole_entries(x, 0),
        0 < be16(hi, lo) < 0xE000,
    ensures
        ({
            let before = spec_decode_from(x, 0, Seq::empty());
            let list = spec_decode_dpi_list(x + seq![hi, lo] + y);
            &&& list.len() > before.len()
            &&& list[before.len() as int] == be16(hi, lo) as u16
            &&& forall|k: int| 0 <= k < before.len() ==> list[k] == #[trigger] before[k]
        }),
{
    let before = spec_decode_from(x, 0, Seq::empty());
    let tail = seq![hi, lo] + y;
    assert(x + seq![hi, lo] + y =~= x + tail);
    lemma_decode_compositional(x, tail, Seq::empty());
    assert(tail[0] == hi && tail[1] == lo);
    let v = be16(hi, lo);
    assert(spec_decode_from(tail, 0, before) == spec_decode_from(tail, 2, before.push(v as u16)));
    lemma_decode_prefix(tail, 2, before.push(v as u16));
    let all = spec_decode_from(tail, 2, before.push(v as u16));
    assert(all[before.len() as int] == before.push(v as u16)[before.len() as int]);
    assert forall|k: int| 0 <= k < before.len() implies all[k] == #[trigger] before[k] by {
        assert(all[k] == before.push(v as u16)[k]);
    }
}

/// How many values a range from `w` in steps of `step` up to `end` holds.
pub open spec fn range_count(w: nat, step: nat, end: nat) -> nat {
    if w <= end {
        ((end - w) / (step as int) + 1) as nat
    } else {
        0
    }
}

proof fn lemma_range_run_values(vals: Seq<u16>, w: nat, step: nat, end: nat)
    requires
        step > 0,
        end <= 0xFFFF,
        vals.len() + range_count(w, step, end) <= DPI_LIST_CAP,
    ensures
        spec_range_run(vals, w, step, end).len() == vals.len() + range_count(w, step, end),
        forall|k: int| 0 <= k < vals.len() ==> spec_range_run(vals, w, step, end)[k] == #[trigger] vals[k],
        forall|k: int|
            0 <= k < range_count(w, step, end) ==> #[trigger] spec_range_run(vals, w, step, end)[vals.len() + k]
                == w + k * step,
    decreases DPI_LIST_CAP - vals.len(),
{
    let r = spec_range_run(vals, w, step, end);
    if w <= end {
        assert(range_count(w + step, step, end) + 1 == range_count(w, step, end)) by {
            if w + step <= end {
                assert((end - w) / (step as int) == (end - w - step) / (step as int) + 1) by (nonlinear_arith)
                    requires
                        step > 0,
                        end - w >= step,
                ;
            } else {
                assert((end - w) / (step as int) == 0) by (nonlinear_arith)
                    requires
                        step > 0,
                        0 <= end - w < step,
                ;
            }
        }
        let next = vals.push(w as u16);
        lemma_range_run_values(next, w + step, step, end);
        assert forall|k: int| 0 <= k < vals.len() implies r[k] == #[trigger] vals[k] by {
            assert(next[k] == vals[k]);
        }
        assert forall|k: int| 0 <= k < range_count(w, step, end) implies #[trigger] r[vals.len() + k]
            == w + k * step by {
            if k == 0 {
                assert(r[vals.len() as int] == next[vals.len() as int]);
            } else {
                assert(r[next.len() + (k - 1)] == w + step + (k - 1) * step);
                assert(w + step + (k - 1) * step == w + k * step) by (nonlinear_arith);
            }
        }
    }
}

/// A value followed by a range entry (step `step`, last value at most `end`) decodes
/// to that value and then every step above it up to `end`: v, v + step, v + 2·step,
/// and so on (as long as the list stays within 4096 values).
pub proof fn lemma_range_entry_expands(hi: u8, lo: u8, step: u16, ehi: u8, elo: u8)
    requires
        0 < be16(hi, lo) < 0xE000,
        0 < step < 0x2000,
        1 + range_count(be16(hi, lo) + step as nat, step as nat, be16(ehi, elo)) <= DPI_LIST_CAP,
    ensures
        ({
            let v = be16(hi, lo);
            let n = range_count(v + step as nat, step as nat, be16(ehi, elo));
            let list = spec_decode_dpi_list(
                seq![hi, lo, (0xE0 + step / 256) as u8, (step % 256) as u8, ehi, elo],
            );
            &&& list.len() == 1 + n
            &&& forall|k: int| 0 <= k <= n ==> #[trigger] list[k] == v + k * step
        }),
{
    let v = be16(hi, lo);
    let end = be16(ehi, elo);
    let raw = seq![hi, lo, (0xE0 + step / 256) as u8, (step % 256) as u8, ehi, elo];
    assert(be16(raw[2], raw[3]) == 0xE000 + step);
    assert(end <= 0xFFFF);
    let first = Seq::<u16>::empty().push(v as u16);
    assert(spec_decode_from(raw, 0, Seq::empty()) == spec_decode_from(raw, 2, first));
    assert(first.last() == v);
    let next = spec_range_run(first, v + step as nat, step as nat, end);
    assert(spec_decode_from(raw, 2, first) == spec_decode_from(raw, 6, next));
    assert(spec_decode_from(raw, 6, next) == next);
    lemma_range_run_values(first, v + step as nat, step as nat, end);
    let n = range_count(v + step as nat, step as nat, end);
    assert forall|k: int| 0 <= k <= n implies #[trigger] next[k] == v + k * step by {
        if k == 0 {
            assert(next[0] == first[0]);
        } else {
            assert(next[first.len() + (k - 1)] == v + step + (k - 1) * step);
            assert(v + step + (k - 1) * step == v + k * step) by (nonlinear_arith);
        }
    }
}

} // verus!
