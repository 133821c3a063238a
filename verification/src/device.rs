//! G502 discovery: receiver slots, wired link, feature lookup and descriptions.
//!
//! A device is online when Root.GetFeature(0x0001) names a non-zero index: every
//! HID++ 2.0 device has FeatureSet. A sleeping mouse behind a receiver answers with
//! an error or not at all.
use crate::features::dpi::{be16, read_be16};
use crate::hidpp::{error_name, is_receiver_pid, spec_error_name, spec_error_text, spec_is_receiver_pid, HidppError};
use crate::text::{dec_digits, hex_digits, hex_prefixed, hex_prefixed_exec, seq_join, string_views};
use vstd::prelude::*;

verus! {

pub const DEV_INDEX_WIRED: u8 = 0xFF;
pub const FEATURE_SET: u16 = 0x0001;
/// Product id of the G502 LIGHTSPEED on a USB cable.
pub const WIRED_PID: u16 = 0xC08D;

#[derive(Debug, Clone, Copy, PartialEq, Eq, Structural)]
pub enum Mode {
    Wired,
    Receiver,
}

impl Mode {
    pub open spec fn spec_name(self) -> Seq<char> {
        match self {
            Mode::Wired => "USB 有线"@,
            Mode::Receiver => "接收器"@,
        }
    }

    pub fn name(&self) -> (r: &'static str)
        ensures
            r@ == self.spec_name(),
    {
        match self {
            Mode::Wired => "USB 有线",
            Mode::Receiver => "接收器",
        }
    }
}

/// Parameters of Root.GetFeature(0x0001), the online check.
pub fn ping_params() -> (r: [u8; 3])
    ensures
        r@ == seq![0x00u8, 0x01u8, 0x00u8],
{
    let r = [0x00, 0x01, 0x00];
    assert(r@ =~= seq![0x00u8, 0x01u8, 0x00u8]);
    r
}

/// Whether a reply to the online check shows a device: FeatureSet has a non-zero index.
pub fn ping_response_online(resp: &[u8]) -> (r: bool)
    ensures
        r == (resp@.len() >= 5 && resp@[4] != 0),
{
    resp.len() >= 5 && resp[4] != 0
}

/// Parameters of Root.GetFeature(feature_id).
pub fn feature_request_params(feature_id: u16) -> (r: [u8; 3])
    ensures
        r@ == seq![(feature_id / 256) as u8, (feature_id % 256) as u8, 0x00u8],
{
    let hi = (feature_id >> 8) as u8;
    let lo = feature_id as u8;
    assert(hi == (feature_id / 256) as u8 && lo == (feature_id % 256) as u8) by (bit_vector)
        requires hi == (feature_id >> 8) as u8, lo == feature_id as u8;
    let r = [hi, lo, 0x00];
    assert(r@ =~= seq![(feature_id / 256) as u8, (feature_id % 256) as u8, 0x00u8]);
    r
}

/// The feature index that Root.GetFeature reports; index 0 means unsupported.
pub fn parse_feature_index(feature_id: u16, resp: &[u8]) -> (r: Result<u8, HidppError>)
    requires
        resp@.len() >= 5,
    ensures
        resp@[4] != 0 ==> r == Ok::<u8, HidppError>(resp@[4]),
        resp@[4] == 0 ==> (r matches Err(HidppError::Rejected { code, message }) && code == 0x0A
            && message@ == "feature "@ + hex_prefixed(feature_id as nat, 4) + " 不支持"@),
{
    let index = resp[4];
    if index == 0 {
        let mut m = String::from_str("feature ");
        let h = hex_prefixed_exec(feature_id as u64, 4);
        m.append(h.as_str());
        m.append(" 不支持");
        return Err(HidppError::Rejected { code: 0x0A, message: m });
    }
    Ok(index)
}

/// The feature id in a FeatureSet GetFeatureIdByIndex reply; 0 when the slot is empty.
pub fn feature_set_entry(resp: &[u8]) -> (r: u16)
    requires
        resp@.len() >= 6,
    ensures
        r == be16(resp@[4], resp@[5]),
{
    read_be16(resp[4], resp[5])
}

/// The device indexes probed on an interface: slots 1–5 behind a receiver,
/// 0xFF on a cable.
pub open spec fn spec_probe_targets(pid: u16) -> Seq<u8> {
    if spec_is_receiver_pid(pid) {
        seq![1u8, 2u8, 3u8, 4u8, 5u8]
    } else {
        seq![DEV_INDEX_WIRED]
    }
}

pub fn probe_targets(pid: u16) -> (r: Vec<u8>)
    ensures
        r@ == spec_probe_targets(pid),
{
    let mut v = Vec::new();
    if is_receiver_pid(pid) {
        let mut i: u8 = 1;
        while i <= 5
            invariant
                1 <= i <= 6,
                v@ =~= Seq::new((i - 1) as nat, |k: int| (k + 1) as u8),
            decreases 6 - i,
        {
            v.push(i);
            i += 1;
        }
        assert(v@ =~= seq![1u8, 2u8, 3u8, 4u8, 5u8]);
    } else {
        v.push(DEV_INDEX_WIRED);
        assert(v@ =~= seq![DEV_INDEX_WIRED]);
    }
    v
}

/// Positions of the interfaces whose product id satisfies `receiver == is_receiver`.
pub open spec fn spec_positions(pids: Seq<u16>, receiver: bool) -> Seq<usize>
    decreases pids.len(),
{
    if pids.len() == 0 {
        Seq::empty()
    } else {
        let rest = spec_positions(pids.drop_last(), receiver);
        if spec_is_receiver_pid(pids.last()) == receiver {
            rest.push((pids.len() - 1) as usize)
        } else {
            rest
        }
    }
}

fn positions(pids: &[u16], receiver: bool) -> (r: Vec<usize>)
    ensures
        r@ == spec_positions(pids@, receiver),
{
    let mut v = Vec::new();
    let mut i: usize = 0;
    while i < pids.len()
        invariant
            i <= pids@.len(),
            v@ == spec_positions(pids@.take(i as int), receiver),
        decreases pids@.len() - i,
    {
        proof {
            assert(pids@.take(i + 1).drop_last() =~= pids@.take(i as int));
        }
        if is_receiver_pid(pids[i]) == receiver {
            v.push(i);
        }
        i += 1;
    }
    assert(pids@.take(pids@.len() as int) =~= pids@);
    v
}

/// The order in which enumerated interfaces are tried: cabled interfaces first (so the
/// charging state is readable and the receiver is no longer polled), then receivers,
/// each in enumeration order.
pub fn interface_order(pids: &[u16]) -> (r: Vec<usize>)
    ensures
        r@ == spec_positions(pids@, false) + spec_positions(pids@, true),
{
    let mut wired = positions(pids, false);
    let receivers = positions(pids, true);
    let mut i: usize = 0;
    let ghost w = wired@;
    while i < receivers.len()
        invariant
            i <= receivers@.len(),
            wired@ == w + receivers@.take(i as int),
        decreases receivers@.len() - i,
    {
        wired.push(receivers[i]);
        i += 1;
        assert(wired@ =~= w + receivers@.take(i as int));
    }
    assert(receivers@.take(receivers@.len() as int) =~= receivers@);
    wired
}

/// Whether a G502 cable interface or a LIGHTSPEED receiver is among the enumerated
/// product ids.
pub fn g502_interface_present(pids: &[u16]) -> (r: bool)
    ensures
        r == exists|i: int| 0 <= i < pids@.len() && (#[trigger] pids@[i] == WIRED_PID || spec_is_receiver_pid(pids@[i])),
{
    let mut i: usize = 0;
    while i < pids.len()
        invariant
            i <= pids@.len(),
            forall|j: int| 0 <= j < i ==> !(#[trigger] pids@[j] == WIRED_PID || spec_is_receiver_pid(pids@[j])),
        decreases pids@.len() - i,
    {
        if pids[i] == WIRED_PID || is_receiver_pid(pids[i]) {
            return true;
        }
        i += 1;
    }
    false
}

/// The three LIGHTSPEED receivers, 0xC539, 0xC53A and 0xC547, and nothing else, are
/// taken for receivers: behind each, device slots 1–5 are probed, while any other
/// interface is probed at 0xFF; and an enumerated receiver makes the G502 count as
/// present.
pub proof fn lemma_receivers_recognised(pid: u16, pids: Seq<u16>)
    ensures
        spec_is_receiver_pid(pid) <==> (pid == 0xC539 || pid == 0xC53A || pid == 0xC547),
        (pid == 0xC539 || pid == 0xC53A || pid == 0xC547) ==> spec_probe_targets(pid) == seq![
            1u8,
            2u8,
            3u8,
            4u8,
            5u8,
        ],
        !(pid == 0xC539 || pid == 0xC53A || pid == 0xC547) ==> spec_probe_targets(pid) == seq![0xFFu8],
        (pids.contains(0xC539) || pids.contains(0xC53A) || pids.contains(0xC547)) ==> exists|i: int|
            0 <= i < pids.len() && (#[trigger] pids[i] == WIRED_PID || spec_is_receiver_pid(pids[i])),
{
    if pids.contains(0xC539) || pids.contains(0xC53A) || pids.contains(0xC547) {
        let k = choose|k: int| 0 <= k < pids.len() && (pids[k] == 0xC539 || pids[k] == 0xC53A
            || pids[k] == 0xC547);
        assert(pids[k] == WIRED_PID || spec_is_receiver_pid(pids[k]));
    }
}

/// Whether the open connection can stay: its interface is still enumerated, and a
/// receiver link is not pre-empted by a cable that appeared.
pub fn connection_interface_unchanged(pids: &[u16], dev_pid: u16, mode: Mode) -> (r: bool)
    ensures
        r == ((exists|j: int| 0 <= j < pids@.len() && #[trigger] pids@[j] == dev_pid) && !(mode
            == Mode::Receiver && exists|j: int| 0 <= j < pids@.len() && #[trigger] pids@[j] == WIRED_PID)),
{
    let mut has_dev = false;
    let mut has_wired = false;
    let mut i: usize = 0;
    while i < pids.len()
        invariant
            i <= pids@.len(),
            has_dev == exists|j: int| 0 <= j < i && #[trigger] pids@[j] == dev_pid,
            has_wired == exists|j: int| 0 <= j < i && #[trigger] pids@[j] == WIRED_PID,
        decreases pids@.len() - i,
    {
        if pids[i] == dev_pid {
            has_dev = true;
        }
        if pids[i] == WIRED_PID {
            has_wired = true;
        }
        i += 1;
    }
    assert(pids@.take(pids@.len() as int) =~= pids@);
    has_dev && !(mode == Mode::Receiver && has_wired)
}

/// Bytes as two-digit lowercase hexadecimal, separated by spaces.
pub open spec fn spec_hex(data: Seq<u8>) -> Seq<char> {
    seq_join(data.map_values(|b: u8| hex_digits(b as nat, 2)), " "@)
}

pub fn hex(data: &[u8]) -> (r: String)
    ensures
        r@ == spec_hex(data@),
{
    let mut parts: Vec<String> = Vec::new();
    let mut i: usize = 0;
    while i < data.len()
        invariant
            i <= data@.len(),
            parts@.len() == i,
            forall|k: int| 0 <= k < i ==> #[trigger] parts@[k]@ == hex_digits(data@[k] as nat, 2),
        decreases data@.len() - i,
    {
        parts.push(crate::text::hex_digits_exec(data[i] as u64, 2));
        i += 1;
    }
    assert(string_views(parts@) =~= data@.map_values(|b: u8| hex_digits(b as nat, 2)));
    crate::text::join(&parts, " ")
}

fn idx_prefix(dev_index: u8) -> (r: String)
    ensures
        r@ == "idx"@ + hex_prefixed(dev_index as nat, 2) + ": "@,
{
    let mut s = String::from_str("idx");
    let h = hex_prefixed_exec(dev_index as u64, 2);
    s.append(h.as_str());
    s.append(": ");
    s
}

/// The outcome of probing one device index: whether it is online, and a note for the
/// failure report.
pub fn probe_index(dev_index: u8, result: &Result<Vec<u8>, HidppError>) -> (r: (bool, String))
    ensures
        ({
            let prefix = "idx"@ + hex_prefixed(dev_index as nat, 2) + ": "@;
            match result {
                Ok(resp) => r.0 == (resp@.len() >= 5 && resp@[4] != 0) && r.1@ == prefix + "应答异常 "@
                    + spec_hex(resp@),
                Err(HidppError::Rejected { code, message }) => !r.0 && r.1@ == prefix + "已配对但离线 ("@
                    + spec_error_name(*code) + " "@ + message@ + ")"@,
                Err(HidppError::Timeout(_)) => !r.0 && r.1@ == prefix + "无响应(未配对或休眠)"@,
                Err(e) => !r.0 && r.1@ == prefix + spec_error_text(*e),
            }
        }),
{
    let mut note = idx_prefix(dev_index);
    match result {
        Ok(resp) => {
            let online = ping_response_online(resp.as_slice());
            note.append("应答异常 ");
            let h = hex(resp.as_slice());
            note.append(h.as_str());
            (online, note)
        },
        Err(HidppError::Rejected { code, message }) => {
            note.append("已配对但离线 (");
            note.append(error_name(*code));
            note.append(" ");
            note.append(message.as_str());
            note.append(")");
            (false, note)
        },
        Err(HidppError::Timeout(_)) => {
            note.append("无响应(未配对或休眠)");
            (false, note)
        },
        Err(e) => {
            let t = e.to_text();
            note.append(t.as_str());
            (false, note)
        },
    }
}

/// A one-line description of a connection: `G502 (<mode>[ slot<n>], <pid>, <protocol>)`,
/// with the protocol version from a Root.GetProtocolVersion reply.
pub fn describe(mode: Mode, slot: u8, pid: u16, protocol: &Result<Vec<u8>, HidppError>) -> (r: String)
    ensures
        ({
            let slot_text = if mode == Mode::Receiver { " slot"@ + dec_digits(slot as nat) } else { ""@ };
            let proto = match protocol {
                Ok(resp) => if resp@.len() >= 6 {
                    "HID++ "@ + dec_digits(resp@[4] as nat) + "."@ + dec_digits(resp@[5] as nat)
                } else {
                    "HID++ ?"@
                },
                Err(_) => "HID++ ?"@,
            };
            r@ == "G502 ("@ + mode.spec_name() + slot_text + ", "@ + hex_prefixed(pid as nat, 4) + ", "@
                + proto + ")"@
        }),
{
    let proto = match protocol {
        Ok(resp) => {
            if resp.len() >= 6 {
                let mut p = String::from_str("HID++ ");
                let a = crate::text::decimal(resp[4] as u64);
                p.append(a.as_str());
                p.append(".");
                let b = crate::text::decimal(resp[5] as u64);
                p.append(b.as_str());
                p
            } else {
                String::from_str("HID++ ?")
            }
        },
        Err(_) => String::from_str("HID++ ?"),
    };
    let slot_text = if mode == Mode::Receiver {
        let mut t = String::from_str(" slot");
        let d = crate::text::decimal(slot as u64);
        t.append(d.as_str());
        t
    } else {
        proof {
            reveal_strlit("");
        }
        String::from_str("")
    };
    let mut s = String::from_str("G502 (");
    s.append(mode.name());
    s.append(slot_text.as_str());
    s.append(", ");
    let h = hex_prefixed_exec(pid as u64, 4);
    s.append(h.as_str());
    s.append(", ");
    s.append(proto.as_str());
    s.append(")");
    s
}

/// The error text when no interface answered: the probe notes, one per line, and a
/// hint when the G HUB agent runs.
pub fn open_failure_message(notes: &Vec<String>, ghub_running: bool) -> (r: String)
    ensures
        r@ == "未找到可应答的 G502(请动一下鼠标唤醒它)。\n  - "@ + seq_join(string_views(notes@), "\n  - "@)
            + (if ghub_running { "\n检测到 G HUB 正在后台运行,如持续失败请先完全退出 G HUB 再试。"@ } else { ""@ }),
{
    let mut msg = String::from_str("未找到可应答的 G502(请动一下鼠标唤醒它)。\n  - ");
    let j = crate::text::join(notes, "\n  - ");
    msg.append(j.as_str());
    if ghub_running {
        msg.append("\n检测到 G HUB 正在后台运行,如持续失败请先完全退出 G HUB 再试。");
    } else {
        proof {
            reveal_strlit("");
        }
        msg.append("");
    }
    msg
}

} // verus!
