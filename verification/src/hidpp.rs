//! HID++ 2.0 framing: request frames, reply matching and error codes.
//!
//! Frame layout: `[report_id, dev_index, feature_index, function << 4 | soft_id, params...]`,
//! a short report (0x10) is 7 bytes long, a long report (0x11) 20 bytes.
use crate::text::{hex_prefixed, hex_prefixed_exec};
use vstd::prelude::*;

verus! {

pub const VID_LOGITECH: u16 = 0x046D;
pub const SHORT_REPORT: u8 = 0x10;
pub const LONG_REPORT: u8 = 0x11;
pub const SHORT_LEN: usize = 7;
pub const LONG_LEN: usize = 20;
/// The usage page of the vendor-defined collection that carries HID++.
pub const VENDOR_USAGE_PAGE: u16 = 0xFF00;
/// Software id placed in the low nibble of every request's function byte.
pub const SOFT_ID: u8 = 5;
pub const ERR_FEATURE: u8 = 0xFF;

/// Product ids of the LIGHTSPEED receivers.
pub open spec fn spec_is_receiver_pid(pid: u16) -> bool {
    pid == 0xC539 || pid == 0xC53A || pid == 0xC547
}

pub fn is_receiver_pid(pid: u16) -> (r: bool)
    ensures
        r == spec_is_receiver_pid(pid),
{
    pid == 0xC539 || pid == 0xC53A || pid == 0xC547
}

/// Whether an enumerated HID interface is a Logitech HID++ vendor channel.
pub fn is_vendor_interface(vendor_id: u16, usage_page: u16) -> (r: bool)
    ensures
        r == (vendor_id == VID_LOGITECH && usage_page == VENDOR_USAGE_PAGE),
{
    vendor_id == VID_LOGITECH && usage_page == VENDOR_USAGE_PAGE
}

#[derive(Debug, Clone)]
pub enum HidppError {
    /// The device answered with a HID++ error report.
    Rejected { code: u8, message: String },
    Timeout(String),
    Io(String),
    Open(String),
    /// A request that cannot be sent, or a reply that makes no sense.
    Invalid(String),
}

/// The text of an error, as shown to the user.
pub open spec fn spec_error_text(e: HidppError) -> Seq<char> {
    match e {
        HidppError::Rejected { code, message } => "HID++ 拒绝 (code="@ + hex_prefixed(
            code as nat,
            2,
        ) + ") "@ + message@,
        HidppError::Timeout(m) => "设备未响应: "@ + m@,
        HidppError::Io(m) => "IO 错误: "@ + m@,
        HidppError::Open(m) => "打开失败: "@ + m@,
        HidppError::Invalid(m) => "无效请求: "@ + m@,
    }
}

fn concat(a: &str, b: &str) -> (r: String)
    ensures
        r@ == a@ + b@,
{
    let mut s = String::from_str(a);
    s.append(b);
    s
}

impl HidppError {
    /// The user-facing text of the error.
    pub fn to_text(&self) -> (r: String)
        ensures
            r@ == spec_error_text(*self),
    {
        match self {
            HidppError::Rejected { code, message } => {
                let mut s = String::from_str("HID++ 拒绝 (code=");
                let c = hex_prefixed_exec(*code as u64, 2);
                s.append(c.as_str());
                s.append(") ");
                s.append(message.as_str());
                s
            },
            HidppError::Timeout(m) => concat("设备未响应: ", m.as_str()),
            HidppError::Io(m) => concat("IO 错误: ", m.as_str()),
            HidppError::Open(m) => concat("打开失败: ", m.as_str()),
            HidppError::Invalid(m) => concat("无效请求: ", m.as_str()),
        }
    }
}

/// The symbolic name of a HID++ 2.0 error code.
pub open spec fn spec_error_name(code: u8) -> Seq<char> {
    if code == 0x01 {
        "INVALID_SUB_COMMAND"@
    } else if code == 0x02 {
        "INVALID_ADDRESS"@
    } else if code == 0x03 {
        "INVALID_VALUE"@
    } else if code == 0x04 {
        "CONNECTIVITY_ERROR"@
    } else if code == 0x05 {
        "TOO_MANY_DEVICES"@
    } else if code == 0x06 {
        "HIDPP14_ERROR"@
    } else if code == 0x07 {
        "RESOURCE_ERROR"@
    } else if code == 0x08 {
        "REQUEST_UNSUPPORTED"@
    } else if code == 0x09 {
        "BUSY"@
    } else if code == 0x0A {
        "UNSUPPORTED"@
    } else if code == 0x0B {
        "TIMEOUT"@
    } else {
        "UNKNOWN"@
    }
}

pub fn error_name(code: u8) -> (r: &'static str)
    ensures
        r@ == spec_error_name(code),
{
    match code {
        0x01 => "INVALID_SUB_COMMAND",
        0x02 => "INVALID_ADDRESS",
        0x03 => "INVALID_VALUE",
        0x04 => "CONNECTIVITY_ERROR",
        0x05 => "TOO_MANY_DEVICES",
        0x06 => "HIDPP14_ERROR",
        0x07 => "RESOURCE_ERROR",
        0x08 => "REQUEST_UNSUPPORTED",
        0x09 => "BUSY",
        0x0A => "UNSUPPORTED",
        0x0B => "TIMEOUT",
        _ => "UNKNOWN",
    }
}

/// Errors worth retrying: timeouts, I/O errors and the transient HID++ codes
/// (connectivity, resource, busy, timeout).
pub open spec fn spec_is_transient(e: HidppError) -> bool {
    match e {
        HidppError::Timeout(_) | HidppError::Io(_) => true,
        HidppError::Rejected { code, .. } => code == 0x04 || code == 0x07 || code == 0x09 || code
            == 0x0B,
        HidppError::Open(_) | HidppError::Invalid(_) => false,
    }
}

pub fn is_transient_error(error: &HidppError) -> (r: bool)
    ensures
        r == spec_is_transient(*error),
{
    match error {
        HidppError::Timeout(_) | HidppError::Io(_) => true,
        HidppError::Rejected { code, .. } => *code == 0x04 || *code == 0x07 || *code == 0x09
            || *code == 0x0B,
        HidppError::Open(_) | HidppError::Invalid(_) => false,
    }
}

/// A request that fails with a transient error is sent again, this many times in all
/// at most.
pub const MAX_ATTEMPTS: u8 = 3;

/// Whether a request is sent again after its `attempts`-th attempt failed with
/// `error`: only a transient error, and only while attempts are left.
pub open spec fn spec_retry_again(attempts: nat, error: HidppError) -> bool {
    attempts < MAX_ATTEMPTS && spec_is_transient(error)
}

pub fn retry_again(attempts: u8, error: &HidppError) -> (r: bool)
    ensures
        r == spec_retry_again(attempts as nat, *error),
{
    attempts < MAX_ATTEMPTS && is_transient_error(error)
}

/// How many attempts a retried request makes when its attempts, in turn, would
/// come out as `outcomes` (`done` attempts made so far, all failed transiently).
pub open spec fn spec_attempts_made(outcomes: Seq<Result<(), HidppError>>, done: nat) -> nat
    decreases MAX_ATTEMPTS - done,
{
    if done >= MAX_ATTEMPTS {
        done
    } else {
        match outcomes[done as int] {
            Ok(_) => done + 1,
            Err(e) => if spec_retry_again(done + 1, e) {
                spec_attempts_made(outcomes, done + 1)
            } else {
                done + 1
            },
        }
    }
}

proof fn lemma_attempts_from(outcomes: Seq<Result<(), HidppError>>, done: nat)
    requires
        done <= MAX_ATTEMPTS,
        forall|i: int| 0 <= i < done ==> (#[trigger] outcomes[i] matches Err(e) && spec_is_transient(e)),
    ensures
        ({
            let n = spec_attempts_made(outcomes, done);
            &&& done <= n <= MAX_ATTEMPTS
            &&& done < MAX_ATTEMPTS ==> done < n
            &&& forall|i: int| 0 <= i < n - 1 ==> (#[trigger] outcomes[i] matches Err(e) && spec_is_transient(e))
            &&& done < MAX_ATTEMPTS ==> (n == MAX_ATTEMPTS || outcomes[n - 1] is Ok || (outcomes[n - 1] matches Err(e) && !spec_is_transient(e)))
        }),
    decreases MAX_ATTEMPTS - done,
{
    if done < MAX_ATTEMPTS {
        match outcomes[done as int] {
            Ok(_) => {},
            Err(e) => if spec_retry_again(done + 1, e) {
                lemma_attempts_from(outcomes, done + 1);
            },
        }
    }
}

/// A retried request is sent at most three times and at least once; every attempt
/// but the last failed with a transient error; the last succeeded, failed with an
/// error that is not transient, or was the third.
pub proof fn lemma_retry_bounded(outcomes: Seq<Result<(), HidppError>>)
    ensures
        ({
            let n = spec_attempts_made(outcomes, 0);
            &&& 1 <= n <= MAX_ATTEMPTS
            &&& forall|i: int| 0 <= i < n - 1 ==> (#[trigger] outcomes[i] matches Err(e) && spec_is_transient(e))
            &&& (n == MAX_ATTEMPTS || outcomes[n - 1] is Ok || (outcomes[n - 1] matches Err(e) && !spec_is_transient(e)))
        }),
{
    lemma_attempts_from(outcomes, 0);
}

/// The error a rejection with `code` is reported as.
pub fn rejection(code: u8) -> (r: HidppError)
    ensures
        r matches HidppError::Rejected { code: c, message } && c == code && message@
            == spec_error_name(code),
{
    HidppError::Rejected { code, message: String::from_str(error_name(code)) }
}

/// The function byte of a request or reply: function number in the high nibble,
/// software id in the low nibble.
pub open spec fn spec_function_byte(function: u8, soft_id: u8) -> u8 {
    ((function % 16) * 16 + soft_id % 16) as u8
}

pub fn function_byte(function: u8, soft_id: u8) -> (r: u8)
    ensures
        r == spec_function_byte(function, soft_id),
{
    let r = ((function & 0x0F) << 4) | (soft_id & 0x0F);
    assert(((function & 0x0F) << 4) | (soft_id & 0x0F) == ((function % 16) * 16 + soft_id % 16) as u8)
        by (bit_vector);
    r
}

/// The request frame: header, parameters, zero padding to the report length.
pub open spec fn spec_request_frame(
    dev_index: u8,
    feature_index: u8,
    function: u8,
    params: Seq<u8>,
    long: bool,
) -> Seq<u8> {
    let total: nat = if long { LONG_LEN as nat } else { SHORT_LEN as nat };
    seq![
        if long { LONG_REPORT } else { SHORT_REPORT },
        dev_index,
        feature_index,
        spec_function_byte(function, SOFT_ID),
    ] + params + Seq::new((total - 4 - params.len()) as nat, |i: int| 0u8)
}

/// Whether a request goes out as a long report.
pub open spec fn spec_uses_long(params: Seq<u8>, long_request: bool) -> bool {
    long_request || params.len() > 3
}

/// Builds the frame of a HID++ 2.0 request.
///
/// Rejects a function number above 15, and more than 3 parameter bytes in a short request.
pub fn encode_request(
    dev_index: u8,
    feature_index: u8,
    function: u8,
    params: &[u8],
    long_request: bool,
) -> (r: Result<Vec<u8>, HidppError>)
    requires
        function > 0x0F || !spec_uses_long(params@, long_request) || params@.len() <= LONG_LEN - 4,
    ensures
        function > 0x0F ==> (r matches Err(HidppError::Invalid(m)) && m@ == "function 编号必须 0-15: "@
            + hex_prefixed(function as nat, 2)),
        function <= 0x0F && !long_request && params@.len() > 3 ==> (r matches Err(
            HidppError::Invalid(m),
        ) && m@ == "short report 最多 3 字节参数"@),
        function <= 0x0F && (long_request || params@.len() <= 3) ==> (r matches Ok(frame)
            && frame@ == spec_request_frame(dev_index, feature_index, function, params@, long_request)),
{
    if function > 0x0F {
        let mut m = String::from_str("function 编号必须 0-15: ");
        let h = hex_prefixed_exec(function as u64, 2);
        m.append(h.as_str());
        return Err(HidppError::Invalid(m));
    }
    let long = long_request || params.len() > 3;
    if !long_request && params.len() > 3 {
        return Err(HidppError::Invalid(String::from_str("short report 最多 3 字节参数")));
    }
    let total: usize = if long { LONG_LEN } else { SHORT_LEN };
    let mut buf: Vec<u8> = Vec::new();
    buf.push(if long { LONG_REPORT } else { SHORT_REPORT });
    buf.push(dev_index);
    buf.push(feature_index);
    buf.push(function_byte(function, SOFT_ID));
    let mut i: usize = 0;
    while i < params.len()
        invariant
            i <= params@.len(),
            params@.len() + 4 <= total,
            buf@ =~= seq![
                if long { LONG_REPORT } else { SHORT_REPORT },
                dev_index,
                feature_index,
                spec_function_byte(function, SOFT_ID),
            ] + params@.subrange(0, i as int),
        decreases params@.len() - i,
    {
        buf.push(params[i]);
        i += 1;
    }
    let ghost head = buf@;
    while buf.len() < total
        invariant
            head.len() == 4 + params@.len(),
            head.len() <= buf@.len() <= total,
            buf@ =~= head + Seq::new((buf@.len() - head.len()) as nat, |k: int| 0u8),
        decreases total - buf.len(),
    {
        buf.push(0);
    }
    assert(params@.subrange(0, params@.len() as int) =~= params@);
    Ok(buf)
}

/// How a report read from the device relates to an outstanding request.
#[derive(Debug, Clone, Copy, PartialEq, Eq)]
pub enum ReportMatch {
    /// Not the reply: an ordinary mouse report, an asynchronous notification,
    /// or the reply to another request.
    Unrelated,
    /// The reply to the request.
    Reply,
    /// The device rejected the request with this error code.
    Rejected(u8),
}

/// Classifies a report read while waiting for the reply to a request.
pub open spec fn spec_classify_report(
    data: Seq<u8>,
    dev_index: u8,
    feature_index: u8,
    function: u8,
    soft_id: u8,
) -> ReportMatch {
    let expect = spec_function_byte(function, soft_id);
    if data.len() == 0 || (data[0] != SHORT_REPORT && data[0] != LONG_REPORT) || data.len() < 4 {
        ReportMatch::Unrelated
    } else if data[2] == ERR_FEATURE && data[1] == dev_index && data[3] == feature_index
        && data.len() > 4 && data[4] == expect {
        ReportMatch::Rejected(if data.len() > 5 { data[5] } else { 0 })
    } else if data[1] == dev_index && data[2] == feature_index && data[3] == expect {
        ReportMatch::Reply
    } else {
        ReportMatch::Unrelated
    }
}

pub fn classify_report(
    data: &[u8],
    dev_index: u8,
    feature_index: u8,
    function: u8,
    soft_id: u8,
) -> (r: ReportMatch)
    ensures
        r == spec_classify_report(data@, dev_index, feature_index, function, soft_id),
{
    let expect = function_byte(function, soft_id);
    if data.len() == 0 || (data[0] != SHORT_REPORT && data[0] != LONG_REPORT) || data.len() < 4 {
        return ReportMatch::Unrelated;
    }
    if data[2] == ERR_FEATURE && data[1] == dev_index && data[3] == feature_index && data.len() > 4
        && data[4] == expect {
        return ReportMatch::Rejected(if data.len() > 5 { data[5] } else { 0 });
    }
    if data[1] == dev_index && data[2] == feature_index && data[3] == expect {
        ReportMatch::Reply
    } else {
        ReportMatch::Unrelated
    }
}

/// The error reported when no reply came in time.
pub fn timeout_error(feature_index: u8, function: u8) -> (r: HidppError)
    ensures
        r matches HidppError::Timeout(m) && m@ == "feature="@ + hex_prefixed(feature_index as nat, 2)
            + " func="@ + crate::text::dec_digits(function as nat),
{
    let mut m = String::from_str("feature=");
    let h = hex_prefixed_exec(feature_index as u64, 2);
    m.append(h.as_str());
    m.append(" func=");
    let d = crate::text::decimal(function as u64);
    m.append(d.as_str());
    HidppError::Timeout(m)
}

/// A device that echoes the header of a request frame is answering that request.
pub proof fn lemma_echo_is_reply(
    reply: Seq<u8>,
    dev_index: u8,
    feature_index: u8,
    function: u8,
    params: Seq<u8>,
    long: bool,
)
    requires
        function <= 0x0F,
        params.len() <= LONG_LEN - 4,
        !long ==> params.len() <= 3,
        reply.len() >= 4,
        reply[0] == SHORT_REPORT || reply[0] == LONG_REPORT,
        reply.subrange(1, 4) == spec_request_frame(dev_index, feature_index, function, params, long).subrange(1, 4),
    ensures
        spec_classify_report(reply, dev_index, feature_index, function, SOFT_ID) == ReportMatch::Reply,
{
    let f = spec_request_frame(dev_index, feature_index, function, params, long);
    assert(reply[1] == reply.subrange(1, 4)[0]);
    assert(reply[2] == reply.subrange(1, 4)[1]);
    assert(reply[3] == reply.subrange(1, 4)[2]);
    assert(spec_function_byte(function, SOFT_ID) % 16 == 5);
}

/// An error report naming the request's feature and function reports its error code.
pub proof fn lemma_error_report_is_rejection(
    dev_index: u8,
    feature_index: u8,
    function: u8,
    code: u8,
    report_id: u8,
)
    requires
        report_id == SHORT_REPORT || report_id == LONG_REPORT,
    ensures
        spec_classify_report(
            seq![report_id, dev_index, ERR_FEATURE, feature_index, spec_function_byte(function, SOFT_ID), code, 0u8],
            dev_index,
            feature_index,
            function,
            SOFT_ID,
        ) == ReportMatch::Rejected(code),
{
}

} // verus!
