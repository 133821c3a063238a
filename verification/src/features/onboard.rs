//! Onboard memory mode: HID++ feature 0x8100 (Onboard Profiles).
//! GetOnboardMode is function 2 (1 = onboard, 2 = host); SetOnboardMode is function 1
//! with the same values.
use crate::hidpp::{spec_error_text, HidppError};
use vstd::prelude::*;

verus! {

pub const F_ONBOARD_PROFILES: u16 = 0x8100;

#[derive(Debug, Clone, Copy, PartialEq, Eq, Structural)]
pub enum OnboardMode {
    Onboard,
    Host,
}

impl OnboardMode {
    pub open spec fn spec_as_u8(self) -> u8 {
        match self {
            OnboardMode::Onboard => 1,
            OnboardMode::Host => 2,
        }
    }

    pub fn as_u8(self) -> (r: u8)
        ensures
            r == self.spec_as_u8(),
    {
        match self {
            OnboardMode::Onboard => 1,
            OnboardMode::Host => 2,
        }
    }

    pub open spec fn spec_name(self) -> Seq<char> {
        match self {
            OnboardMode::Onboard => "板载模式"@,
            OnboardMode::Host => "主机控制模式"@,
        }
    }

    pub fn name(self) -> (r: &'static str)
        ensures
            r@ == self.spec_name(),
    {
        match self {
            OnboardMode::Onboard => "板载模式",
            OnboardMode::Host => "主机控制模式",
        }
    }
}

/// The mode a GetOnboardMode reply reports: 1 is onboard, anything else host.
pub open spec fn spec_parse_onboard_mode(b: u8) -> OnboardMode {
    if b == 1 {
        OnboardMode::Onboard
    } else {
        OnboardMode::Host
    }
}

pub fn parse_onboard_mode(resp: &[u8]) -> (r: OnboardMode)
    requires
        resp@.len() >= 5,
    ensures
        r == spec_parse_onboard_mode(resp@[4]),
{
    if resp[4] == 1 {
        OnboardMode::Onboard
    } else {
        OnboardMode::Host
    }
}

/// Parameters of SetOnboardMode.
pub fn set_mode_params(mode: OnboardMode) -> (r: [u8; 3])
    ensures
        r@ == seq![mode.spec_as_u8(), 0u8, 0u8],
{
    let r = [mode.as_u8(), 0x00, 0x00];
    assert(r@ =~= seq![mode.spec_as_u8(), 0u8, 0u8]);
    r
}

/// The note kept about a read-back that did not confirm the requested mode.
pub open spec fn spec_readback_note(readback: Option<Result<OnboardMode, HidppError>>) -> Seq<char> {
    match readback {
        Some(Ok(actual)) => "实际为 "@ + actual.spec_name(),
        Some(Err(e)) => spec_error_text(e),
        None => "设备不支持板载模式 feature"@,
    }
}

pub fn readback_note(readback: &Option<Result<OnboardMode, HidppError>>) -> (r: String)
    ensures
        r@ == spec_readback_note(*readback),
{
    match readback {
        Some(Ok(actual)) => {
            let mut s = String::from_str("实际为 ");
            s.append(actual.name());
            s
        },
        Some(Err(e)) => e.to_text(),
        None => String::from_str("设备不支持板载模式 feature"),
    }
}

/// The error after three attempts failed to confirm a mode switch.
pub fn mode_mismatch_error(requested: OnboardMode, last: &Option<String>) -> (r: HidppError)
    ensures
        r matches HidppError::Invalid(m) && m@ == "模式切换读回不一致: 请求 "@ + requested.spec_name() + ", "@
            + match last {
            Some(n) => n@,
            None => "无读回"@,
        },
{
    let mut m = String::from_str("模式切换读回不一致: 请求 ");
    m.append(requested.name());
    m.append(", ");
    match last {
        Some(n) => m.append(n.as_str()),
        None => m.append("无读回"),
    }
    HidppError::Invalid(m)
}

/// A mode switch sends SetOnboardMode and reads the mode back, this many times at most.
pub const MODE_SWITCH_ATTEMPTS: u8 = 3;

/// Whether a read-back confirms the requested mode.
pub open spec fn spec_confirms(mode: OnboardMode, readback: Option<Result<OnboardMode, HidppError>>) -> bool {
    match readback {
        Some(Ok(actual)) => actual == mode,
        _ => false,
    }
}

/// What a mode switch does after one SetOnboardMode request.
#[derive(Debug)]
pub enum ModeSwitchStep {
    /// The read-back reports the requested mode: the switch succeeded.
    Confirmed(OnboardMode),
    /// Not confirmed yet: the request is sent again.
    Again,
    /// The switch failed with this error.
    Failed(HidppError),
}

/// The step after the `attempts`-th SetOnboardMode request of a switch to `mode`:
/// a request that failed ends the switch with its error (`readback` is not looked
/// at); otherwise a read-back of `mode` confirms it, and after the third
/// unconfirmed read-back the switch fails, naming the last read-back.
pub fn mode_switch_step(
    mode: OnboardMode,
    attempts: u8,
    set: Result<(), HidppError>,
    readback: &Option<Result<OnboardMode, HidppError>>,
) -> (r: ModeSwitchStep)
    ensures
        set matches Err(e) ==> r == ModeSwitchStep::Failed(e),
        set is Ok && spec_confirms(mode, *readback) ==> r == ModeSwitchStep::Confirmed(mode),
        set is Ok && !spec_confirms(mode, *readback) && attempts < MODE_SWITCH_ATTEMPTS ==> r is Again,
        set is Ok && !spec_confirms(mode, *readback) && attempts >= MODE_SWITCH_ATTEMPTS ==> (r
            matches ModeSwitchStep::Failed(HidppError::Invalid(m)) && m@ == "模式切换读回不一致: 请求 "@
            + mode.spec_name() + ", "@ + spec_readback_note(*readback)),
{
    if let Err(e) = set {
        return ModeSwitchStep::Failed(e);
    }
    if let Some(Ok(actual)) = readback {
        if *actual == mode {
            return ModeSwitchStep::Confirmed(mode);
        }
    }
    if attempts < MODE_SWITCH_ATTEMPTS {
        ModeSwitchStep::Again
    } else {
        let note = readback_note(readback);
        ModeSwitchStep::Failed(mode_mismatch_error(mode, &Some(note)))
    }
}

/// How many SetOnboardMode requests a switch to `mode` sends when each request and
/// its read-back come out as `tries` in turn (`done` requests sent so far).
pub open spec fn spec_switch_requests(
    mode: OnboardMode,
    tries: Seq<(Result<(), HidppError>, Option<Result<OnboardMode, HidppError>>)>,
    done: nat,
) -> nat
    decreases MODE_SWITCH_ATTEMPTS - done,
{
    if done >= MODE_SWITCH_ATTEMPTS {
        done
    } else if tries[done as int].0 is Err || spec_confirms(mode, tries[done as int].1) {
        done + 1
    } else {
        spec_switch_requests(mode, tries, done + 1)
    }
}

proof fn lemma_switch_from(
    mode: OnboardMode,
    tries: Seq<(Result<(), HidppError>, Option<Result<OnboardMode, HidppError>>)>,
    done: nat,
)
    requires
        done < MODE_SWITCH_ATTEMPTS,
    ensures
        ({
            let n = spec_switch_requests(mode, tries, done);
            &&& done < n <= MODE_SWITCH_ATTEMPTS
            &&& forall|i: int| done <= i < n - 1 ==> (#[trigger] tries[i]).0 is Ok && !spec_confirms(mode, tries[i].1)
            &&& (n == MODE_SWITCH_ATTEMPTS || tries[n - 1].0 is Err || spec_confirms(mode, tries[n - 1].1))
        }),
    decreases MODE_SWITCH_ATTEMPTS - done,
{
    if !(tries[done as int].0 is Err || spec_confirms(mode, tries[done as int].1)) {
        if done + 1 < MODE_SWITCH_ATTEMPTS {
            lemma_switch_from(mode, tries, done + 1);
        } else {
            assert(spec_switch_requests(mode, tries, done + 1) == done + 1);
        }
    }
}

/// A mode switch sends SetOnboardMode once at least and three times at most; every
/// request but the last was accepted and read back as another mode; the last was
/// refused, read back as the requested mode, or was the third. So a switch that
/// succeeds has seen the requested mode read back.
pub proof fn lemma_mode_switch_bounded(
    mode: OnboardMode,
    tries: Seq<(Result<(), HidppError>, Option<Result<OnboardMode, HidppError>>)>,
)
    ensures
        ({
            let n = spec_switch_requests(mode, tries, 0);
            &&& 1 <= n <= MODE_SWITCH_ATTEMPTS
            &&& forall|i: int| 0 <= i < n - 1 ==> (#[trigger] tries[i]).0 is Ok && !spec_confirms(mode, tries[i].1)
            &&& (n == MODE_SWITCH_ATTEMPTS || tries[n - 1].0 is Err || spec_confirms(mode, tries[n - 1].1))
        }),
{
    lemma_switch_from(mode, tries, 0);
}

/// The mode of a device, or the error when it has no onboard-profiles feature.
pub fn read_mode_result(r: Option<Result<OnboardMode, HidppError>>) -> (out: Result<OnboardMode, HidppError>)
    ensures
        match r {
            Some(x) => out == x,
            None => out matches Err(HidppError::Invalid(m)) && m@ == "设备不支持板载模式 feature 0x8100"@,
        },
{
    match r {
        Some(x) => x,
        None => Err(HidppError::Invalid(String::from_str("设备不支持板载模式 feature 0x8100"))),
    }
}

/// A reply carrying the value SetOnboardMode wrote reads back as the same mode.
pub proof fn lemma_mode_round_trip(mode: OnboardMode)
    ensures
        spec_parse_onboard_mode(mode.spec_as_u8()) == mode,
{
}

} // verus!
