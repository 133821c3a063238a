//! Desired-state control: the steps that bring the device to the configured mode,
//! DPI and lighting, and the live channels that coalesce fast changes from the UI
//! (sent at once, saved once the UI has been still for a moment).
//!
//! Mode and DPI count as set only when the device reads them back.
use crate::config::{Config, DesiredMode, LedSpec};
use crate::features::led::{
    effect_payload, off_payload, opt_str_view, rate_period_ms, spec_effect_payload,
    spec_off_payload, spec_rate_error, spec_rate_period, spec_zone_key, zone_key, ZONE_LOGO,
    ZONE_PRIMARY,
};
use crate::features::onboard::OnboardMode;
use crate::hidpp::HidppError;
use crate::named_map::NamedMap;
use crate::text::str_is;
use vstd::prelude::*;

verus! {

/// How long a live change must stay unchanged before it is saved.
pub const LIVE_DEBOUNCE_MS: u64 = 200;

/// The mode and DPI the device reported after the desired state was applied.
#[derive(Debug, Clone, Copy, PartialEq, Eq, Structural)]
pub struct AppliedState {
    pub mode: OnboardMode,
    pub dpi: Option<u16>,
}

/// The device mode a configured mode stands for.
pub open spec fn spec_desired_onboard_mode(d: DesiredMode) -> OnboardMode {
    match d {
        DesiredMode::Host => OnboardMode::Host,
        DesiredMode::Onboard => OnboardMode::Onboard,
    }
}

pub fn desired_onboard_mode(d: DesiredMode) -> (r: OnboardMode)
    ensures
        r == spec_desired_onboard_mode(d),
{
    match d {
        DesiredMode::Host => OnboardMode::Host,
        DesiredMode::Onboard => OnboardMode::Onboard,
    }
}

/// After a switch to onboard mode the firmware owns the DPI indicator again, so the
/// host releases it.
pub fn releases_indicator(actual: OnboardMode) -> (r: bool)
    ensures
        r == (actual == OnboardMode::Onboard),
{
    actual == OnboardMode::Onboard
}

/// The DPI can be written only in host mode.
pub fn dpi_write_check(mode: OnboardMode) -> (r: Result<(), HidppError>)
    ensures
        mode == OnboardMode::Host ==> r is Ok,
        mode != OnboardMode::Host ==> (r matches Err(HidppError::Invalid(m)) && m@
            == "当前为板载模式；请先切换到主机控制模式再设置 DPI"@),
{
    if mode == OnboardMode::Host {
        Ok(())
    } else {
        Err(HidppError::Invalid(String::from_str("当前为板载模式；请先切换到主机控制模式再设置 DPI")))
    }
}

/// What happens to the DPI-level indicator when a zone's lighting is written.
#[derive(Debug, Clone, Copy, PartialEq, Eq, Structural)]
pub enum IndicatorAction {
    TurnOff,
    ShowAll,
}

/// Writing the primary zone also switches the DPI-level indicator off or on with it.
pub open spec fn spec_indicator_action(zone: u8, off: bool) -> Option<IndicatorAction> {
    if zone == ZONE_PRIMARY {
        if off {
            Some(IndicatorAction::TurnOff)
        } else {
            Some(IndicatorAction::ShowAll)
        }
    } else {
        None
    }
}

pub fn indicator_action(zone: u8, spec: &LedSpec) -> (r: Option<IndicatorAction>)
    ensures
        r == spec_indicator_action(zone, spec.off),
{
    if zone == ZONE_PRIMARY {
        if spec.off {
            Some(IndicatorAction::TurnOff)
        } else {
            Some(IndicatorAction::ShowAll)
        }
    } else {
        None
    }
}

pub open spec fn opt_string_view(s: Option<String>) -> Option<Seq<char>> {
    match s {
        Some(x) => Some(x@),
        None => None,
    }
}

/// The SetZoneEffect payload that applies a lighting specification to a zone: off
/// turns the zone off; otherwise the rate must be valid and the effect known.
pub fn led_spec_payload(zone: u8, spec: &LedSpec) -> (r: Result<[u8; 16], HidppError>)
    ensures
        spec.off ==> (r matches Ok(p) && p@ == spec_off_payload(zone)),
        !spec.off ==> match spec_rate_period(opt_string_view(spec.rate)) {
            None => spec.rate matches Some(s) && (r matches Err(HidppError::Invalid(m)) && m@
                == spec_rate_error(s@)),
            Some(period) => match spec_effect_payload(
                zone,
                spec.effect@,
                spec.rgb,
                spec.brightness,
                period,
            ) {
                Some(p) => r matches Ok(a) && a@ == p,
                None => r matches Err(HidppError::Invalid(m)) && m@ == "未知灯效: "@ + spec.effect@
                    + " (off/solid/cycle/breathing)"@,
            },
        },
{
    if spec.off {
        return Ok(off_payload(zone));
    }
    let rate: Option<&str> = match &spec.rate {
        Some(s) => Some(s.as_str()),
        None => None,
    };
    assert(opt_str_view(rate) == opt_string_view(spec.rate));
    let period = match rate_period_ms(rate) {
        Ok(p) => p,
        Err(e) => return Err(e),
    };
    effect_payload(zone, spec.effect.as_str(), spec.rgb, spec.brightness, period)
}

/// The zones, in writing order, whose lighting the configuration holds.
pub open spec fn spec_configured_zones(zones: Map<Seq<char>, LedSpec>) -> Seq<u8> {
    let first: Seq<u8> = if zones.contains_key("primary"@) {
        seq![ZONE_PRIMARY]
    } else {
        Seq::empty()
    };
    if zones.contains_key("logo"@) {
        first.push(ZONE_LOGO)
    } else {
        first
    }
}

/// The zones to write when the configured lighting is restored: the primary zone
/// then the logo, each only when configured.
pub fn configured_zones(zones: &NamedMap<LedSpec>) -> (r: Vec<u8>)
    ensures
        r@ == spec_configured_zones(zones.view()),
{
    let mut r: Vec<u8> = Vec::new();
    if zones.contains_key("primary") {
        r.push(ZONE_PRIMARY);
    }
    if zones.contains_key("logo") {
        r.push(ZONE_LOGO);
    }
    proof {
        reveal_strlit("primary");
        reveal_strlit("logo");
    }
    assert(r@ =~= spec_configured_zones(zones.view()));
    r
}

/// Which zones a live lighting change addresses.
#[derive(Debug, Clone, Copy, PartialEq, Eq, Structural)]
pub enum TargetZone {
    Single(u8),
    All,
}

/// The zones a target addresses, in writing order.
pub open spec fn spec_target_zones(target: TargetZone) -> Seq<u8> {
    match target {
        TargetZone::Single(z) => seq![z],
        TargetZone::All => seq![ZONE_PRIMARY, ZONE_LOGO],
    }
}

pub fn target_zones(target: TargetZone) -> (r: Vec<u8>)
    ensures
        r@ == spec_target_zones(target),
{
    let mut r: Vec<u8> = Vec::new();
    match target {
        TargetZone::Single(z) => r.push(z),
        TargetZone::All => {
            r.push(ZONE_PRIMARY);
            r.push(ZONE_LOGO);
        },
    }
    assert(r@ =~= spec_target_zones(target));
    r
}

/// Whether a target addresses the zone with configuration key `key`.
pub open spec fn spec_target_covers(target: TargetZone, key: Seq<char>) -> bool {
    match target {
        TargetZone::All => true,
        TargetZone::Single(z) => spec_zone_key(z) == key,
    }
}

/// A lighting change waiting to be sent or saved, with the time it was made.
#[derive(Debug, Clone)]
pub struct PendingUpdate {
    pub target: TargetZone,
    pub spec: LedSpec,
    pub updated_at: u64,
}

impl PendingUpdate {
    pub fn duplicate(&self) -> (r: Self)
        ensures
            r == *self,
    {
        PendingUpdate { target: self.target, spec: self.spec.duplicate(), updated_at: self.updated_at }
    }
}

/// The live lighting channel: the change still to send, and the change sent but
/// not yet saved.
#[derive(Debug)]
pub struct LiveLedState {
    pub pending_dispatch: Option<PendingUpdate>,
    pub pending_persist: Option<PendingUpdate>,
}

/// What the live channel's worker does next.
#[derive(Debug)]
pub enum LiveLedStep {
    /// Write this change to the device (in host mode), then pause briefly.
    Dispatch(PendingUpdate),
    /// Save this change to the configuration.
    Persist(PendingUpdate),
    /// Wait this many milliseconds, or until a new change arrives.
    Wait(u64),
    /// Wait until a new change arrives.
    Sleep,
}

/// The newest change the channel holds: the one to send, else the one to save.
pub open spec fn spec_latest(st: LiveLedState) -> Option<PendingUpdate> {
    match st.pending_dispatch {
        Some(u) => Some(u),
        None => st.pending_persist,
    }
}

/// The lighting the UI should show for a zone while the channel holds a change.
pub open spec fn spec_live_spec(st: LiveLedState, key: Seq<char>) -> Option<LedSpec> {
    match spec_latest(st) {
        Some(u) => if spec_target_covers(u.target, key) {
            Some(u.spec)
        } else {
            None
        },
        None => None,
    }
}

impl LiveLedState {
    pub fn new() -> (r: Self)
        ensures
            r.pending_dispatch is None,
            r.pending_persist is None,
    {
        LiveLedState { pending_dispatch: None, pending_persist: None }
    }
}

/// Hands a lighting change to the live channel; it replaces any change not yet
/// sent.
pub fn schedule_live_led(st: &mut LiveLedState, target: TargetZone, spec: LedSpec, now: u64)
    ensures
        final(st).pending_dispatch == Some(PendingUpdate { target, spec, updated_at: now }),
        final(st).pending_persist == old(st).pending_persist,
{
    st.pending_dispatch = Some(PendingUpdate { target, spec, updated_at: now });
}

/// The newest lighting of a zone that the channel has not saved yet, so that the UI
/// does not show the saved configuration during the debounce.
pub fn get_live_spec_for_zone(st: &LiveLedState, zone_key_text: &str) -> (r: Option<LedSpec>)
    ensures
        r == spec_live_spec(*st, zone_key_text@),
{
    let latest = match &st.pending_dispatch {
        Some(u) => u,
        None => match &st.pending_persist {
            Some(u) => u,
            None => return None,
        },
    };
    match latest.target {
        TargetZone::All => Some(latest.spec.duplicate()),
        TargetZone::Single(z) => {
            if str_is(zone_key(z), zone_key_text) {
                Some(latest.spec.duplicate())
            } else {
                None
            }
        },
    }
}

/// One decision of the live lighting worker at time `now`: a change to send is sent
/// first and kept for saving; a change sent and left alone for 200 ms is saved;
/// otherwise the worker waits.
pub fn live_led_step(st: &mut LiveLedState, now: u64) -> (r: LiveLedStep)
    ensures
        match old(st).pending_dispatch {
            Some(u) => r == LiveLedStep::Dispatch(u) && final(st).pending_dispatch is None
                && final(st).pending_persist == Some(u),
            None => match old(st).pending_persist {
                Some(u) => if now >= u.updated_at && now - u.updated_at >= LIVE_DEBOUNCE_MS {
                    r == LiveLedStep::Persist(u) && final(st).pending_persist is None
                        && final(st).pending_dispatch is None
                } else {
                    r == LiveLedStep::Wait(
                        (LIVE_DEBOUNCE_MS - (if now >= u.updated_at {
                            now - u.updated_at
                        } else {
                            0
                        })) as u64,
                    ) && *final(st) == *old(st)
                },
                None => r == LiveLedStep::Sleep && *final(st) == *old(st),
            },
        },
{
    if let Some(cmd) = st.pending_dispatch.take() {
        st.pending_persist = Some(cmd.duplicate());
        return LiveLedStep::Dispatch(cmd);
    }
    let elapsed = match &st.pending_persist {
        Some(cur) => if now >= cur.updated_at {
            now - cur.updated_at
        } else {
            0
        },
        None => return LiveLedStep::Sleep,
    };
    if elapsed >= LIVE_DEBOUNCE_MS {
        match st.pending_persist.take() {
            Some(u) => LiveLedStep::Persist(u),
            None => LiveLedStep::Sleep,
        }
    } else {
        LiveLedStep::Wait(LIVE_DEBOUNCE_MS - elapsed)
    }
}

/// Saves a lighting change into the configuration: under the key of its zone, or
/// of both zones.
pub fn persist_led_update(cfg: &mut Config, update: PendingUpdate)
    ensures
        final(cfg).led_zones.view() == match update.target {
            TargetZone::Single(z) => old(cfg).led_zones.view().insert(spec_zone_key(z), update.spec),
            TargetZone::All => old(cfg).led_zones.view().insert("primary"@, update.spec).insert(
                "logo"@,
                update.spec,
            ),
        },
        final(cfg).desired_mode == old(cfg).desired_mode,
        final(cfg).desired_dpi == old(cfg).desired_dpi,
        final(cfg).dpi_levels == old(cfg).dpi_levels,
        final(cfg).battery_poll_seconds == old(cfg).battery_poll_seconds,
        final(cfg).low_battery_threshold == old(cfg).low_battery_threshold,
{
    proof {
        reveal_strlit("primary");
        reveal_strlit("logo");
    }
    match update.target {
        TargetZone::Single(z) => {
            cfg.led_zones.insert(String::from_str(zone_key(z)), update.spec);
        },
        TargetZone::All => {
            let copy = update.spec.duplicate();
            cfg.led_zones.insert(String::from_str(zone_key(ZONE_PRIMARY)), copy);
            cfg.led_zones.insert(String::from_str(zone_key(ZONE_LOGO)), update.spec);
        },
    }
}

/// Reading a zone back after a change was handed to the channel gives that change,
/// for every zone the change addresses, and nothing for the others.
pub proof fn lemma_live_led_read_after_schedule(
    st: LiveLedState,
    target: TargetZone,
    spec: LedSpec,
    now: u64,
    key: Seq<char>,
)
    ensures
        spec_live_spec(
            LiveLedState {
                pending_dispatch: Some(PendingUpdate { target, spec, updated_at: now }),
                ..st
            },
            key,
        ) == if spec_target_covers(target, key) {
            Some(spec)
        } else {
            None
        },
{
}

/// Sending a change does not hide it: what the UI reads is the same before and
/// after the worker takes the change to send it.
pub proof fn lemma_live_led_dispatch_keeps_reading(st: LiveLedState, key: Seq<char>)
    requires
        st.pending_dispatch is Some,
    ensures
        spec_live_spec(
            LiveLedState { pending_dispatch: None, pending_persist: st.pending_dispatch },
            key,
        ) == spec_live_spec(st, key),
{
}

/// A DPI change waiting to be sent or saved, with the time it was made.
#[derive(Debug, Clone, Copy, PartialEq, Eq, Structural)]
pub struct PendingDpiUpdate {
    pub dpi: u16,
    pub updated_at: u64,
}

/// The live DPI channel: the change still to send, and the change sent but not yet
/// saved.
#[derive(Debug, Clone, Copy, PartialEq, Eq, Structural)]
pub struct LiveDpiState {
    pub pending_dispatch: Option<PendingDpiUpdate>,
    pub pending_persist: Option<PendingDpiUpdate>,
}

/// What the live DPI worker does next.
#[derive(Debug, Clone, Copy, PartialEq, Eq, Structural)]
pub enum LiveDpiStep {
    /// Set this DPI on the device (confirmed by read-back), then pause briefly.
    Dispatch(u16),
    /// Save this DPI (and host mode) to the configuration.
    Persist(u16),
    /// Wait this many milliseconds, or until a new change arrives.
    Wait(u64),
    /// Wait until a new change arrives.
    Sleep,
}

/// The newest DPI the channel holds.
pub open spec fn spec_live_dpi(st: LiveDpiState) -> Option<u16> {
    match st.pending_dispatch {
        Some(u) => Some(u.dpi),
        None => match st.pending_persist {
            Some(u) => Some(u.dpi),
            None => None,
        },
    }
}

impl LiveDpiState {
    pub fn new() -> (r: Self)
        ensures
            r.pending_dispatch is None,
            r.pending_persist is None,
    {
        LiveDpiState { pending_dispatch: None, pending_persist: None }
    }
}

/// Hands a DPI change to the live channel; it replaces any change not yet sent.
pub fn schedule_live_dpi(st: &mut LiveDpiState, dpi: u16, now: u64)
    ensures
        final(st).pending_dispatch == Some(PendingDpiUpdate { dpi, updated_at: now }),
        final(st).pending_persist == old(st).pending_persist,
{
    st.pending_dispatch = Some(PendingDpiUpdate { dpi, updated_at: now });
}

/// The newest DPI that the channel has not saved yet.
pub fn get_live_dpi(st: &LiveDpiState) -> (r: Option<u16>)
    ensures
        r == spec_live_dpi(*st),
{
    match st.pending_dispatch {
        Some(u) => Some(u.dpi),
        None => match st.pending_persist {
            Some(u) => Some(u.dpi),
            None => None,
        },
    }
}

/// One decision of the live DPI worker at time `now`, as for lighting.
pub fn live_dpi_step(st: &mut LiveDpiState, now: u64) -> (r: LiveDpiStep)
    ensures
        match old(st).pending_dispatch {
            Some(u) => r == LiveDpiStep::Dispatch(u.dpi) && final(st).pending_dispatch is None
                && final(st).pending_persist == Some(u),
            None => match old(st).pending_persist {
                Some(u) => if now >= u.updated_at && now - u.updated_at >= LIVE_DEBOUNCE_MS {
                    r == LiveDpiStep::Persist(u.dpi) && final(st).pending_persist is None
                        && final(st).pending_dispatch is None
                } else {
                    r == LiveDpiStep::Wait(
                        (LIVE_DEBOUNCE_MS - (if now >= u.updated_at {
                            now - u.updated_at
                        } else {
                            0
                        })) as u64,
                    ) && *final(st) == *old(st)
                },
                None => r == LiveDpiStep::Sleep && *final(st) == *old(st),
            },
        },
{
    if let Some(cmd) = st.pending_dispatch {
        st.pending_dispatch = None;
        st.pending_persist = Some(cmd);
        return LiveDpiStep::Dispatch(cmd.dpi);
    }
    match st.pending_persist {
        Some(cur) => {
            let elapsed = if now >= cur.updated_at {
                now - cur.updated_at
            } else {
                0
            };
            if elapsed >= LIVE_DEBOUNCE_MS {
                st.pending_persist = None;
                LiveDpiStep::Persist(cur.dpi)
            } else {
                LiveDpiStep::Wait(LIVE_DEBOUNCE_MS - elapsed)
            }
        },
        None => LiveDpiStep::Sleep,
    }
}

/// Saves a live DPI: the configuration asks for host mode at that DPI.
pub fn persist_dpi_update(cfg: &mut Config, dpi: u16)
    ensures
        final(cfg).desired_mode == DesiredMode::Host,
        final(cfg).desired_dpi == Some(dpi),
        final(cfg).dpi_levels == old(cfg).dpi_levels,
        final(cfg).battery_poll_seconds == old(cfg).battery_poll_seconds,
        final(cfg).low_battery_threshold == old(cfg).low_battery_threshold,
{
    cfg.desired_mode = DesiredMode::Host;
    cfg.desired_dpi = Some(dpi);
}

/// Reading the DPI back after a change was handed to the channel gives that change.
pub proof fn lemma_live_dpi_read_after_schedule(st: LiveDpiState, dpi: u16, now: u64)
    ensures
        spec_live_dpi(
            LiveDpiState { pending_dispatch: Some(PendingDpiUpdate { dpi, updated_at: now }), ..st },
        ) == Some(dpi),
{
}

/// What the device said in answer to the last request of an apply run.
#[derive(Debug)]
pub enum ApplyEvent {
    /// The mode read or confirmed after a switch.
    Mode(Result<OnboardMode, HidppError>),
    /// The DPI read, or confirmed after a write.
    Dpi(Result<u16, HidppError>),
    /// The DPI indicator was handed back to the firmware (whatever the outcome).
    Released,
}

/// What an apply run asks of the device next, or its result.
#[derive(Debug)]
pub enum ApplyRequest {
    ReadMode,
    ReadDpi,
    /// Switch to this mode and read it back.
    SetMode(OnboardMode),
    ReleaseIndicator,
    /// Write this DPI and read it back.
    SetDpi(u16),
    Finished(Result<AppliedState, HidppError>),
}

/// Where an apply run stands: the answer it waits for.
#[derive(Debug, Clone, Copy, PartialEq, Eq, Structural)]
pub enum ApplyPhase {
    /// The current mode.
    AwaitMode,
    /// The DPI in use, kept as the target when the configuration names none.
    AwaitTargetDpi { current: OnboardMode },
    /// The mode after switching to the desired one.
    AwaitSetMode { target: Option<u16> },
    /// The indicator handed back in onboard mode.
    AwaitRelease,
    /// The DPI in host mode, to compare with the target.
    AwaitHostDpi { target: u16 },
    /// The DPI after writing the target.
    AwaitSetDpi,
    /// The DPI to report, read on a best-effort basis.
    AwaitReportDpi { mode: OnboardMode },
    Done,
}

/// A run that brings the device to the configured mode and DPI: it reads the mode,
/// takes the configured DPI (or the one in use) as the target, switches mode when it
/// differs, hands the DPI indicator back in onboard mode, and in host mode writes
/// the target DPI unless the device already uses it. Errors of the mode read, the
/// switch and the host-mode DPI read and write end the run; the other DPI reads are
/// best effort.
#[derive(Debug, Clone, Copy, PartialEq, Eq, Structural)]
pub struct ApplyRun {
    pub desired: OnboardMode,
    pub desired_dpi: Option<u16>,
    pub phase: ApplyPhase,
}

/// Whether an event answers what the phase waits for.
pub open spec fn event_fits(phase: ApplyPhase, ev: ApplyEvent) -> bool {
    match phase {
        ApplyPhase::AwaitMode => ev is Mode,
        ApplyPhase::AwaitSetMode { .. } => ev is Mode,
        ApplyPhase::AwaitRelease => ev is Released,
        ApplyPhase::Done => false,
        _ => ev is Dpi,
    }
}

/// Once the mode is known: onboard mode hands the indicator back; host mode reads
/// the DPI, to compare with the target when there is one.
pub open spec fn spec_after_mode(run: ApplyRun, mode: OnboardMode, target: Option<u16>) -> (
    ApplyRun,
    ApplyRequest,
) {
    if mode == OnboardMode::Onboard {
        (ApplyRun { phase: ApplyPhase::AwaitRelease, ..run }, ApplyRequest::ReleaseIndicator)
    } else {
        match target {
            Some(t) => (
                ApplyRun { phase: ApplyPhase::AwaitHostDpi { target: t }, ..run },
                ApplyRequest::ReadDpi,
            ),
            None => (
                ApplyRun { phase: ApplyPhase::AwaitReportDpi { mode: OnboardMode::Host }, ..run },
                ApplyRequest::ReadDpi,
            ),
        }
    }
}

/// Once the target is known: switch mode when the device is not in the desired one.
pub open spec fn spec_after_target(run: ApplyRun, current: OnboardMode, target: Option<u16>) -> (
    ApplyRun,
    ApplyRequest,
) {
    if current == run.desired {
        spec_after_mode(run, current, target)
    } else {
        (
            ApplyRun { phase: ApplyPhase::AwaitSetMode { target }, ..run },
            ApplyRequest::SetMode(run.desired),
        )
    }
}

/// One step of an apply run.
pub open spec fn spec_apply_step(run: ApplyRun, ev: ApplyEvent) -> (ApplyRun, ApplyRequest) {
    let done = ApplyRun { phase: ApplyPhase::Done, ..run };
    match (run.phase, ev) {
        (ApplyPhase::AwaitMode, ApplyEvent::Mode(Err(e))) => (done, ApplyRequest::Finished(Err(e))),
        (ApplyPhase::AwaitMode, ApplyEvent::Mode(Ok(current))) => match run.desired_dpi {
            Some(t) => spec_after_target(run, current, Some(t)),
            None => (
                ApplyRun { phase: ApplyPhase::AwaitTargetDpi { current }, ..run },
                ApplyRequest::ReadDpi,
            ),
        },
        (ApplyPhase::AwaitTargetDpi { current }, ApplyEvent::Dpi(r)) => spec_after_target(
            run,
            current,
            match r {
                Ok(d) => Some(d),
                Err(_) => None,
            },
        ),
        (ApplyPhase::AwaitSetMode { .. }, ApplyEvent::Mode(Err(e))) => (
            done,
            ApplyRequest::Finished(Err(e)),
        ),
        (ApplyPhase::AwaitSetMode { target }, ApplyEvent::Mode(Ok(mode))) => spec_after_mode(
            run,
            mode,
            target,
        ),
        (ApplyPhase::AwaitRelease, _) => (
            ApplyRun { phase: ApplyPhase::AwaitReportDpi { mode: OnboardMode::Onboard }, ..run },
            ApplyRequest::ReadDpi,
        ),
        (ApplyPhase::AwaitHostDpi { .. }, ApplyEvent::Dpi(Err(e))) => (
            done,
            ApplyRequest::Finished(Err(e)),
        ),
        (ApplyPhase::AwaitHostDpi { target }, ApplyEvent::Dpi(Ok(current))) => if current
            == target {
            (
                done,
                ApplyRequest::Finished(
                    Ok(AppliedState { mode: OnboardMode::Host, dpi: Some(current) }),
                ),
            )
        } else {
            (ApplyRun { phase: ApplyPhase::AwaitSetDpi, ..run }, ApplyRequest::SetDpi(target))
        },
        (ApplyPhase::AwaitSetDpi, ApplyEvent::Dpi(Err(e))) => (done, ApplyRequest::Finished(Err(e))),
        (ApplyPhase::AwaitSetDpi, ApplyEvent::Dpi(Ok(d))) => (
            done,
            ApplyRequest::Finished(Ok(AppliedState { mode: OnboardMode::Host, dpi: Some(d) })),
        ),
        (ApplyPhase::AwaitReportDpi { mode }, ApplyEvent::Dpi(r)) => (
            done,
            ApplyRequest::Finished(
                Ok(
                    AppliedState {
                        mode,
                        dpi: match r {
                            Ok(d) => Some(d),
                            Err(_) => None,
                        },
                    },
                ),
            ),
        ),
        _ => (done, ApplyRequest::ReadMode),
    }
}

fn after_mode(run: ApplyRun, mode: OnboardMode, target: Option<u16>) -> (r: (ApplyRun, ApplyRequest))
    ensures
        r == spec_after_mode(run, mode, target),
{
    if mode == OnboardMode::Onboard {
        (ApplyRun { phase: ApplyPhase::AwaitRelease, ..run }, ApplyRequest::ReleaseIndicator)
    } else {
        match target {
            Some(t) => (
                ApplyRun { phase: ApplyPhase::AwaitHostDpi { target: t }, ..run },
                ApplyRequest::ReadDpi,
            ),
            None => (
                ApplyRun { phase: ApplyPhase::AwaitReportDpi { mode: OnboardMode::Host }, ..run },
                ApplyRequest::ReadDpi,
            ),
        }
    }
}

fn after_target(run: ApplyRun, current: OnboardMode, target: Option<u16>) -> (r: (
    ApplyRun,
    ApplyRequest,
))
    ensures
        r == spec_after_target(run, current, target),
{
    if current == run.desired {
        after_mode(run, current, target)
    } else {
        (ApplyRun { phase: ApplyPhase::AwaitSetMode { target }, ..run }, ApplyRequest::SetMode(run.desired))
    }
}

impl ApplyRun {
    /// Starts a run for a configuration: the first request reads the mode.
    pub fn start(desired_mode: DesiredMode, desired_dpi: Option<u16>) -> (r: (ApplyRun, ApplyRequest))
        ensures
            r.0 == (ApplyRun {
                desired: spec_desired_onboard_mode(desired_mode),
                desired_dpi,
                phase: ApplyPhase::AwaitMode,
            }),
            r.1 is ReadMode,
    {
        (
            ApplyRun {
                desired: desired_onboard_mode(desired_mode),
                desired_dpi,
                phase: ApplyPhase::AwaitMode,
            },
            ApplyRequest::ReadMode,
        )
    }

    /// Advances the run with the answer to its last request.
    pub fn step(self, ev: ApplyEvent) -> (r: (ApplyRun, ApplyRequest))
        requires
            event_fits(self.phase, ev),
        ensures
            r == spec_apply_step(self, ev),
    {
        let run = self;
        let done = ApplyRun { phase: ApplyPhase::Done, ..run };
        match (run.phase, ev) {
            (ApplyPhase::AwaitMode, ApplyEvent::Mode(Err(e))) => (done, ApplyRequest::Finished(Err(e))),
            (ApplyPhase::AwaitMode, ApplyEvent::Mode(Ok(current))) => match run.desired_dpi {
                Some(t) => after_target(run, current, Some(t)),
                None => (
                    ApplyRun { phase: ApplyPhase::AwaitTargetDpi { current }, ..run },
                    ApplyRequest::ReadDpi,
                ),
            },
            (ApplyPhase::AwaitTargetDpi { current }, ApplyEvent::Dpi(r)) => {
                let target = match r {
                    Ok(d) => Some(d),
                    Err(_) => None,
                };
                after_target(run, current, target)
            },
            (ApplyPhase::AwaitSetMode { .. }, ApplyEvent::Mode(Err(e))) => (
                done,
                ApplyRequest::Finished(Err(e)),
            ),
            (ApplyPhase::AwaitSetMode { target }, ApplyEvent::Mode(Ok(mode))) => after_mode(
                run,
                mode,
                target,
            ),
            (ApplyPhase::AwaitRelease, _) => (
                ApplyRun { phase: ApplyPhase::AwaitReportDpi { mode: OnboardMode::Onboard }, ..run },
                ApplyRequest::ReadDpi,
            ),
            (ApplyPhase::AwaitHostDpi { .. }, ApplyEvent::Dpi(Err(e))) => (
                done,
                ApplyRequest::Finished(Err(e)),
            ),
            (ApplyPhase::AwaitHostDpi { target }, ApplyEvent::Dpi(Ok(current))) => {
                if current == target {
                    (
                        done,
                        ApplyRequest::Finished(
                            Ok(AppliedState { mode: OnboardMode::Host, dpi: Some(current) }),
                        ),
                    )
                } else {
                    (ApplyRun { phase: ApplyPhase::AwaitSetDpi, ..run }, ApplyRequest::SetDpi(target))
                }
            },
            (ApplyPhase::AwaitSetDpi, ApplyEvent::Dpi(Err(e))) => (
                done,
                ApplyRequest::Finished(Err(e)),
            ),
            (ApplyPhase::AwaitSetDpi, ApplyEvent::Dpi(Ok(d))) => (
                done,
                ApplyRequest::Finished(Ok(AppliedState { mode: OnboardMode::Host, dpi: Some(d) })),
            ),
            (ApplyPhase::AwaitReportDpi { mode }, ApplyEvent::Dpi(r)) => {
                let dpi = match r {
                    Ok(d) => Some(d),
                    Err(_) => None,
                };
                (done, ApplyRequest::Finished(Ok(AppliedState { mode, dpi })))
            },
            _ => (done, ApplyRequest::ReadMode),
        }
    }
}

/// Whether the lighting is replayed after the desired mode and DPI are in place:
/// only in host mode, where the host owns the lighting.
pub fn replays_lighting(applied: &AppliedState) -> (r: bool)
    ensures
        r == (applied.mode == OnboardMode::Host),
{
    applied.mode == OnboardMode::Host
}

/// Whether the lighting counts as synchronised after a full restore: always outside
/// host mode (the firmware owns it there); in host mode, whether replaying the
/// configured zones succeeded. A failed replay is no error of the restore: it is
/// tried again later.
pub fn lighting_synced(applied: &AppliedState, replay: &Option<Result<(), HidppError>>) -> (r: bool)
    requires
        (replay is Some) == (applied.mode == OnboardMode::Host),
    ensures
        r == match replay {
            Some(res) => res is Ok,
            None => true,
        },
        applied.mode != OnboardMode::Host ==> r,
{
    match replay {
        Some(res) => res.is_ok(),
        None => true,
    }
}

/// Whether an answer is honest about the request it answers: a mode switch that
/// succeeded reports the requested mode, and a DPI write that succeeded reports the
/// requested DPI (as the confirming steps of both guarantee).
pub open spec fn answers(req: ApplyRequest, ev: ApplyEvent) -> bool {
    match req {
        ApplyRequest::SetMode(m) => ev matches ApplyEvent::Mode(Ok(actual)) ==> actual == m,
        ApplyRequest::SetDpi(t) => ev matches ApplyEvent::Dpi(Ok(d)) ==> d == t,
        _ => true,
    }
}

/// What holds of an apply run and the request it has just made: the run moves toward
/// the desired mode, and in host mode toward the configured DPI; a finished run that
/// succeeded reports the desired mode, and the configured DPI where one is set in
/// host mode.
pub open spec fn apply_inv(run: ApplyRun, req: ApplyRequest) -> bool {
    let keeps_target = |t: u16| run.desired_dpi matches Some(d) ==> t == d;
    match (run.phase, req) {
        (ApplyPhase::AwaitMode, ApplyRequest::ReadMode) => true,
        (ApplyPhase::AwaitTargetDpi { .. }, ApplyRequest::ReadDpi) => run.desired_dpi is None,
        (ApplyPhase::AwaitSetMode { target }, ApplyRequest::SetMode(m)) => m == run.desired && (
        run.desired_dpi is Some ==> target == run.desired_dpi),
        (ApplyPhase::AwaitRelease, ApplyRequest::ReleaseIndicator) => run.desired
            == OnboardMode::Onboard,
        (ApplyPhase::AwaitHostDpi { target }, ApplyRequest::ReadDpi) => run.desired
            == OnboardMode::Host && keeps_target(target),
        (ApplyPhase::AwaitSetDpi, ApplyRequest::SetDpi(t)) => run.desired == OnboardMode::Host
            && keeps_target(t),
        (ApplyPhase::AwaitReportDpi { mode }, ApplyRequest::ReadDpi) => mode == run.desired && (mode
            == OnboardMode::Host ==> run.desired_dpi is None),
        (ApplyPhase::Done, ApplyRequest::Finished(Ok(s))) => s.mode == run.desired && (s.mode
            == OnboardMode::Host ==> (run.desired_dpi matches Some(t) ==> s.dpi == Some(t))),
        (ApplyPhase::Done, ApplyRequest::Finished(Err(_))) => true,
        _ => false,
    }
}

/// A run starts in its invariant.
pub proof fn lemma_apply_start(desired_mode: DesiredMode, desired_dpi: Option<u16>)
    ensures
        apply_inv(
            ApplyRun {
                desired: spec_desired_onboard_mode(desired_mode),
                desired_dpi,
                phase: ApplyPhase::AwaitMode,
            },
            ApplyRequest::ReadMode,
        ),
{
}

/// Every step of a run keeps its invariant when the device's answers are honest; so a
/// run that finishes with `Ok` has brought the device to the desired mode, and in
/// host mode to the configured DPI.
pub proof fn lemma_apply_step_keeps(run: ApplyRun, req: ApplyRequest, ev: ApplyEvent)
    requires
        apply_inv(run, req),
        run.phase != ApplyPhase::Done,
        event_fits(run.phase, ev),
        answers(req, ev),
    ensures
        apply_inv(spec_apply_step(run, ev).0, spec_apply_step(run, ev).1),
{
}

/// A run that ends well in host mode with a target DPI reports that DPI: the device
/// either already used it or confirmed writing it. (The write's read-back is what
/// the device returns; the run reports it unchanged.)
pub proof fn lemma_host_run_reports_target(target: u16, current: u16)
    ensures
        ({
            let run = ApplyRun {
                desired: OnboardMode::Host,
                desired_dpi: Some(target),
                phase: ApplyPhase::AwaitHostDpi { target },
            };
            let (next, req) = spec_apply_step(run, ApplyEvent::Dpi(Ok(current)));
            &&& current == target ==> req == ApplyRequest::Finished(
                Ok(AppliedState { mode: OnboardMode::Host, dpi: Some(target) }),
            )
            &&& current != target ==> req == ApplyRequest::SetDpi(target) && next.phase
                == ApplyPhase::AwaitSetDpi
        }),
{
}

} // verus!
