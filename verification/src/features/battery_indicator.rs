//! Temporary battery display on the mouse, in the manner of G HUB:
//!   - below 16 %: one segment, red breathing (1000 ms, urgent);
//!   - 16–30 %: one segment, orange solid;
//!   - 31–50 %: two segments, green solid;
//!   - 51–100 %: three segments, green solid.
//! The segments come from feature 0x1300, the colour from 0x8070; after about
//! 2.2 s the user's own primary lighting is restored.
use crate::config::{Config, LedSpec};
use crate::hidpp::HidppError;
use vstd::prelude::*;

verus! {

pub const INDICATOR_DURATION_MS: u64 = 2200;

#[derive(Debug, Clone, Copy, PartialEq, Eq, Structural)]
pub enum BatteryIndicatorTier {
    Critical,
    Low,
    Normal,
}

pub open spec fn spec_tier(percent: u8) -> BatteryIndicatorTier {
    if percent < 16 {
        BatteryIndicatorTier::Critical
    } else if percent <= 30 {
        BatteryIndicatorTier::Low
    } else {
        BatteryIndicatorTier::Normal
    }
}

pub fn tier_for_percent(percent: u8) -> (r: BatteryIndicatorTier)
    ensures
        r == spec_tier(percent),
{
    if percent < 16 {
        BatteryIndicatorTier::Critical
    } else if percent <= 30 {
        BatteryIndicatorTier::Low
    } else {
        BatteryIndicatorTier::Normal
    }
}

pub open spec fn spec_bars(percent: u8) -> u8 {
    if percent <= 30 {
        1
    } else if percent <= 50 {
        2
    } else {
        3
    }
}

/// The number of segments (1..=3) lit for a charge percentage.
pub fn bars_for_percent(percent: u8) -> (r: u8)
    ensures
        r == spec_bars(percent),
        1 <= r <= 3,
{
    if percent <= 30 {
        1
    } else if percent <= 50 {
        2
    } else {
        3
    }
}

/// The colour effect shown for a charge percentage: red breathing at 1000 ms (the
/// device's lower limit) when critical, orange when low, green otherwise.
pub fn indicator_spec(percent: u8) -> (r: LedSpec)
    ensures
        !r.off,
        r.brightness == 100,
        spec_tier(percent) == BatteryIndicatorTier::Critical ==> r.effect@ == "breathing"@ && r.rgb@
            == seq![255u8, 0u8, 0u8] && (r.rate matches Some(t) && t@ == "1000"@),
        spec_tier(percent) == BatteryIndicatorTier::Low ==> r.effect@ == "solid"@ && r.rgb@ == seq![
            255u8,
            160u8,
            0u8,
        ] && r.rate is None,
        spec_tier(percent) == BatteryIndicatorTier::Normal ==> r.effect@ == "solid"@ && r.rgb@ == seq![
            0u8,
            255u8,
            0u8,
        ] && r.rate is None,
{
    proof {
        reveal_strlit("breathing");
        reveal_strlit("solid");
        reveal_strlit("off");
        assert("breathing"@.len() != "off"@.len());
        assert("solid"@.len() != "off"@.len());
    }
    match tier_for_percent(percent) {
        BatteryIndicatorTier::Critical => {
            let r = LedSpec::new("breathing", [255, 0, 0], 100, Some("1000"));
            assert(r.rgb@ =~= seq![255u8, 0u8, 0u8]);
            r
        },
        BatteryIndicatorTier::Low => {
            let r = LedSpec::new("solid", [255, 160, 0], 100, None);
            assert(r.rgb@ =~= seq![255u8, 160u8, 0u8]);
            r
        },
        BatteryIndicatorTier::Normal => {
            let r = LedSpec::new("solid", [0, 255, 0], 100, None);
            assert(r.rgb@ =~= seq![0u8, 255u8, 0u8]);
            r
        },
    }
}

/// The primary-zone lighting to restore after the battery display: the pending live
/// setting if any, else the configured one; without either the display is refused,
/// since it could not be undone.
pub fn battery_restore_spec(live: Option<LedSpec>, cfg: &Config) -> (r: Result<LedSpec, HidppError>)
    ensures
        live matches Some(s) ==> r == Ok::<LedSpec, HidppError>(s),
        live is None && cfg.led_zones.view().contains_key("primary"@) ==> r == Ok::<LedSpec, HidppError>(
            cfg.led_zones.view()["primary"@],
        ),
        live is None && !cfg.led_zones.view().contains_key("primary"@) ==> (r matches Err(
            HidppError::Invalid(m),
        ) && m@ == "缺少主要灯区配置，无法安全恢复临时电量灯效"@),
{
    match live {
        Some(s) => Ok(s),
        None => match cfg.led_zones.get("primary") {
            Some(s) => Ok(s.duplicate()),
            None => Err(HidppError::Invalid(String::from_str("缺少主要灯区配置，无法安全恢复临时电量灯效"))),
        },
    }
}

/// More charge never lights fewer segments.
pub proof fn lemma_bars_monotone(p: u8, q: u8)
    requires
        p <= q,
    ensures
        spec_bars(p) <= spec_bars(q),
{
}

/// The tiers and segment counts agree: critical and low show one segment, and two or
/// three segments only show in the normal tier.
pub proof fn lemma_tier_matches_bars(p: u8)
    ensures
        spec_tier(p) != BatteryIndicatorTier::Normal <==> spec_bars(p) == 1 && p <= 30,
        spec_bars(p) >= 2 ==> spec_tier(p) == BatteryIndicatorTier::Normal,
{
}

} // verus!
