//! Configuration model (`config.json`): desired mode and DPI, DPI levels, profiles,
//! side-button macros and per-zone lighting.
use crate::named_map::NamedMap;
use crate::text::{str_is, string_views};
use vstd::prelude::*;

verus! {

/// Lighting of one zone.
#[derive(Debug, Clone)]
pub struct LedSpec {
    pub off: bool,
    pub effect: String,
    pub rgb: [u8; 3],
    pub brightness: u8,
    /// Effect rate: slow/medium/fast or milliseconds; `None` is the device's own pace.
    pub rate: Option<String>,
}

/// A lighting specification as plain values.
pub struct LedSpecView {
    pub off: bool,
    pub effect: Seq<char>,
    pub rgb: Seq<u8>,
    pub brightness: u8,
    pub rate: Option<Seq<char>>,
}

impl View for LedSpec {
    type V = LedSpecView;

    open spec fn view(&self) -> LedSpecView {
        LedSpecView {
            off: self.off,
            effect: self.effect@,
            rgb: self.rgb@,
            brightness: self.brightness,
            rate: opt_view(self.rate),
        }
    }
}

/// The lighting assumed for a zone the configuration does not mention: solid
/// white at full brightness, medium rate.
pub open spec fn default_led_view() -> LedSpecView {
    LedSpecView {
        off: false,
        effect: "solid"@,
        rgb: seq![255u8, 255u8, 255u8],
        brightness: 100,
        rate: Some("medium"@),
    }
}

/// The lighting assumed for a zone the configuration does not mention.
pub fn default_led_spec() -> (r: LedSpec)
    ensures
        r@ == default_led_view(),
{
    proof {
        reveal_strlit("solid");
        reveal_strlit("off");
    }
    let r = LedSpec::new("solid", [255, 255, 255], 100, Some("medium"));
    assert(r.rgb@ =~= seq![255u8, 255u8, 255u8]);
    assert("solid"@.len() != "off"@.len());
    assert(!r.off);
    assert(opt_view(r.rate) == Some("medium"@));
    r
}

/// A copy of an optional string.
pub fn clone_opt_string(s: &Option<String>) -> (r: Option<String>)
    ensures
        r == *s,
{
    match s {
        Some(x) => Some(x.clone()),
        None => None,
    }
}

/// A copy of a list of strings.
pub fn clone_strings(v: &Vec<String>) -> (r: Vec<String>)
    ensures
        r@ == v@,
{
    let mut r: Vec<String> = Vec::new();
    let mut i: usize = 0;
    while i < v.len()
        invariant
            i <= v@.len(),
            r@ == v@.subrange(0, i as int),
        decreases v@.len() - i,
    {
        r.push(v[i].clone());
        i += 1;
        assert(r@ =~= v@.subrange(0, i as int));
    }
    assert(v@.subrange(0, v@.len() as int) =~= v@);
    r
}

impl LedSpec {
    pub fn new(effect: &str, rgb: [u8; 3], brightness: u8, rate: Option<&str>) -> (r: Self)
        ensures
            r.off == (effect@ == "off"@),
            r.effect@ == effect@,
            r.rgb == rgb,
            r.brightness == brightness,
            match rate {
                Some(s) => r.rate matches Some(t) && t@ == s@,
                None => r.rate is None,
            },
    {
        LedSpec {
            off: str_is(effect, "off"),
            effect: String::from_str(effect),
            rgb,
            brightness,
            rate: match rate {
                Some(s) => Some(String::from_str(s)),
                None => None,
            },
        }
    }

    /// An identical copy of the specification.
    pub fn duplicate(&self) -> (r: Self)
        ensures
            r == *self,
    {
        LedSpec {
            off: self.off,
            effect: self.effect.clone(),
            rgb: self.rgb,
            brightness: self.brightness,
            rate: clone_opt_string(&self.rate),
        }
    }

    /// Switches the zone off, keeping the effect, colour, brightness and rate.
    pub fn turn_off(&mut self)
        ensures
            *final(self) == (LedSpec { off: true, ..*old(self) }),
    {
        self.off = true;
    }

    /// Switches the zone back on with its effect, colour, brightness and rate.
    pub fn turn_on(&mut self)
        ensures
            *final(self) == (LedSpec { off: false, ..*old(self) }),
    {
        self.off = false;
    }
}

pub fn default_effect() -> (r: String)
    ensures
        r@ == "solid"@,
{
    String::from_str("solid")
}

pub fn default_rgb() -> (r: [u8; 3])
    ensures
        r@ == seq![255u8, 255u8, 255u8],
{
    let r = [255, 255, 255];
    assert(r@ =~= seq![255u8, 255u8, 255u8]);
    r
}

pub fn default_brightness() -> (r: u8)
    ensures
        r == 100,
{
    100
}

#[derive(Debug, Clone, Copy, PartialEq, Eq, Structural)]
pub enum DesiredMode {
    Host,
    Onboard,
}

impl Default for DesiredMode {
    fn default() -> (r: Self)
        ensures
            r == DesiredMode::Host,
    {
        DesiredMode::Host
    }
}

pub fn default_desired_mode() -> (r: DesiredMode)
    ensures
        r == DesiredMode::Host,
{
    DesiredMode::Host
}

#[derive(Debug, Clone)]
pub struct Profile {
    pub dpi_levels: Vec<u16>,
    pub active_dpi: Option<u16>,
    pub led: Option<LedSpec>,
}

/// One step of a macro: a key combination, a text, a raw key event or a delay.
#[derive(Debug, Clone)]
pub struct Action {
    pub keys: Option<String>,
    pub text: Option<String>,
    pub keycode: Option<u32>,
    pub delay_ms: Option<u64>,
    pub key_down: Option<bool>,
    pub modifiers: Vec<String>,
}

/// What an action holds, as plain values.
pub struct ActionView {
    pub keys: Option<Seq<char>>,
    pub text: Option<Seq<char>>,
    pub keycode: Option<u32>,
    pub delay_ms: Option<u64>,
    pub key_down: Option<bool>,
    pub modifiers: Seq<Seq<char>>,
}

pub open spec fn opt_view(s: Option<String>) -> Option<Seq<char>> {
    match s {
        Some(x) => Some(x@),
        None => None,
    }
}

impl View for Action {
    type V = ActionView;

    open spec fn view(&self) -> ActionView {
        ActionView {
            keys: opt_view(self.keys),
            text: opt_view(self.text),
            keycode: self.keycode,
            delay_ms: self.delay_ms,
            key_down: self.key_down,
            modifiers: string_views(self.modifiers@),
        }
    }
}

/// The views of a list of actions.
pub open spec fn action_views(v: Seq<Action>) -> Seq<ActionView> {
    v.map_values(|a: Action| a@)
}

/// An action that does nothing: every field empty.
pub open spec fn empty_action_view() -> ActionView {
    ActionView { keys: None, text: None, keycode: None, delay_ms: None, key_down: None, modifiers: Seq::empty() }
}

pub proof fn lemma_action_views_push(s: Seq<Action>, a: Action)
    ensures
        action_views(s.push(a)) == action_views(s).push(a@),
{
    assert(action_views(s.push(a)) =~= action_views(s).push(a@));
}

pub fn empty_action() -> (r: Action)
    ensures
        r@ == empty_action_view(),
{
    let r = Action { keys: None, text: None, keycode: None, delay_ms: None, key_down: None, modifiers: Vec::new() };
    assert(r@.modifiers =~= Seq::<Seq<char>>::empty());
    r
}

impl Action {
    /// An identical copy of the action.
    pub fn duplicate(&self) -> (r: Self)
        ensures
            r@ == self@,
    {
        Action {
            keys: clone_opt_string(&self.keys),
            text: clone_opt_string(&self.text),
            keycode: self.keycode,
            delay_ms: self.delay_ms,
            key_down: self.key_down,
            modifiers: clone_strings(&self.modifiers),
        }
    }
}

/// A copy of a list of actions.
pub fn clone_actions(v: &Vec<Action>) -> (r: Vec<Action>)
    ensures
        action_views(r@) == action_views(v@),
{
    let mut r: Vec<Action> = Vec::new();
    let mut i: usize = 0;
    while i < v.len()
        invariant
            i <= v@.len(),
            r@.len() == i,
            action_views(r@) == action_views(v@.subrange(0, i as int)),
        decreases v@.len() - i,
    {
        let ghost before = r@;
        let a = v[i].duplicate();
        r.push(a);
        proof {
            let ghost old_views = action_views(v@.subrange(0, i as int));
            assert(r@ == before.push(a));
            assert(a@ == v@[i as int]@);
            assert(before.len() == i);
            assert forall|k: int| 0 <= k <= i implies #[trigger] action_views(r@)[k] == action_views(v@.subrange(0, i + 1))[k] by {
                if k < i {
                    assert(action_views(before)[k] == old_views[k]);
                    assert(r@[k] == before[k]);
                } else {
                    assert(r@[k] == a);
                }
            }
        }
        i += 1;
        assert(action_views(r@) =~= action_views(v@.subrange(0, i as int)));
    }
    assert(v@.subrange(0, v@.len() as int) =~= v@);
    r
}

#[derive(Debug, Clone)]
pub struct MacroBinding {
    pub name: Option<String>,
    pub enabled: bool,
    pub actions: Vec<Action>,
}

pub fn default_true() -> (r: bool)
    ensures
        r,
{
    true
}

#[derive(Debug)]
pub struct Config {
    pub desired_mode: DesiredMode,
    pub desired_dpi: Option<u16>,
    pub dpi_levels: Vec<u16>,
    pub profiles: NamedMap<Profile>,
    pub macros: NamedMap<MacroBinding>,
    /// Lighting per zone, keyed `primary` and `logo`.
    pub led_zones: NamedMap<LedSpec>,
    pub battery_poll_seconds: u64,
    pub low_battery_threshold: u8,
}

pub fn default_dpi_levels() -> (r: Vec<u16>)
    ensures
        r@ == seq![400u16, 800u16, 1600u16, 3200u16],
{
    let mut v = Vec::new();
    v.push(400);
    v.push(800);
    v.push(1600);
    v.push(3200);
    assert(v@ =~= seq![400u16, 800u16, 1600u16, 3200u16]);
    v
}

pub fn default_poll() -> (r: u64)
    ensures
        r == 60,
{
    60
}

pub fn default_threshold() -> (r: u8)
    ensures
        r == 15,
{
    15
}

/// The example macro of a fresh configuration: `cmd+c` on mouse3, disabled.
pub open spec fn is_example_macro(m: MacroBinding) -> bool {
    &&& m.name matches Some(n) && n@ == "示例:复制"@
    &&& !m.enabled
    &&& m.actions@.len() == 1
    &&& m.actions@[0].keys matches Some(k) && k@ == "cmd+c"@
    &&& m.actions@[0].text is None
    &&& m.actions@[0].keycode is None
    &&& m.actions@[0].delay_ms is None
    &&& m.actions@[0].key_down is None
    &&& m.actions@[0].modifiers@.len() == 0
}

impl Default for Config {
    /// A fresh configuration: host mode, no desired DPI, DPI levels 400/800/1600/3200,
    /// no profiles, the disabled example macro on mouse3, no lighting, battery polled
    /// every 60 s, low-battery alert at 15 %.
    fn default() -> (r: Self)
        ensures
            r.desired_mode == DesiredMode::Host,
            r.desired_dpi is None,
            r.dpi_levels@ == seq![400u16, 800u16, 1600u16, 3200u16],
            r.profiles.view() == Map::<Seq<char>, Profile>::empty(),
            r.macros.view().dom() == set!["mouse3"@],
            is_example_macro(r.macros.view()["mouse3"@]),
            r.led_zones.view() == Map::<Seq<char>, LedSpec>::empty(),
            r.battery_poll_seconds == 60,
            r.low_battery_threshold == 15,
    {
        let mut macros = NamedMap::new();
        let mut actions = Vec::new();
        actions.push(
            Action {
                keys: Some(String::from_str("cmd+c")),
                text: None,
                keycode: None,
                delay_ms: None,
                key_down: None,
                modifiers: Vec::new(),
            },
        );
        macros.insert(
            String::from_str("mouse3"),
            MacroBinding { name: Some(String::from_str("示例:复制")), enabled: false, actions },
        );
        assert(macros.view().dom() =~= set!["mouse3"@]);
        Config {
            desired_mode: DesiredMode::Host,
            desired_dpi: None,
            dpi_levels: default_dpi_levels(),
            profiles: NamedMap::new(),
            macros,
            led_zones: NamedMap::new(),
            battery_poll_seconds: default_poll(),
            low_battery_threshold: default_threshold(),
        }
    }
}

} // verus!
