//! The control panel's logic: which zone and lighting its controls stand for, the
//! lighting its sliders make, its colour and DPI presets, and the texts it shows.
use crate::config::{LedSpec, LedSpecView};
use crate::controller::{get_live_spec_for_zone, opt_string_view, spec_live_spec, LiveLedState, TargetZone};
use crate::features::led::{opt_str_view, rate_period_ms, spec_rate_period, ZONE_LOGO, ZONE_PRIMARY};
use crate::menu::{find_matching_color_idx, led_colors, spec_led_color_rgbs, spec_led_colors};
use crate::macro_engine::{RecordingKind, RecordingPhase};
use crate::named_map::NamedMap;
use crate::text::{dec_digits, decimal, hex_digits, str_is};
use vstd::prelude::*;

verus! {

/// Which view of the mouse the canvas draws: from above (G7–G11) or from the side
/// (G4–G6).
#[derive(Debug, Clone, Copy, PartialEq, Eq, Structural)]
pub enum CanvasMode {
    Top,
    Side,
}

impl Default for CanvasMode {
    fn default() -> (r: Self)
        ensures
            r == CanvasMode::Top,
    {
        CanvasMode::Top
    }
}

/// What the mouse canvas shows and what was last clicked on it.
#[derive(Debug)]
pub struct CanvasState {
    pub mode: CanvasMode,
    pub selected_key: Option<String>,
    pub clicked_key: Option<String>,
}

impl CanvasState {
    pub fn new() -> (r: Self)
        ensures
            r.mode == CanvasMode::Top,
            r.selected_key is None,
            r.clicked_key is None,
    {
        CanvasState { mode: CanvasMode::Top, selected_key: None, clicked_key: None }
    }

    /// Switches the view; returns whether the canvas must be redrawn.
    pub fn set_mode(&mut self, mode: CanvasMode) -> (r: bool)
        ensures
            final(self).mode == mode,
            r == (old(self).mode != mode),
            final(self).selected_key == old(self).selected_key,
            final(self).clicked_key == old(self).clicked_key,
    {
        if self.mode != mode {
            self.mode = mode;
            true
        } else {
            false
        }
    }

    /// Takes the last clicked key, so that each click is handled once.
    pub fn take_clicked_key(&mut self) -> (r: Option<String>)
        ensures
            r == old(self).clicked_key,
            final(self).clicked_key is None,
            final(self).mode == old(self).mode,
            final(self).selected_key == old(self).selected_key,
    {
        self.clicked_key.take()
    }
}

/// The DPI presets of the panel.
pub open spec fn spec_dpi_presets() -> Seq<u16> {
    seq![400u16, 800u16, 1600u16, 3200u16, 6400u16]
}

/// The panel's state: whether another thread asked for it to be shown.
#[derive(Debug)]
pub struct PopoverPanel {
    pub open_request: bool,
}

impl PopoverPanel {
    pub fn new() -> (r: Self)
        ensures
            !r.open_request,
    {
        PopoverPanel { open_request: false }
    }

    /// Asks for the panel to be shown at the next pump.
    pub fn request_show(&mut self)
        ensures
            final(self).open_request,
    {
        self.open_request = true;
    }

    /// Takes the request to show the panel: true once per request.
    pub fn poll_open_request(&mut self) -> (r: bool)
        ensures
            r == old(self).open_request,
            !final(self).open_request,
    {
        let r = self.open_request;
        self.open_request = false;
        r
    }

    /// The canvas view of the mouse-view control: the first segment is the top view.
    pub fn switch_mouse_view(view_idx: usize) -> (r: CanvasMode)
        ensures
            r == if view_idx == 0 {
                CanvasMode::Top
            } else {
                CanvasMode::Side
            },
    {
        if view_idx == 0 {
            CanvasMode::Top
        } else {
            CanvasMode::Side
        }
    }

    /// The zones of the zone control: both, primary, logo.
    pub fn current_target_zone(zone_seg: usize) -> (r: TargetZone)
        ensures
            r == if zone_seg == 1 {
                TargetZone::Single(ZONE_PRIMARY)
            } else if zone_seg == 2 {
                TargetZone::Single(ZONE_LOGO)
            } else {
                TargetZone::All
            },
    {
        match zone_seg {
            1 => TargetZone::Single(ZONE_PRIMARY),
            2 => TargetZone::Single(ZONE_LOGO),
            _ => TargetZone::All,
        }
    }

    /// The configuration key whose lighting the zone control shows: the logo for
    /// the logo segment, else the primary zone.
    pub fn zone_key_for(zone_seg: usize) -> (r: &'static str)
        ensures
            r@ == if zone_seg == 2 {
                "logo"@
            } else {
                "primary"@
            },
    {
        if zone_seg == 2 {
            "logo"
        } else {
            "primary"
        }
    }

    /// The lighting the panel shows for a zone the configuration does not mention:
    /// breathing cyan for the logo, breathing amber otherwise, 2 s.
    pub fn default_spec(zone_seg: usize) -> (r: LedSpec)
        ensures
            r@ == (LedSpecView {
                off: false,
                effect: "breathing"@,
                rgb: if zone_seg == 2 {
                    seq![0u8, 200u8, 255u8]
                } else {
                    seq![255u8, 204u8, 0u8]
                },
                brightness: 100,
                rate: Some("2000"@),
            }),
    {
        proof {
            reveal_strlit("breathing");
            reveal_strlit("off");
        }
        let rgb = if zone_seg == 2 {
            [0u8, 200u8, 255u8]
        } else {
            [255u8, 204u8, 0u8]
        };
        let r = LedSpec::new("breathing", rgb, 100, Some("2000"));
        assert(r.rgb@ =~= (if zone_seg == 2 {
            seq![0u8, 200u8, 255u8]
        } else {
            seq![255u8, 204u8, 0u8]
        }));
        assert("breathing"@.len() != "off"@.len());
        r
    }

    /// The lighting the panel shows for a zone: the change not yet saved, else the
    /// configuration, else the panel's default.
    pub fn current_spec(zone_seg: usize, live: &LiveLedState, zones: &NamedMap<LedSpec>) -> (r: LedSpec)
        ensures
            ({
                let key = if zone_seg == 2 {
                    "logo"@
                } else {
                    "primary"@
                };
                match spec_live_spec(*live, key) {
                    Some(s) => r == s,
                    None => if zones.view().contains_key(key) {
                        r == zones.view()[key]
                    } else {
                        r@ == (LedSpecView {
                            off: false,
                            effect: "breathing"@,
                            rgb: if zone_seg == 2 {
                                seq![0u8, 200u8, 255u8]
                            } else {
                                seq![255u8, 204u8, 0u8]
                            },
                            brightness: 100,
                            rate: Some("2000"@),
                        })
                    },
                }
            }),
    {
        let key = Self::zone_key_for(zone_seg);
        if let Some(spec) = get_live_spec_for_zone(live, key) {
            return spec;
        }
        match zones.get(key) {
            Some(s) => s.duplicate(),
            None => Self::default_spec(zone_seg),
        }
    }

    /// The preset colour equal to `rgb`, if any.
    pub fn find_matching_color_idx(rgb: [u8; 3]) -> (r: Option<usize>)
        ensures
            match r {
                Some(i) => i < spec_led_color_rgbs().len() && spec_led_color_rgbs()[i as int] == rgb@
                    && forall|j: int| 0 <= j < i ==> spec_led_color_rgbs()[j] != rgb@,
                None => forall|j: int|
                    0 <= j < spec_led_color_rgbs().len() ==> spec_led_color_rgbs()[j] != rgb@,
            },
    {
        find_matching_color_idx(rgb)
    }

    /// The colour swatches are usable for the solid and breathing effects only.
    pub fn color_enabled(effect_idx: usize) -> (r: bool)
        ensures
            r == (effect_idx != 0 && effect_idx != 2),
    {
        effect_idx != 0 && effect_idx != 2
    }

    /// The text under the colour swatches.
    pub fn color_label_text(rgb: [u8; 3], effect_idx: usize) -> (r: String)
        ensures
            effect_idx == 0 ==> r@ == "灯效已关闭"@,
            effect_idx == 2 ==> r@ == "彩色循环 (色彩自动过渡)"@,
            effect_idx != 0 && effect_idx != 2 ==> ({
                ||| exists|i: int|
                    0 <= i < spec_led_color_rgbs().len() && spec_led_color_rgbs()[i] == rgb@ && (
                    forall|j: int| 0 <= j < i ==> spec_led_color_rgbs()[j] != rgb@) && r@ == "选定: "@
                        + spec_led_colors()[i].0 + " · #"@ + spec_led_colors()[i].1
                ||| (forall|j: int|
                    0 <= j < spec_led_color_rgbs().len() ==> spec_led_color_rgbs()[j] != rgb@) && r@
                    == "选定: 自定义 · #"@ + hex_digits(rgb[0] as nat, 2) + hex_digits(rgb[1] as nat, 2)
                    + hex_digits(rgb[2] as nat, 2)
            }),
    {
        if effect_idx == 0 {
            return String::from_str("灯效已关闭");
        }
        if effect_idx == 2 {
            return String::from_str("彩色循环 (色彩自动过渡)");
        }
        match find_matching_color_idx(rgb) {
            Some(i) => {
                let colors = led_colors();
                let (name, hex) = colors[i];
                let mut s = String::from_str("选定: ");
                s.append(name);
                s.append(" · #");
                s.append(hex);
                s
            },
            None => {
                let mut s = String::from_str("选定: 自定义 · #");
                let a = crate::text::hex_digits_exec(rgb[0] as u64, 2);
                s.append(a.as_str());
                let b = crate::text::hex_digits_exec(rgb[1] as u64, 2);
                s.append(b.as_str());
                let c = crate::text::hex_digits_exec(rgb[2] as u64, 2);
                s.append(c.as_str());
                s
            },
        }
    }

    /// The rate slider applies to the cycle and breathing effects only.
    pub fn rate_applies(effect_idx: usize) -> (r: bool)
        ensures
            r == (effect_idx == 2 || effect_idx == 3),
    {
        effect_idx == 2 || effect_idx == 3
    }

    /// How the rate label names a pace.
    pub fn rate_pace(period_ms: u16) -> (r: &'static str)
        ensures
            r@ == if period_ms <= 1500 {
                "快"@
            } else if period_ms <= 3000 {
                "适中"@
            } else if period_ms <= 6000 {
                "舒缓"@
            } else {
                "慢速"@
            },
    {
        if period_ms <= 1500 {
            "快"
        } else if period_ms <= 3000 {
            "适中"
        } else if period_ms <= 6000 {
            "舒缓"
        } else {
            "慢速"
        }
    }

    /// The rate of the rate slider: 2 s when it reads 0, else rounded to 100 ms and
    /// kept within 1–10 s.
    pub fn rate_from_slider(raw: u16) -> (r: u16)
        requires
            raw <= u16::MAX - 50,
        ensures
            r == if raw == 0 {
                2000
            } else {
                let rounded = (raw + 50) / 100 * 100;
                if rounded < 1000 {
                    1000
                } else if rounded > 10000 {
                    10000
                } else {
                    rounded
                }
            },
    {
        if raw == 0 {
            return 2000;
        }
        let rounded = (raw + 50) / 100 * 100;
        if rounded < 1000 {
            1000
        } else if rounded > 10000 {
            10000
        } else {
            rounded
        }
    }

    /// The rate the rate label shows while the effect changes: 2 s when the slider
    /// reads 0, else the slider's value kept within 1–10 s.
    pub fn rate_for_label(raw: u16) -> (r: u16)
        ensures
            r == if raw == 0 {
                2000
            } else if raw < 1000 {
                1000
            } else if raw > 10000 {
                10000
            } else {
                raw
            },
    {
        if raw == 0 {
            2000
        } else if raw < 1000 {
            1000
        } else if raw > 10000 {
            10000
        } else {
            raw
        }
    }

    /// The lighting the panel's controls make: effect segment off, solid, cycle or
    /// breathing (any other segment keeps breathing), with the colour, brightness
    /// and rate of the controls.
    pub fn panel_spec(effect_seg: usize, rgb: [u8; 3], brightness: u8, rate_ms: u16) -> (r: LedSpec)
        ensures
            r@ == (LedSpecView {
                off: effect_seg == 0,
                effect: if effect_seg == 1 {
                    "solid"@
                } else if effect_seg == 2 {
                    "cycle"@
                } else {
                    "breathing"@
                },
                rgb: rgb@,
                brightness,
                rate: Some(dec_digits(rate_ms as nat)),
            }),
    {
        proof {
            reveal_strlit("breathing");
            reveal_strlit("off");
        }
        let rate = decimal(rate_ms as u64);
        let mut spec = LedSpec::new("breathing", rgb, brightness, Some(rate.as_str()));
        assert("breathing"@.len() != "off"@.len());
        match effect_seg {
            0 => {
                spec.off = true;
            },
            1 => {
                spec.off = false;
                spec.effect = String::from_str("solid");
            },
            2 => {
                spec.off = false;
                spec.effect = String::from_str("cycle");
            },
            3 => {
                spec.off = false;
                spec.effect = String::from_str("breathing");
            },
            _ => {},
        }
        spec
    }

    /// Picking a colour while the effect has no colour (off or cycle) switches to
    /// breathing.
    pub fn effect_after_color_pick(effect_seg: usize) -> (r: usize)
        ensures
            r == if effect_seg == 0 || effect_seg == 2 {
                3
            } else {
                effect_seg
            },
    {
        if effect_seg == 0 || effect_seg == 2 {
            3
        } else {
            effect_seg
        }
    }

    /// The DPI presets, in the order the panel offers them.
    pub fn dpi_presets() -> (r: [u16; 5])
        ensures
            r@ == spec_dpi_presets(),
    {
        let presets: [u16; 5] = [400, 800, 1600, 3200, 6400];
        assert(presets@ =~= spec_dpi_presets());
        presets
    }

    /// The effect segment that shows a lighting: off, solid, cycle, else breathing.
    pub fn effect_index(spec: &LedSpec) -> (r: usize)
        ensures
            r == if spec.off {
                0usize
            } else if spec.effect@ == "solid"@ {
                1usize
            } else if spec.effect@ == "cycle"@ {
                2usize
            } else {
                3usize
            },
    {
        if spec.off {
            0
        } else if str_is(spec.effect.as_str(), "solid") {
            1
        } else if str_is(spec.effect.as_str(), "cycle") {
            2
        } else {
            3
        }
    }

    /// Where the rate slider stands for a lighting: its period kept within
    /// 1000–10000 ms; 2000 ms for the device's own pace or a rate that is refused.
    pub fn rate_slider_value(spec: &LedSpec) -> (r: u16)
        ensures
            r == match spec_rate_period(opt_string_view(spec.rate)) {
                Some(p) => if p == 0 {
                    2000u16
                } else if p < 1000 {
                    1000u16
                } else if p > 10000 {
                    10000u16
                } else {
                    p
                },
                None => 2000u16,
            },
    {
        let rate: Option<&str> = match &spec.rate {
            Some(t) => Some(t.as_str()),
            None => None,
        };
        assert(opt_str_view(rate) == opt_string_view(spec.rate));
        let p = match rate_period_ms(rate) {
            Ok(p) => p,
            Err(_) => 2000,
        };
        if p == 0 {
            2000
        } else if p < 1000 {
            1000
        } else if p > 10000 {
            10000
        } else {
            p
        }
    }

    /// The DPI preset a value matches, if any.
    pub fn preset_index(dpi: u16) -> (r: Option<usize>)
        ensures
            match r {
                Some(i) => i < 5 && spec_dpi_presets()[i as int] == dpi,
                None => !spec_dpi_presets().contains(dpi),
            },
    {
        let presets: [u16; 5] = [400, 800, 1600, 3200, 6400];
        assert(presets@ =~= spec_dpi_presets());
        let mut i: usize = 0;
        while i < 5
            invariant
                i <= 5,
                presets@ == spec_dpi_presets(),
                forall|k: int| 0 <= k < i ==> spec_dpi_presets()[k] != dpi,
            decreases 5 - i,
        {
            if presets[i] == dpi {
                return Some(i);
            }
            i += 1;
        }
        None
    }

    /// The DPI the panel shows for a reported value: kept within 100–25600.
    pub fn shown_dpi(dpi: u16) -> (r: u16)
        ensures
            r == if dpi < 100 {
                100
            } else if dpi > 25600 {
                25600
            } else {
                dpi
            },
    {
        if dpi < 100 {
            100
        } else if dpi > 25600 {
            25600
        } else {
            dpi
        }
    }
}

/// A key's hot zone on the mouse canvas, in thousandths of the drawing: its key and
/// description, the corners of its area, the point its badge leads to, the side and
/// height of the badge, and where its label and leader line sit.
#[derive(Debug)]
pub struct ZoneSpec {
    pub key: &'static str,
    pub desc: &'static str,
    pub points: Vec<(u16, u16)>,
    pub hotspot: (u16, u16),
    pub badge_left: bool,
    pub badge_y_ratio: u16,
    pub label_pos: (u16, u16),
    pub leader_start: (u16, u16),
    pub leader_end: (u16, u16),
}

/// An axis-aligned area from its corners (thousandths).
fn rect(x0: u16, y0: u16, x1: u16, y1: u16) -> (r: Vec<(u16, u16)>)
    ensures
        r@ == seq![(x0, y0), (x1, y0), (x1, y1), (x0, y1)],
{
    let mut v: Vec<(u16, u16)> = Vec::new();
    v.push((x0, y0));
    v.push((x1, y0));
    v.push((x1, y1));
    v.push((x0, y1));
    assert(v@ =~= seq![(x0, y0), (x1, y0), (x1, y1), (x0, y1)]);
    v
}

/// Every point of a zone lies in the drawing, and a zone has an area.
pub open spec fn zone_well_formed(z: ZoneSpec) -> bool {
    &&& z.points@.len() >= 3
    &&& forall|i: int| 0 <= i < z.points@.len() ==> (#[trigger] z.points@[i]).0 <= 1000 && z.points@[i].1 <= 1000
}

/// The keys of a list of zones.
pub open spec fn zone_keys(zones: Seq<ZoneSpec>) -> Seq<Seq<char>> {
    zones.map_values(|z: ZoneSpec| z.key@)
}

/// A zone as plain values.
pub struct ZoneView {
    pub key: Seq<char>,
    pub desc: Seq<char>,
    pub points: Seq<(u16, u16)>,
    pub hotspot: (u16, u16),
    pub badge_left: bool,
    pub badge_y_ratio: u16,
    pub label_pos: (u16, u16),
    pub leader_start: (u16, u16),
    pub leader_end: (u16, u16),
}

pub open spec fn zone_view(z: ZoneSpec) -> ZoneView {
    ZoneView {
        key: z.key@,
        desc: z.desc@,
        points: z.points@,
        hotspot: z.hotspot,
        badge_left: z.badge_left,
        badge_y_ratio: z.badge_y_ratio,
        label_pos: z.label_pos,
        leader_start: z.leader_start,
        leader_end: z.leader_end,
    }
}

pub open spec fn zone_views(zones: Seq<ZoneSpec>) -> Seq<ZoneView> {
    zones.map_values(|z: ZoneSpec| zone_view(z))
}

/// The corners of an axis-aligned area, clockwise from the first.
pub open spec fn rect_points(x0: u16, y0: u16, x1: u16, y1: u16) -> Seq<(u16, u16)> {
    seq![(x0, y0), (x1, y0), (x1, y1), (x0, y1)]
}

/// The zones of the top view: G8, G7, G10, G11, G9.
pub open spec fn spec_top_zones() -> Seq<ZoneView> {
    seq![
        ZoneView {
            key: "G8"@,
            desc: "DPI+"@,
            points: rect_points(240, 770, 350, 880),
            hotspot: (368, 693),
            badge_left: true,
            badge_y_ratio: 620,
            label_pos: (40, 860),
            leader_start: (240, 830),
            leader_end: (160, 860),
        },
        ZoneView {
            key: "G7"@,
            desc: "DPI-"@,
            points: rect_points(240, 630, 350, 740),
            hotspot: (367, 618),
            badge_left: true,
            badge_y_ratio: 300,
            label_pos: (40, 670),
            leader_start: (240, 680),
            leader_end: (160, 670),
        },
        ZoneView {
            key: "G10"@,
            desc: "滚轮左"@,
            points: rect_points(400, 720, 470, 870),
            hotspot: (502, 658),
            badge_left: true,
            badge_y_ratio: 880,
            label_pos: (120, 940),
            leader_start: (420, 820),
            leader_end: (240, 940),
        },
        ZoneView {
            key: "G11"@,
            desc: "滚轮右"@,
            points: rect_points(530, 720, 600, 870),
            hotspot: (568, 658),
            badge_left: false,
            badge_y_ratio: 880,
            label_pos: (780, 940),
            leader_start: (580, 820),
            leader_end: (760, 940),
        },
        ZoneView {
            key: "G9"@,
            desc: "⚡️电量"@,
            points: rect_points(440, 540, 560, 640),
            hotspot: (541, 481),
            badge_left: false,
            badge_y_ratio: 480,
            label_pos: (780, 600),
            leader_start: (560, 590),
            leader_end: (760, 600),
        },
    ]
}

/// The zones of the side view: G5, G4, G6.
pub open spec fn spec_side_zones() -> Seq<ZoneView> {
    seq![
        ZoneView {
            key: "G5"@,
            desc: "前进"@,
            points: rect_points(450, 540, 590, 670),
            hotspot: (444, 528),
            badge_left: true,
            badge_y_ratio: 780,
            label_pos: (500, 880),
            leader_start: (520, 670),
            leader_end: (540, 860),
        },
        ZoneView {
            key: "G4"@,
            desc: "后退"@,
            points: rect_points(300, 540, 440, 670),
            hotspot: (480, 394),
            badge_left: true,
            badge_y_ratio: 500,
            label_pos: (140, 760),
            leader_start: (360, 650),
            leader_end: (240, 760),
        },
        ZoneView {
            key: "G6"@,
            desc: "瞄准键"@,
            points: rect_points(570, 390, 700, 520),
            hotspot: (345, 577),
            badge_left: true,
            badge_y_ratio: 220,
            label_pos: (760, 660),
            leader_start: (660, 500),
            leader_end: (740, 660),
        },
    ]
}

/// The zones of the top view: G8, G7, G10, G11, G9.
pub fn top_key_zones() -> (r: Vec<ZoneSpec>)
    ensures
        zone_views(r@) == spec_top_zones(),
        zone_keys(r@) == seq!["G8"@, "G7"@, "G10"@, "G11"@, "G9"@],
        forall|i: int| 0 <= i < r@.len() ==> zone_well_formed(#[trigger] r@[i]),
{
    let mut v: Vec<ZoneSpec> = Vec::new();
    v.push(ZoneSpec { key: "G8", desc: "DPI+", points: rect(240, 770, 350, 880), hotspot: (368, 693), badge_left: true, badge_y_ratio: 620, label_pos: (40, 860), leader_start: (240, 830), leader_end: (160, 860) });
    v.push(ZoneSpec { key: "G7", desc: "DPI-", points: rect(240, 630, 350, 740), hotspot: (367, 618), badge_left: true, badge_y_ratio: 300, label_pos: (40, 670), leader_start: (240, 680), leader_end: (160, 670) });
    v.push(ZoneSpec { key: "G10", desc: "滚轮左", points: rect(400, 720, 470, 870), hotspot: (502, 658), badge_left: true, badge_y_ratio: 880, label_pos: (120, 940), leader_start: (420, 820), leader_end: (240, 940) });
    v.push(ZoneSpec { key: "G11", desc: "滚轮右", points: rect(530, 720, 600, 870), hotspot: (568, 658), badge_left: false, badge_y_ratio: 880, label_pos: (780, 940), leader_start: (580, 820), leader_end: (760, 940) });
    v.push(ZoneSpec { key: "G9", desc: "⚡️电量", points: rect(440, 540, 560, 640), hotspot: (541, 481), badge_left: false, badge_y_ratio: 480, label_pos: (780, 600), leader_start: (560, 590), leader_end: (760, 600) });
    assert(zone_views(v@) =~= spec_top_zones());
    assert(zone_keys(v@) =~= seq!["G8"@, "G7"@, "G10"@, "G11"@, "G9"@]);
    v
}

/// The zones of the side view: G5, G4, G6.
pub fn side_key_zones() -> (r: Vec<ZoneSpec>)
    ensures
        zone_views(r@) == spec_side_zones(),
        zone_keys(r@) == seq!["G5"@, "G4"@, "G6"@],
        forall|i: int| 0 <= i < r@.len() ==> zone_well_formed(#[trigger] r@[i]),
{
    let mut v: Vec<ZoneSpec> = Vec::new();
    v.push(ZoneSpec { key: "G5", desc: "前进", points: rect(450, 540, 590, 670), hotspot: (444, 528), badge_left: true, badge_y_ratio: 780, label_pos: (500, 880), leader_start: (520, 670), leader_end: (540, 860) });
    v.push(ZoneSpec { key: "G4", desc: "后退", points: rect(300, 540, 440, 670), hotspot: (480, 394), badge_left: true, badge_y_ratio: 500, label_pos: (140, 760), leader_start: (360, 650), leader_end: (240, 760) });
    v.push(ZoneSpec { key: "G6", desc: "瞄准键", points: rect(570, 390, 700, 520), hotspot: (345, 577), badge_left: true, badge_y_ratio: 220, label_pos: (760, 660), leader_start: (660, 500), leader_end: (740, 660) });
    assert(zone_views(v@) =~= spec_side_zones());
    assert(zone_keys(v@) =~= seq!["G5"@, "G4"@, "G6"@]);
    v
}

/// No key has two zones in a view.
pub proof fn lemma_zone_keys_distinct()
    ensures
        seq!["G8"@, "G7"@, "G10"@, "G11"@, "G9"@].no_duplicates(),
        seq!["G5"@, "G4"@, "G6"@].no_duplicates(),
{
    reveal_strlit("G8");
    reveal_strlit("G7");
    reveal_strlit("G10");
    reveal_strlit("G11");
    reveal_strlit("G9");
    reveal_strlit("G5");
    reveal_strlit("G4");
    reveal_strlit("G6");
    let top = seq!["G8"@, "G7"@, "G10"@, "G11"@, "G9"@];
    let side = seq!["G5"@, "G4"@, "G6"@];
    assert("G8"@[1] != "G7"@[1] && "G8"@[1] != "G9"@[1] && "G7"@[1] != "G9"@[1]);
    assert("G10"@[2] != "G11"@[2]);
    assert("G8"@.len() != "G10"@.len() && "G8"@.len() != "G11"@.len());
    assert("G7"@.len() != "G10"@.len() && "G9"@.len() != "G11"@.len());
    assert("G5"@[1] != "G4"@[1] && "G5"@[1] != "G6"@[1] && "G4"@[1] != "G6"@[1]);
    assert forall|i: int, j: int| 0 <= i < top.len() && 0 <= j < top.len() && i != j implies top[i] != top[j] by {
        assert("G10"@.len() != "G9"@.len() && "G11"@.len() != "G7"@.len());
    }
    assert forall|i: int, j: int| 0 <= i < side.len() && 0 <= j < side.len() && i != j implies side[i] != side[j] by {
    }
}

/// Whether the edge from `a` to `b` crosses the horizontal ray going right from `p`
/// (the even-odd rule): the edge straddles the ray's height and meets it to the
/// right of `p`. Coordinates are thousandths of the drawing.
pub open spec fn spec_edge_crosses(p: (u16, u16), a: (u16, u16), b: (u16, u16)) -> bool {
    let px = p.0 as int;
    let py = p.1 as int;
    let xi = a.0 as int;
    let yi = a.1 as int;
    let xj = b.0 as int;
    let yj = b.1 as int;
    ((yi > py) != (yj > py)) && if yj > yi {
        (px - xi) * (yj - yi) < (xj - xi) * (py - yi)
    } else {
        (px - xi) * (yj - yi) > (xj - xi) * (py - yi)
    }
}

/// The point before point `i` of a polygon, going round.
pub open spec fn prev_index(n: int, i: int) -> int {
    if i == 0 {
        n - 1
    } else {
        i - 1
    }
}

/// How many of the first `k` edges of a polygon cross the ray from `p`; edge `i`
/// joins point `i` to the point before it.
pub open spec fn spec_crossings(poly: Seq<(u16, u16)>, p: (u16, u16), k: int) -> nat
    decreases k,
{
    if k <= 0 {
        0
    } else {
        spec_crossings(poly, p, k - 1) + if spec_edge_crosses(
            p,
            poly[k - 1],
            poly[prev_index(poly.len() as int, k - 1)],
        ) {
            1nat
        } else {
            0nat
        }
    }
}

/// Whether `p` lies inside a polygon of at least three points: the ray from it
/// crosses the edges an odd number of times.
pub open spec fn spec_in_polygon(poly: Seq<(u16, u16)>, p: (u16, u16)) -> bool {
    poly.len() >= 3 && spec_crossings(poly, p, poly.len() as int) % 2 == 1
}

fn edge_crosses(p: (u16, u16), a: (u16, u16), b: (u16, u16)) -> (r: bool)
    ensures
        r == spec_edge_crosses(p, a, b),
{
    let px = p.0 as i64;
    let py = p.1 as i64;
    let xi = a.0 as i64;
    let yi = a.1 as i64;
    let xj = b.0 as i64;
    let yj = b.1 as i64;
    if (yi > py) == (yj > py) {
        return false;
    }
    let dx = px - xi;
    let dy = yj - yi;
    let ex = xj - xi;
    let ey = py - yi;
    assert(-4294836225 <= dx * dy <= 4294836225) by (nonlinear_arith)
        requires
            -65535 <= dx <= 65535,
            -65535 <= dy <= 65535,
    ;
    assert(-4294836225 <= ex * ey <= 4294836225) by (nonlinear_arith)
        requires
            -65535 <= ex <= 65535,
            -65535 <= ey <= 65535,
    ;
    let lhs = dx * dy;
    let rhs = ex * ey;
    if yj > yi {
        lhs < rhs
    } else {
        lhs > rhs
    }
}

/// Whether a point (thousandths) lies inside a polygon, by the even-odd rule.
pub fn point_in_polygon(px: u16, py: u16, poly: &Vec<(u16, u16)>) -> (r: bool)
    ensures
        r == spec_in_polygon(poly@, (px, py)),
{
    let n = poly.len();
    if n < 3 {
        return false;
    }
    let mut inside = false;
    let mut i: usize = 0;
    while i < n
        invariant
            n == poly@.len(),
            n >= 3,
            i <= n,
            inside == (spec_crossings(poly@, (px, py), i as int) % 2 == 1),
        decreases n - i,
    {
        let j: usize = if i == 0 { n - 1 } else { i - 1 };
        if edge_crosses((px, py), poly[i], poly[j]) {
            inside = !inside;
        }
        i = i + 1;
    }
    inside
}

/// The key of the first zone that holds a point, if any.
pub open spec fn spec_first_hit(zones: Seq<ZoneView>, p: (u16, u16)) -> Option<Seq<char>>
    decreases zones.len(),
{
    if zones.len() == 0 {
        None
    } else if spec_in_polygon(zones[0].points, p) {
        Some(zones[0].key)
    } else {
        spec_first_hit(zones.drop_first(), p)
    }
}

/// The zones of a view.
pub open spec fn spec_view_zones(mode: CanvasMode) -> Seq<ZoneView> {
    match mode {
        CanvasMode::Top => spec_top_zones(),
        CanvasMode::Side => spec_side_zones(),
    }
}

/// The key whose zone holds a point of the drawing (thousandths), the first in the
/// view's order when zones overlap.
pub fn hit_test_key(mode: CanvasMode, nx: u16, ny: u16) -> (r: Option<&'static str>)
    ensures
        opt_str_view(r) == spec_first_hit(spec_view_zones(mode), (nx, ny)),
{
    let zones = match mode {
        CanvasMode::Top => top_key_zones(),
        CanvasMode::Side => side_key_zones(),
    };
    let ghost views = zone_views(zones@);
    let ghost p = (nx, ny);
    let mut i: usize = 0;
    assert(views.skip(0) =~= views);
    while i < zones.len()
        invariant
            i <= zones@.len(),
            views == zone_views(zones@),
            views == spec_view_zones(mode),
            p == (nx, ny),
            spec_first_hit(views, p) == spec_first_hit(views.skip(i as int), p),
        decreases zones@.len() - i,
    {
        assert(views.len() == zones@.len());
        assert(views.skip(i as int).len() > 0);
        assert(views.skip(i as int)[0] == zone_view(zones@[i as int]));
        let hit = point_in_polygon(nx, ny, &zones[i].points);
        if hit {
            return Some(zones[i].key);
        }
        assert(views.skip(i as int).drop_first() =~= views.skip(i + 1));
        i = i + 1;
    }
    None
}

/// The macro tab's status line, whether it is a call to act, and the engine
/// button's title. A button is named by its number.
pub open spec fn spec_panel_macro_status(running: bool, phase: RecordingPhase) -> (Seq<char>, bool, Seq<char>) {
    let title = if running { "● 宏引擎已开启"@ } else { "○ 宏引擎已停用"@ };
    match phase {
        RecordingPhase::Idle => (
            if running { "● 宏引擎就绪 (支持组合键与指定文字)"@ } else { "○ 宏引擎已停用 (点击开启以启用按键拦截)"@ },
            false,
            title,
        ),
        RecordingPhase::AwaitMouse(RecordingKind::Shortcut) => ("👉 请按目标侧键 (G4..G11)..."@, true, title),
        RecordingPhase::AwaitMouse(RecordingKind::Sequence) => ("👉 请按目标侧键开始录制序列..."@, true, title),
        RecordingPhase::Shortcut { button } => (
            "⌨️ 正在录制 button"@ + dec_digits(button as nat) + ": 请按一次键盘快捷键..."@,
            true,
            title,
        ),
        RecordingPhase::Sequence { button, events } => (
            "🔴 录制中 button"@ + dec_digits(button as nat) + ": 已捕获 "@ + dec_digits(events as nat)
                + " 个按键事件"@,
            true,
            title,
        ),
    }
}

pub fn panel_macro_status(running: bool, phase: RecordingPhase) -> (r: (String, bool, &'static str))
    ensures
        r.0@ == spec_panel_macro_status(running, phase).0,
        r.1 == spec_panel_macro_status(running, phase).1,
        r.2@ == spec_panel_macro_status(running, phase).2,
{
    let title = if running { "● 宏引擎已开启" } else { "○ 宏引擎已停用" };
    match phase {
        RecordingPhase::Idle => (
            String::from_str(if running { "● 宏引擎就绪 (支持组合键与指定文字)" } else { "○ 宏引擎已停用 (点击开启以启用按键拦截)" }),
            false,
            title,
        ),
        RecordingPhase::AwaitMouse(RecordingKind::Shortcut) => (String::from_str("👉 请按目标侧键 (G4..G11)..."), true, title),
        RecordingPhase::AwaitMouse(RecordingKind::Sequence) => (String::from_str("👉 请按目标侧键开始录制序列..."), true, title),
        RecordingPhase::Shortcut { button } => {
            let mut s = String::from_str("⌨️ 正在录制 button");
            let d = decimal(button as u64);
            s.append(d.as_str());
            s.append(": 请按一次键盘快捷键...");
            (s, true, title)
        },
        RecordingPhase::Sequence { button, events } => {
            let mut s = String::from_str("🔴 录制中 button");
            let d = decimal(button as u64);
            s.append(d.as_str());
            s.append(": 已捕获 ");
            let e = decimal(events as u64);
            s.append(e.as_str());
            s.append(" 个按键事件");
            (s, true, title)
        },
    }
}

} // verus!
