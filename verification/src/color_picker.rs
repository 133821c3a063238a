//! The system colour picker: the script that opens it on a zone's colour, the
//! reading of its reply, and the lighting that a picked colour gives.
use crate::cli::{rgb_hex, spec_rgb_hex};
use crate::config::{LedSpec, LedSpecView};
use crate::features::led::{spec_zone_key, spec_zone_label, zone_key, zone_label};
use crate::macro_keys::{spec_split, split_char};
use crate::menu::{spec_strip_prefixes, strip_prefixes};
use crate::named_map::NamedMap;
use crate::text::{dec_digits, decimal, parse_u16, spec_parse_u16, spec_trim, string_views, trim};
use vstd::prelude::*;

verus! {

/// A byte channel on the picker's 16-bit scale.
pub open spec fn wide(c: u8) -> nat {
    c as nat * 257
}

/// The AppleScript that opens the picker on a colour.
pub open spec fn spec_picker_script(rgb: Seq<u8>) -> Seq<char> {
    "choose color default color {"@ + dec_digits(wide(rgb[0])) + ", "@ + dec_digits(wide(rgb[1]))
        + ", "@ + dec_digits(wide(rgb[2])) + "}"@
}

pub fn picker_script(rgb: [u8; 3]) -> (r: String)
    ensures
        r@ == spec_picker_script(rgb@),
{
    let mut s = String::from_str("choose color default color {");
    let a = decimal(rgb[0] as u64 * 257);
    s.append(a.as_str());
    s.append(", ");
    let b = decimal(rgb[1] as u64 * 257);
    s.append(b.as_str());
    s.append(", ");
    let c = decimal(rgb[2] as u64 * 257);
    s.append(c.as_str());
    s.append("}");
    s
}

/// The colour the picker opens on: the zone's saved colour, else white.
pub fn picker_start_rgb(zones: &NamedMap<LedSpec>, zone: u8) -> (r: [u8; 3])
    ensures
        r@ == if zones.view().contains_key(spec_zone_key(zone)) {
            zones.view()[spec_zone_key(zone)].rgb@
        } else {
            seq![255u8, 255u8, 255u8]
        },
{
    match zones.get(zone_key(zone)) {
        Some(s) => s.rgb,
        None => {
            let r = [255u8, 255u8, 255u8];
            assert(r@ =~= seq![255u8, 255u8, 255u8]);
            r
        },
    }
}

/// `s` without every trailing `c`, as `trim_end_matches` does.
pub open spec fn spec_strip_suffix_char(s: Seq<char>, c: char) -> Seq<char>
    decreases s.len(),
{
    if s.len() > 0 && s.last() == c {
        spec_strip_suffix_char(s.drop_last(), c)
    } else {
        s
    }
}

fn strip_suffix_char(s: &str, c: char) -> (r: String)
    ensures
        r@ == spec_strip_suffix_char(s@, c),
{
    let mut rest = String::from_str(s);
    loop
        invariant
            spec_strip_suffix_char(rest@, c) == spec_strip_suffix_char(s@, c),
        ensures
            rest@ == spec_strip_suffix_char(s@, c),
        decreases rest@.len(),
    {
        let n = rest.as_str().unicode_len();
        if n == 0 || rest.as_str().get_char(n - 1) != c {
            return rest;
        }
        let head = String::from_str(rest.as_str().substring_char(0, n - 1));
        assert(head@ =~= rest@.drop_last());
        rest = head;
    }
}

/// The numbers among comma-separated parts, each read after trimming; the parts
/// that are not numbers are skipped.
pub open spec fn spec_channels(parts: Seq<Seq<char>>) -> Seq<u16>
    decreases parts.len(),
{
    if parts.len() == 0 {
        Seq::empty()
    } else {
        let rest = spec_channels(parts.drop_last());
        match spec_parse_u16(spec_trim(parts.last())) {
            Some(v) => rest.push(v),
            None => rest,
        }
    }
}

/// The colour in the picker's reply `{r, g, b}` (16-bit channels), when it names
/// exactly three numbers.
pub open spec fn spec_picked_color(text: Seq<char>) -> Option<Seq<u8>> {
    let body = spec_strip_suffix_char(spec_strip_prefixes(spec_trim(text), seq!['{']), '}');
    let nums = spec_channels(spec_split(body, ','));
    if nums.len() == 3 {
        Some(seq![(nums[0] / 257) as u8, (nums[1] / 257) as u8, (nums[2] / 257) as u8])
    } else {
        None
    }
}

/// Reads the picker's reply.
pub fn parse_picked_color(text: &str) -> (r: Option<[u8; 3]>)
    ensures
        match r {
            Some(a) => spec_picked_color(text@) == Some(a@),
            None => spec_picked_color(text@) is None,
        },
{
    let trimmed = trim(text);
    let opened = strip_prefixes(trimmed, "{");
    proof {
        reveal_strlit("{");
        assert("{"@ =~= seq!['{']);
    }
    let body = strip_suffix_char(opened.as_str(), '}');
    let parts = split_char(body.as_str(), ',');
    let ghost views = string_views(parts@);
    let mut nums: Vec<u16> = Vec::new();
    let mut i: usize = 0;
    while i < parts.len()
        invariant
            i <= parts@.len(),
            views == string_views(parts@),
            views.len() == parts@.len(),
            nums@ == spec_channels(views.take(i as int)),
        decreases parts@.len() - i,
    {
        let p = trim(parts[i].as_str());
        proof {
            assert(views.take(i + 1).drop_last() =~= views.take(i as int));
            assert(views[i as int] == parts@[i as int]@);
        }
        match parse_u16(p) {
            Some(v) => nums.push(v),
            None => {},
        }
        i += 1;
    }
    assert(views.take(parts@.len() as int) =~= views);
    if nums.len() != 3 {
        return None;
    }
    let a = [(nums[0] / 257) as u8, (nums[1] / 257) as u8, (nums[2] / 257) as u8];
    assert(a@ =~= seq![(nums@[0] / 257) as u8, (nums@[1] / 257) as u8, (nums@[2] / 257) as u8]);
    Some(a)
}

/// The lighting after a colour was picked for an effect: the zone's saved lighting
/// (else the effect at full brightness and medium rate), switched on with the
/// effect and the colour.
pub fn picked_spec(zones: &NamedMap<LedSpec>, zone: u8, effect: &str, rgb: [u8; 3]) -> (r: LedSpec)
    ensures
        ({
            let key = spec_zone_key(zone);
            let (brightness, rate) = if zones.view().contains_key(key) {
                (zones.view()[key].brightness, zones.view()[key]@.rate)
            } else {
                (100u8, Some("medium"@))
            };
            r@ == LedSpecView { off: false, effect: effect@, rgb: rgb@, brightness, rate }
        }),
{
    let mut spec = match zones.get(zone_key(zone)) {
        Some(s) => s.duplicate(),
        None => LedSpec::new(effect, rgb, 100, Some("medium")),
    };
    spec.effect = String::from_str(effect);
    spec.rgb = rgb;
    spec.turn_on();
    spec
}

/// The notice after a picked colour was written.
pub fn picked_text(zone: u8, spec: &LedSpec) -> (r: String)
    ensures
        r@ == spec_zone_label(zone) + " 灯效已更新: "@ + spec.effect@ + " "@ + spec_rgb_hex(spec.rgb@)
            + " 亮度"@ + dec_digits(spec.brightness as nat) + "%"@,
{
    let mut s = String::from_str(zone_label(zone));
    s.append(" 灯效已更新: ");
    s.append(spec.effect.as_str());
    s.append(" ");
    let h = rgb_hex(spec.rgb);
    s.append(h.as_str());
    s.append(" 亮度");
    let b = decimal(spec.brightness as u64);
    s.append(b.as_str());
    s.append("%");
    s
}

} // verus!
