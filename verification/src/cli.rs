//! The command line's logic: reading its arguments, changing the configuration,
//! and the lines it prints.
use crate::config::{Config, DesiredMode, LedSpec, LedSpecView, MacroBinding, Profile};
use crate::features::battery::BatteryInfo;
use crate::features::led::{
    opt_str_view, rate_period_ms, spec_rate_error, spec_rate_period, spec_zone_from_key,
    spec_zone_label, zone_from_key, zone_label, ZONE_LOGO, ZONE_PRIMARY,
};
use crate::features::onboard::OnboardMode;
use crate::hidpp::{spec_error_text, HidppError};
use crate::menu::hex_val;
use crate::text::{dec_digits, decimal, hex_digits, hex_digits_exec, seq_join, str_is};
use vstd::prelude::*;
use vstd::string::StringSliceAdditionalSpecFns;

verus! {

/// The zones a `--zone` argument names: `all` is both, else one zone key.
pub open spec fn spec_led_zones_arg(zone: Seq<char>) -> Option<Seq<u8>> {
    if zone == "all"@ {
        Some(seq![ZONE_PRIMARY, ZONE_LOGO])
    } else {
        match spec_zone_from_key(zone) {
            Some(z) => Some(seq![z]),
            None => None,
        }
    }
}

/// Reads the `--zone` argument; an unknown zone is refused.
pub fn led_zones_arg(zone: &str) -> (r: Result<Vec<u8>, String>)
    ensures
        match spec_led_zones_arg(zone@) {
            Some(z) => r matches Ok(v) && v@ == z,
            None => r matches Err(m) && m@ == "未知分区: "@ + zone@ + " (primary/logo/all)"@,
        },
{
    let mut v: Vec<u8> = Vec::new();
    if str_is(zone, "all") {
        v.push(ZONE_PRIMARY);
        v.push(ZONE_LOGO);
        assert(v@ =~= seq![ZONE_PRIMARY, ZONE_LOGO]);
        return Ok(v);
    }
    match zone_from_key(zone) {
        Some(z) => {
            v.push(z);
            assert(v@ =~= seq![z]);
            Ok(v)
        },
        None => {
            let mut m = String::from_str("未知分区: ");
            m.append(zone);
            m.append(" (primary/logo/all)");
            Err(m)
        },
    }
}

/// A two-byte hexadecimal number as `u8::from_str_radix(_, 16)` reads it: an
/// optional `+`, then hexadecimal digits.
pub open spec fn spec_hex_byte(a: u8, b: u8) -> Option<u8> {
    if a == 43 {
        hex_val(b)
    } else {
        match (hex_val(a), hex_val(b)) {
            (Some(x), Some(y)) => Some((x * 16 + y) as u8),
            _ => None,
        }
    }
}

fn hex_byte(a: u8, b: u8) -> (r: Option<u8>)
    ensures
        r == spec_hex_byte(a, b),
{
    let va = if 48 <= a && a <= 57 {
        Some(a - 48)
    } else if 97 <= a && a <= 102 {
        Some(a - 87)
    } else if 65 <= a && a <= 70 {
        Some(a - 55)
    } else {
        None
    };
    let vb = if 48 <= b && b <= 57 {
        Some(b - 48)
    } else if 97 <= b && b <= 102 {
        Some(b - 87)
    } else if 65 <= b && b <= 70 {
        Some(b - 55)
    } else {
        None
    };
    if a == 43 {
        vb
    } else {
        match (va, vb) {
            (Some(x), Some(y)) => Some(x * 16 + y),
            _ => None,
        }
    }
}

/// The colour of a `--color RRGGBB` argument: six bytes read as three hexadecimal
/// pairs.
pub open spec fn spec_color_arg(bytes: Seq<u8>) -> Option<Seq<u8>> {
    if bytes.len() != 6 {
        None
    } else {
        match (
            spec_hex_byte(bytes[0], bytes[1]),
            spec_hex_byte(bytes[2], bytes[3]),
            spec_hex_byte(bytes[4], bytes[5]),
        ) {
            (Some(r), Some(g), Some(b)) => Some(seq![r, g, b]),
            _ => None,
        }
    }
}

/// Reads the `--color` argument. A text of another byte length is refused; a pair
/// that is not hexadecimal fails as the number parser does.
pub fn color_arg(color: Option<&str>) -> (r: Result<Option<[u8; 3]>, String>)
    requires
        match color {
            Some(c) => crate::menu::hex_cuttable(c.spec_bytes()),
            None => true,
        },
    ensures
        match color {
            None => r matches Ok(None),
            Some(c) => if c.spec_bytes().len() != 6 {
                r matches Err(m) && m@ == "颜色必须是 6 位十六进制 RRGGBB"@
            } else {
                match spec_color_arg(c.spec_bytes()) {
                    Some(rgb) => r matches Ok(Some(a)) && a@ == rgb,
                    None => r matches Err(m) && m@ == "invalid digit found in string"@,
                }
            },
        },
{
    let c = match color {
        None => return Ok(None),
        Some(c) => c,
    };
    let b = c.as_bytes();
    if b.len() != 6 {
        return Err(String::from_str("颜色必须是 6 位十六进制 RRGGBB"));
    }
    match (hex_byte(b[0], b[1]), hex_byte(b[2], b[3]), hex_byte(b[4], b[5])) {
        (Some(r), Some(g), Some(bl)) => {
            let a = [r, g, bl];
            assert(a@ =~= seq![r, g, bl]);
            Ok(Some(a))
        },
        _ => Err(String::from_str("invalid digit found in string")),
    }
}

/// The lighting `led set` writes to a zone: `--off` switches it off and keeps the
/// rest; otherwise the zone is switched on with the effect, the colour (when
/// given), the brightness, and the rate (when given, once it is accepted).
pub fn cli_led_spec(
    base: LedSpec,
    off: bool,
    effect: &str,
    rgb: Option<[u8; 3]>,
    brightness: u8,
    rate: Option<&str>,
) -> (r: Result<LedSpec, HidppError>)
    ensures
        off ==> (r matches Ok(s) && s@ == LedSpecView { off: true, ..base@ }),
        !off && rate is None ==> (r matches Ok(s) && s@ == LedSpecView {
            off: false,
            effect: effect@,
            rgb: match rgb {
                Some(c) => c@,
                None => base@.rgb,
            },
            brightness,
            rate: base@.rate,
        }),
        !off && rate is Some ==> match spec_rate_period(opt_str_view(rate)) {
            Some(_) => r matches Ok(s) && s@ == LedSpecView {
                off: false,
                effect: effect@,
                rgb: match rgb {
                    Some(c) => c@,
                    None => base@.rgb,
                },
                brightness,
                rate: opt_str_view(rate),
            },
            None => r matches Err(HidppError::Invalid(m)) && m@ == spec_rate_error(rate->0@),
        },
{
    let mut spec = base;
    if off {
        spec.off = true;
        return Ok(spec);
    }
    spec.off = false;
    spec.effect = String::from_str(effect);
    if let Some(c) = rgb {
        spec.rgb = c;
    }
    spec.brightness = brightness;
    if let Some(value) = rate {
        match rate_period_ms(Some(value)) {
            Ok(_) => {},
            Err(e) => return Err(e),
        }
        spec.rate = Some(String::from_str(value));
    }
    Ok(spec)
}

/// `#RRGGBB` in lowercase.
pub open spec fn spec_rgb_hex(rgb: Seq<u8>) -> Seq<char> {
    "#"@ + hex_digits(rgb[0] as nat, 2) + hex_digits(rgb[1] as nat, 2) + hex_digits(
        rgb[2] as nat,
        2,
    )
}

pub fn rgb_hex(rgb: [u8; 3]) -> (r: String)
    ensures
        r@ == spec_rgb_hex(rgb@),
{
    let mut s = String::from_str("#");
    let a = hex_digits_exec(rgb[0] as u64, 2);
    s.append(a.as_str());
    let b = hex_digits_exec(rgb[1] as u64, 2);
    s.append(b.as_str());
    let c = hex_digits_exec(rgb[2] as u64, 2);
    s.append(c.as_str());
    s
}

/// The line `led set` prints for a zone it wrote.
pub fn cli_led_line(zone: u8, spec: &LedSpec) -> (r: Result<String, HidppError>)
    ensures
        spec.off ==> (r matches Ok(s) && s@ == spec_zone_label(zone) + " 灯效 → 关闭"@),
        !spec.off ==> match spec_rate_period(crate::controller::opt_string_view(spec.rate)) {
            Some(p) => r matches Ok(s) && s@ == spec_zone_label(zone) + " 灯效 → "@ + spec.effect@
                + " "@ + spec_rgb_hex(spec.rgb@) + " 亮度"@ + dec_digits(spec.brightness as nat)
                + "% 速率"@ + if p == 0 {
                "默认"@
            } else {
                dec_digits(p as nat) + "ms"@
            },
            None => r is Err,
        },
{
    let mut s = String::from_str(zone_label(zone));
    if spec.off {
        s.append(" 灯效 → 关闭");
        return Ok(s);
    }
    let rate: Option<&str> = match &spec.rate {
        Some(t) => Some(t.as_str()),
        None => None,
    };
    assert(opt_str_view(rate) == crate::controller::opt_string_view(spec.rate));
    let period = match rate_period_ms(rate) {
        Ok(p) => p,
        Err(e) => return Err(e),
    };
    s.append(" 灯效 → ");
    s.append(spec.effect.as_str());
    s.append(" ");
    let h = rgb_hex(spec.rgb);
    s.append(h.as_str());
    s.append(" 亮度");
    let b = decimal(spec.brightness as u64);
    s.append(b.as_str());
    s.append("% 速率");
    if period == 0 {
        s.append("默认");
    } else {
        let d = decimal(period as u64);
        s.append(d.as_str());
        s.append("ms");
    }
    Ok(s)
}

/// The period `led get` reports for a zone: 0 when off or when the rate is not
/// accepted.
pub fn reported_period(spec: &LedSpec) -> (r: u16)
    ensures
        r == if spec.off {
            0
        } else {
            match spec_rate_period(crate::controller::opt_string_view(spec.rate)) {
                Some(p) => p,
                None => 0,
            }
        },
{
    let rate: Option<&str> = match &spec.rate {
        Some(t) => Some(t.as_str()),
        None => None,
    };
    assert(opt_str_view(rate) == crate::controller::opt_string_view(spec.rate));
    let period = match rate_period_ms(rate) {
        Ok(p) => p,
        Err(_) => 0,
    };
    if spec.off {
        0
    } else {
        period
    }
}

/// Whether a sequence of levels never goes down.
pub open spec fn nondecreasing(s: Seq<u16>) -> bool {
    forall|i: int, j: int| 0 <= i < j < s.len() ==> s[i] <= s[j]
}

/// The decimal texts of some levels.
pub open spec fn level_texts(s: Seq<u16>) -> Seq<Seq<char>> {
    s.map_values(|v: u16| dec_digits(v as nat))
}

proof fn lemma_texts_push(parts: Seq<String>, d: String, levels: Seq<u16>, i: int)
    requires
        0 <= i < levels.len(),
        crate::text::string_views(parts) == level_texts(levels.take(i)),
        d@ == dec_digits(levels[i] as nat),
    ensures
        crate::text::string_views(parts.push(d)) == level_texts(levels.take(i + 1)),
{
    assert(levels.take(i + 1) =~= levels.take(i).push(levels[i]));
    assert(crate::text::string_views(parts.push(d)) =~= crate::text::string_views(parts).push(d@));
    assert(level_texts(levels.take(i).push(levels[i])) =~= level_texts(levels.take(i)).push(
        dec_digits(levels[i] as nat),
    ));
}

/// How `status` describes the DPI levels a device offers: up to twelve are listed
/// with `/`; more are given as a range with its step when the step is constant,
/// else as a count.
pub open spec fn spec_levels_desc(s: Seq<u16>) -> Seq<char> {
    if s.len() > 12 {
        if forall|i: int| 0 <= i < s.len() - 1 ==> #[trigger] s[i + 1] - s[i] == s[1] - s[0] {
            dec_digits(s[0] as nat) + "~"@ + dec_digits(s.last() as nat) + "(步进"@ + dec_digits(
                (s[1] - s[0]) as nat,
            ) + ")"@
        } else {
            dec_digits(s.len()) + " 档"@
        }
    } else {
        seq_join(level_texts(s), "/"@)
    }
}

pub fn levels_desc(levels: &[u16]) -> (r: String)
    requires
        levels@.len() > 12 ==> nondecreasing(levels@),
    ensures
        r@ == spec_levels_desc(levels@),
{
    let n = levels.len();
    if n > 12 {
        let step = levels[1] - levels[0];
        let mut constant = true;
        let mut i: usize = 0;
        while i + 1 < n
            invariant
                n == levels@.len(),
                n > 12,
                nondecreasing(levels@),
                step == levels@[1] - levels@[0],
                i + 1 <= n,
                constant == forall|k: int| 0 <= k < i ==> #[trigger] levels@[k + 1] - levels@[k] == step,
            decreases n - i,
        {
            assert(levels@[i as int] <= levels@[i + 1]);
            if levels[i + 1] - levels[i] != step {
                constant = false;
            }
            i += 1;
        }
        if constant {
            let mut s = decimal(levels[0] as u64);
            s.append("~");
            let l = decimal(levels[n - 1] as u64);
            s.append(l.as_str());
            s.append("(步进");
            let d = decimal(step as u64);
            s.append(d.as_str());
            s.append(")");
            s
        } else {
            let mut s = decimal(n as u64);
            s.append(" 档");
            s
        }
    } else {
        let mut parts: Vec<String> = Vec::new();
        let mut i: usize = 0;
        while i < n
            invariant
                n == levels@.len(),
                i <= n,
                crate::text::string_views(parts@) == level_texts(levels@.take(i as int)),
            decreases n - i,
        {
            let d = decimal(levels[i] as u64);
            proof {
                lemma_texts_push(parts@, d, levels@, i as int);
            }
            parts.push(d);
            i += 1;
        }
        assert(levels@.take(n as int) =~= levels@);
        crate::text::join(&parts, "/")
    }
}

/// Whether a sequence of levels is sorted.
pub open spec fn sorted_levels(s: Seq<u16>) -> bool {
    forall|i: int, j: int| 0 <= i < j < s.len() ==> s[i] <= s[j]
}

/// Sorts DPI levels.
pub fn sort_levels(v: &Vec<u16>) -> (r: Vec<u16>)
    ensures
        sorted_levels(r@),
        r@.to_multiset() == v@.to_multiset(),
{
    broadcast use vstd::seq_lib::group_to_multiset_ensures;

    let mut r: Vec<u16> = Vec::new();
    let mut i: usize = 0;
    while i < v.len()
        invariant
            i <= v@.len(),
            sorted_levels(r@),
            r@.to_multiset() == v@.take(i as int).to_multiset(),
        decreases v@.len() - i,
    {
        let x = v[i];
        let mut pos: usize = 0;
        while pos < r.len() && r[pos] <= x
            invariant
                pos <= r@.len(),
                forall|k: int| 0 <= k < pos ==> r@[k] <= x,
            decreases r@.len() - pos,
        {
            pos += 1;
        }
        let ghost before = r@;
        r.insert(pos, x);
        proof {
            before.insert_ensures(pos as int, x);
            assert(v@.take(i + 1) =~= v@.take(i as int).push(x));
            assert(r@ == before.insert(pos as int, x));
            vstd::seq_lib::to_multiset_insert(before, pos as int, x);
            vstd::seq_lib::to_multiset_build(v@.take(i as int), x);
            assert forall|a: int, b: int| 0 <= a < b < r@.len() implies r@[a] <= r@[b] by {
                if b < pos {
                    assert(r@[a] == before[a] && r@[b] == before[b]);
                } else if b == pos {
                    assert(r@[a] == before[a]);
                } else if a < pos {
                    assert(r@[a] == before[a] && r@[b] == before[b - 1]);
                    if pos < before.len() {
                        assert(before[pos as int] > x);
                        assert(before[pos as int] <= before[b - 1]);
                    }
                } else if a == pos {
                    assert(r@[b] == before[b - 1]);
                    assert(before[pos as int] > x);
                    assert(before[pos as int] <= before[b - 1]);
                } else {
                    assert(r@[a] == before[a - 1] && r@[b] == before[b - 1]);
                }
            }
        }
        i += 1;
    }
    assert(v@.take(v@.len() as int) =~= v@);
    r
}

/// `dpi set --save`: a confirmed DPI joins the configured levels, which stay
/// sorted; a level already there is not added twice.
pub fn add_dpi_level(levels: &Vec<u16>, dpi: u16) -> (r: Vec<u16>)
    ensures
        levels@.contains(dpi) ==> r@ == levels@,
        !levels@.contains(dpi) ==> sorted_levels(r@) && r@.to_multiset() == levels@.push(
            dpi,
        ).to_multiset(),
{
    let mut i: usize = 0;
    while i < levels.len()
        invariant
            i <= levels@.len(),
            forall|k: int| 0 <= k < i ==> levels@[k] != dpi,
        decreases levels@.len() - i,
    {
        if levels[i] == dpi {
            let mut same: Vec<u16> = Vec::new();
            let mut j: usize = 0;
            while j < levels.len()
                invariant
                    j <= levels@.len(),
                    same@ == levels@.take(j as int),
                decreases levels@.len() - j,
            {
                same.push(levels[j]);
                j += 1;
                assert(same@ =~= levels@.take(j as int));
            }
            assert(levels@.take(levels@.len() as int) =~= levels@);
            return same;
        }
        i += 1;
    }
    let mut grown: Vec<u16> = Vec::new();
    let mut j: usize = 0;
    while j < levels.len()
        invariant
            j <= levels@.len(),
            grown@ == levels@.take(j as int),
        decreases levels@.len() - j,
    {
        grown.push(levels[j]);
        j += 1;
        assert(grown@ =~= levels@.take(j as int));
    }
    assert(levels@.take(levels@.len() as int) =~= levels@);
    grown.push(dpi);
    sort_levels(&grown)
}

/// Sorted levels with the same elements are the same levels: the result of
/// `add_dpi_level` is the one sorted arrangement of the old levels and the new one.
pub proof fn lemma_sorted_permutation_unique(a: Seq<u16>, b: Seq<u16>)
    requires
        sorted_levels(a),
        sorted_levels(b),
        a.to_multiset() == b.to_multiset(),
    ensures
        a == b,
    decreases a.len(),
{
    broadcast use vstd::seq_lib::group_to_multiset_ensures;

    assert(a.to_multiset().len() == a.len());
    assert(b.to_multiset().len() == b.len());
    if a.len() > 0 {
        let x = a.last();
        let y = b.last();
        assert(a.contains(x)) by {
            assert(a[a.len() - 1] == x);
        }
        assert(b.contains(y)) by {
            assert(b[b.len() - 1] == y);
        }
        assert(a.to_multiset().count(x) > 0);
        assert(b.to_multiset().count(y) > 0);
        assert(b.to_multiset().count(x) > 0);
        assert(a.to_multiset().count(y) > 0);
        assert(b.contains(x));
        assert(a.contains(y));
        let i = choose|i: int| 0 <= i < b.len() && b[i] == x;
        let j = choose|j: int| 0 <= j < a.len() && a[j] == y;
        assert(x <= y);
        assert(y <= x);
        let a0 = a.drop_last();
        let b0 = b.drop_last();
        assert(a0.push(x) =~= a);
        assert(b0.push(y) =~= b);
        assert(a0.to_multiset() =~= a.to_multiset().remove(x));
        assert(b0.to_multiset() =~= b.to_multiset().remove(y));
        lemma_sorted_permutation_unique(a0, b0);
        assert(a =~= b);
    }
}

/// The configuration after `dpi set`: host mode at the confirmed DPI.
pub fn remember_cli_dpi(cfg: &mut Config, confirmed: u16, save: bool)
    ensures
        final(cfg).desired_mode == DesiredMode::Host,
        final(cfg).desired_dpi == Some(confirmed),
        !save ==> final(cfg).dpi_levels@ == old(cfg).dpi_levels@,
        save && old(cfg).dpi_levels@.contains(confirmed) ==> final(cfg).dpi_levels@ == old(
            cfg,
        ).dpi_levels@,
        save && !old(cfg).dpi_levels@.contains(confirmed) ==> sorted_levels(final(cfg).dpi_levels@)
            && final(cfg).dpi_levels@.to_multiset() == old(cfg).dpi_levels@.push(
            confirmed,
        ).to_multiset(),
{
    cfg.desired_mode = DesiredMode::Host;
    cfg.desired_dpi = Some(confirmed);
    if save {
        let levels = add_dpi_level(&cfg.dpi_levels, confirmed);
        cfg.dpi_levels = levels;
    }
}

/// What the `onboard` command does with its action.
#[derive(Debug, Clone, Copy, PartialEq, Eq, Structural)]
pub enum OnboardAction {
    Get,
    Switch(OnboardMode),
}

/// Reads the `onboard` action: `get`, `host` or `onboard`.
pub fn onboard_action(action: &str) -> (r: Result<OnboardAction, String>)
    ensures
        action@ == "get"@ ==> r == Ok::<OnboardAction, String>(OnboardAction::Get),
        action@ == "host"@ ==> r == Ok::<OnboardAction, String>(OnboardAction::Switch(OnboardMode::Host)),
        action@ == "onboard"@ ==> r == Ok::<OnboardAction, String>(
            OnboardAction::Switch(OnboardMode::Onboard),
        ),
        action@ != "get"@ && action@ != "host"@ && action@ != "onboard"@ ==> (r matches Err(m) && m@
            == "未知动作: "@ + action@ + " (get/host/onboard)"@),
{
    proof {
        reveal_strlit("get");
        reveal_strlit("host");
        reveal_strlit("onboard");
        assert("get"@.len() != "host"@.len() && "get"@.len() != "onboard"@.len());
        assert("host"@.len() != "onboard"@.len());
    }
    if str_is(action, "get") {
        Ok(OnboardAction::Get)
    } else if str_is(action, "host") {
        Ok(OnboardAction::Switch(OnboardMode::Host))
    } else if str_is(action, "onboard") {
        Ok(OnboardAction::Switch(OnboardMode::Onboard))
    } else {
        let mut m = String::from_str("未知动作: ");
        m.append(action);
        m.append(" (get/host/onboard)");
        Err(m)
    }
}

/// The line `onboard get` prints for what the device answered.
pub fn onboard_get_line(read: &Option<Result<OnboardMode, HidppError>>) -> (r: Result<String, String>)
    ensures
        match read {
            Some(Ok(m)) => r matches Ok(s) && s@ == m.spec_name(),
            Some(Err(e)) => r matches Err(s) && s@ == "读取失败: "@ + spec_error_text(*e),
            None => r matches Ok(s) && s@ == "设备不支持板载模式 feature"@,
        },
{
    match read {
        Some(Ok(m)) => Ok(String::from_str(m.name())),
        Some(Err(e)) => {
            let mut s = String::from_str("读取失败: ");
            let t = e.to_text();
            s.append(t.as_str());
            Err(s)
        },
        None => Ok(String::from_str("设备不支持板载模式 feature")),
    }
}

/// The mode line `status` prints.
pub fn status_mode_line(read: &Option<Result<OnboardMode, HidppError>>) -> (r: String)
    ensures
        r@ == match read {
            Some(Ok(OnboardMode::Onboard)) => "模式   : 板载模式(鼠标固件自管,DPI/灯效下发会被覆盖)"@,
            Some(Ok(OnboardMode::Host)) => "模式   : 主机控制模式"@,
            Some(Err(e)) => "模式   : 读取失败: "@ + spec_error_text(*e),
            None => "模式   : 设备不支持 0x8100"@,
        },
{
    match read {
        Some(Ok(OnboardMode::Onboard)) => String::from_str(
            "模式   : 板载模式(鼠标固件自管,DPI/灯效下发会被覆盖)",
        ),
        Some(Ok(OnboardMode::Host)) => String::from_str("模式   : 主机控制模式"),
        Some(Err(e)) => {
            let mut s = String::from_str("模式   : 读取失败: ");
            let t = e.to_text();
            s.append(t.as_str());
            s
        },
        None => String::from_str("模式   : 设备不支持 0x8100"),
    }
}

/// The battery line `status` prints: percentage, a bolt while charging, the state
/// and the voltage.
pub fn status_battery_line(b: &BatteryInfo) -> (r: String)
    ensures
        r@ == "电池   : "@ + dec_digits(b.percent as nat) + "% "@ + (if b.charging {
            "⚡"@
        } else {
            ""@
        }) + b.state_text@ + match b.voltage_mv {
            Some(v) => ", "@ + dec_digits(v as nat) + " mV"@,
            None => ""@,
        },
{
    proof {
        reveal_strlit("");
    }
    let mut s = String::from_str("电池   : ");
    let p = decimal(b.percent as u64);
    s.append(p.as_str());
    s.append("% ");
    s.append(if b.charging {
        "⚡"
    } else {
        ""
    });
    s.append(b.state_text.as_str());
    match b.voltage_mv {
        Some(v) => {
            s.append(", ");
            let d = decimal(v as u64);
            s.append(d.as_str());
            s.append(" mV");
        },
        None => {},
    }
    s
}

/// The line `battery` prints: percentage, state and voltage.
pub fn battery_text(b: &BatteryInfo) -> (r: String)
    ensures
        r@ == dec_digits(b.percent as nat) + "%  "@ + b.state_text@ + match b.voltage_mv {
            Some(v) => "  ("@ + dec_digits(v as nat) + " mV)"@,
            None => ""@,
        },
{
    proof {
        reveal_strlit("");
    }
    let mut s = decimal(b.percent as u64);
    s.append("%  ");
    s.append(b.state_text.as_str());
    match b.voltage_mv {
        Some(v) => {
            s.append("  (");
            let d = decimal(v as u64);
            s.append(d.as_str());
            s.append(" mV)");
        },
        None => {},
    }
    s
}

/// The line `macro list` prints for a binding: its button, name and state.
pub fn macro_list_line(button: &str, m: &MacroBinding) -> (r: String)
    ensures
        r@ == button@ + ": "@ + match m.name {
            Some(n) => n@,
            None => ""@,
        } + "  "@ + if m.enabled {
            "启用"@
        } else {
            "停用"@
        },
{
    proof {
        reveal_strlit("");
    }
    let mut s = String::from_str(button);
    s.append(": ");
    match &m.name {
        Some(n) => s.append(n.as_str()),
        None => {},
    }
    s.append("  ");
    s.append(if m.enabled {
        "启用"
    } else {
        "停用"
    });
    s
}

/// How `{:?}` prints a list of levels: `[400, 800]`.
pub open spec fn spec_debug_levels(s: Seq<u16>) -> Seq<char> {
    "["@ + seq_join(level_texts(s), ", "@) + "]"@
}

/// The line `profile list` prints for a profile: its name, levels and lighting.
pub fn profile_list_line(name: &str, p: &Profile) -> (r: String)
    ensures
        r@ == name@ + ": DPI "@ + spec_debug_levels(p.dpi_levels@) + match p.led {
            Some(l) => ", LED "@ + l.effect@,
            None => ""@,
        },
{
    proof {
        reveal_strlit("");
    }
    let mut parts: Vec<String> = Vec::new();
    let n = p.dpi_levels.len();
    let mut i: usize = 0;
    while i < n
        invariant
            n == p.dpi_levels@.len(),
            i <= n,
            crate::text::string_views(parts@) == level_texts(p.dpi_levels@.take(i as int)),
        decreases n - i,
    {
        let d = decimal(p.dpi_levels[i] as u64);
        proof {
            lemma_texts_push(parts@, d, p.dpi_levels@, i as int);
        }
        parts.push(d);
        i += 1;
    }
    assert(p.dpi_levels@.take(n as int) =~= p.dpi_levels@);
    let mut s = String::from_str(name);
    s.append(": DPI [");
    let joined = crate::text::join(&parts, ", ");
    s.append(joined.as_str());
    s.append("]");
    proof {
        reveal_strlit(": DPI [");
        reveal_strlit(": DPI ");
        reveal_strlit("[");
        assert(s@ =~= name@ + ": DPI "@ + spec_debug_levels(p.dpi_levels@));
    }
    match &p.led {
        Some(l) => {
            s.append(", LED ");
            s.append(l.effect.as_str());
        },
        None => {},
    }
    s
}

/// `monitor` warns of a low battery when discharging at or below the threshold, at
/// most once every half hour.
pub fn should_alert(charging: bool, percent: u8, threshold: u8, ms_since_last_alert: u64) -> (r: bool)
    ensures
        r == (!charging && percent <= threshold && ms_since_last_alert > 1_800_000),
{
    !charging && percent <= threshold && ms_since_last_alert > 1_800_000
}

} // verus!
