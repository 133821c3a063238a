//! Modifier flags and key-combination text for macros: `cmd+shift+4` and the like.
use crate::text::{
    hex_char, dec_digits, is_graphic_ascii, is_plain_ascii, seq_join, spec_lowercase, spec_trim, str_is, string_views,
    all_plain_case, has_plain_case, lemma_trim_range, plain_lower,
};
pub use crate::key_table::{is_key_char, keycode, keycode_name, spec_keycode, spec_keycode_name};
use crate::key_facts::lemma_keycode_name_round_trip;
use vstd::prelude::*;

verus! {

pub const FLAG_SHIFT: u64 = 0x20000;
pub const FLAG_CONTROL: u64 = 0x40000;
pub const FLAG_ALTERNATE: u64 = 0x80000;
pub const FLAG_COMMAND: u64 = 0x100000;
/// The four modifier flags together.
pub const MODIFIER_MASK: u64 = 0x1E0000;

/// The modifier words of a key combination.
pub open spec fn is_modifier_name(p: Seq<char>) -> bool {
    p == "cmd"@ || p == "ctrl"@ || p == "alt"@ || p == "opt"@ || p == "shift"@
}

/// The modifier flag a name stands for; 0 for any other name.
pub open spec fn modifier_flag(p: Seq<char>) -> u64 {
    if p == "ctrl"@ {
        FLAG_CONTROL
    } else if p == "alt"@ || p == "opt"@ {
        FLAG_ALTERNATE
    } else if p == "shift"@ {
        FLAG_SHIFT
    } else if p == "cmd"@ {
        FLAG_COMMAND
    } else {
        0
    }
}

/// The names of the modifiers held in `flags`, in the order cmd, ctrl, alt, shift.
pub open spec fn spec_modifier_names(flags: u64) -> Seq<Seq<char>> {
    let s0: Seq<Seq<char>> = Seq::empty();
    let s1 = if flags & FLAG_COMMAND != 0 { s0.push("cmd"@) } else { s0 };
    let s2 = if flags & FLAG_CONTROL != 0 { s1.push("ctrl"@) } else { s1 };
    let s3 = if flags & FLAG_ALTERNATE != 0 { s2.push("alt"@) } else { s2 };
    if flags & FLAG_SHIFT != 0 { s3.push("shift"@) } else { s3 }
}

pub fn modifier_names(flags: u64) -> (r: Vec<String>)
    ensures
        string_views(r@) == spec_modifier_names(flags),
{
    let mut names: Vec<String> = Vec::new();
    let ghost s0: Seq<Seq<char>> = Seq::empty();
    assert(string_views(names@) =~= s0);
    if flags & FLAG_COMMAND != 0 {
        names.push(String::from_str("cmd"));
    }
    let ghost s1 = if flags & FLAG_COMMAND != 0 { s0.push("cmd"@) } else { s0 };
    assert(string_views(names@) =~= s1);
    if flags & FLAG_CONTROL != 0 {
        names.push(String::from_str("ctrl"));
    }
    let ghost s2 = if flags & FLAG_CONTROL != 0 { s1.push("ctrl"@) } else { s1 };
    assert(string_views(names@) =~= s2);
    if flags & FLAG_ALTERNATE != 0 {
        names.push(String::from_str("alt"));
    }
    let ghost s3 = if flags & FLAG_ALTERNATE != 0 { s2.push("alt"@) } else { s2 };
    assert(string_views(names@) =~= s3);
    if flags & FLAG_SHIFT != 0 {
        names.push(String::from_str("shift"));
    }
    assert(string_views(names@) =~= spec_modifier_names(flags));
    names
}

/// The flags of a list of modifier names; unknown names add nothing.
pub open spec fn spec_flags_of(names: Seq<Seq<char>>) -> u64
    decreases names.len(),
{
    if names.len() == 0 {
        0
    } else {
        spec_flags_of(names.drop_last()) | modifier_flag(names.last())
    }
}

fn modifier_flag_exec(p: &str) -> (r: u64)
    ensures
        r == modifier_flag(p@),
{
    if str_is(p, "ctrl") {
        FLAG_CONTROL
    } else if str_is(p, "alt") || str_is(p, "opt") {
        FLAG_ALTERNATE
    } else if str_is(p, "shift") {
        FLAG_SHIFT
    } else if str_is(p, "cmd") {
        FLAG_COMMAND
    } else {
        0
    }
}

pub fn flags_from_modifiers(modifiers: &[String]) -> (r: u64)
    ensures
        r == spec_flags_of(string_views(modifiers@)),
{
    let ghost views = string_views(modifiers@);
    let mut flags: u64 = 0;
    let mut i: usize = 0;
    while i < modifiers.len()
        invariant
            i <= modifiers@.len(),
            views == string_views(modifiers@),
            flags == spec_flags_of(views.take(i as int)),
        decreases modifiers@.len() - i,
    {
        proof {
            assert(views.take(i + 1).drop_last() =~= views.take(i as int));
        }
        flags = flags | modifier_flag_exec(modifiers[i].as_str());
        i += 1;
    }
    assert(views.take(modifiers@.len() as int) =~= views);
    flags
}

/// Reading back the names of a flag set gives the modifier part of the flags.
pub proof fn lemma_modifier_names_round_trip(flags: u64)
    ensures
        spec_flags_of(spec_modifier_names(flags)) == flags & MODIFIER_MASK,
{
    reveal_strlit("cmd");
    reveal_strlit("ctrl");
    reveal_strlit("alt");
    reveal_strlit("opt");
    reveal_strlit("shift");
    assert("cmd"@.len() != "ctrl"@.len());
    assert("alt"@[0] != "cmd"@[0]);
    assert("alt"@.len() != "ctrl"@.len());
    assert("alt"@.len() != "shift"@.len());
    assert("alt"@[0] != "opt"@[0]);
    assert("shift"@.len() != "ctrl"@.len());
    assert("shift"@.len() != "cmd"@.len());
    assert("shift"@.len() != "opt"@.len());
    assert("cmd"@[0] != "opt"@[0]);
    let s0: Seq<Seq<char>> = Seq::empty();
    let s1 = if flags & FLAG_COMMAND != 0 { s0.push("cmd"@) } else { s0 };
    let s2 = if flags & FLAG_CONTROL != 0 { s1.push("ctrl"@) } else { s1 };
    let s3 = if flags & FLAG_ALTERNATE != 0 { s2.push("alt"@) } else { s2 };
    let s4 = if flags & FLAG_SHIFT != 0 { s3.push("shift"@) } else { s3 };
    assert(spec_modifier_names(flags) == s4);
    let f0 = spec_flags_of(s0);
    assert(f0 == 0);
    if flags & FLAG_COMMAND != 0 {
        assert(s1.drop_last() =~= s0);
    }
    let f1 = spec_flags_of(s1);
    assert(f1 == if flags & FLAG_COMMAND != 0 { f0 | FLAG_COMMAND } else { f0 });
    if flags & FLAG_CONTROL != 0 {
        assert(s2.drop_last() =~= s1);
    }
    let f2 = spec_flags_of(s2);
    assert(f2 == if flags & FLAG_CONTROL != 0 { f1 | FLAG_CONTROL } else { f1 });
    if flags & FLAG_ALTERNATE != 0 {
        assert(s3.drop_last() =~= s2);
    }
    let f3 = spec_flags_of(s3);
    assert(f3 == if flags & FLAG_ALTERNATE != 0 { f2 | FLAG_ALTERNATE } else { f2 });
    if flags & FLAG_SHIFT != 0 {
        assert(s4.drop_last() =~= s3);
    }
    let f4 = spec_flags_of(s4);
    assert(f4 == if flags & FLAG_SHIFT != 0 { f3 | FLAG_SHIFT } else { f3 });
    assert(f4 == flags & 0x1E0000u64) by (bit_vector)
        requires
            f0 == 0u64,
            f1 == (if flags & 0x100000u64 != 0 { f0 | 0x100000u64 } else { f0 }),
            f2 == (if flags & 0x40000u64 != 0 { f1 | 0x40000u64 } else { f1 }),
            f3 == (if flags & 0x80000u64 != 0 { f2 | 0x80000u64 } else { f2 }),
            f4 == (if flags & 0x20000u64 != 0 { f3 | 0x20000u64 } else { f3 }),
    ;
}

/// The modifier flag of a modifier key code (left and right variants).
pub open spec fn spec_modifier_mask_for_keycode(code: u16) -> u64 {
    if code == 54 || code == 55 {
        FLAG_COMMAND
    } else if code == 56 || code == 60 {
        FLAG_SHIFT
    } else if code == 58 || code == 61 {
        FLAG_ALTERNATE
    } else if code == 59 || code == 62 {
        FLAG_CONTROL
    } else {
        0
    }
}

pub fn modifier_mask_for_keycode(code: u16) -> (r: u64)
    ensures
        r == spec_modifier_mask_for_keycode(code),
{
    match code {
        54 | 55 => FLAG_COMMAND,
        56 | 60 => FLAG_SHIFT,
        58 | 61 => FLAG_ALTERNATE,
        59 | 62 => FLAG_CONTROL,
        _ => 0,
    }
}

/// Each modifier key stands for its own flag, the left and the right key alike:
/// Command (54, 55) 0x100000, Shift (56, 60) 0x20000, Option (58, 61) 0x80000,
/// Control (59, 62) 0x40000; every other key stands for none.
pub proof fn lemma_modifier_key_flags(code: u16)
    ensures
        (code == 54 || code == 55) <==> spec_modifier_mask_for_keycode(code) == 0x100000u64,
        (code == 56 || code == 60) <==> spec_modifier_mask_for_keycode(code) == 0x20000u64,
        (code == 58 || code == 61) <==> spec_modifier_mask_for_keycode(code) == 0x80000u64,
        (code == 59 || code == 62) <==> spec_modifier_mask_for_keycode(code) == 0x40000u64,
        !(code == 54 || code == 55 || code == 56 || code == 60 || code == 58 || code == 61 || code
            == 59 || code == 62) <==> spec_modifier_mask_for_keycode(code) == 0,
{
}

/// The text of a key combination: modifier names then the key name, joined by `+`;
/// `None` when the key has no name.
pub open spec fn spec_combo_name(flags: u64, code: u16) -> Option<Seq<char>> {
    match spec_keycode_name(code) {
        Some(k) => Some(seq_join(spec_modifier_names(flags).push(k), "+"@)),
        None => None,
    }
}

pub fn combo_name(flags: u64, code: u16) -> (r: Option<String>)
    ensures
        match r {
            Some(s) => spec_combo_name(flags, code) == Some(s@),
            None => spec_combo_name(flags, code) is None,
        },
{
    let key = match keycode_name(code) {
        Some(k) => k,
        None => return None,
    };
    let mut parts = modifier_names(flags);
    let ghost before = parts@;
    parts.push(String::from_str(key));
    assert(string_views(parts@) =~= string_views(before).push(key@));
    Some(crate::text::join(&parts, "+"))
}

/// `s` split at every `sep`, as `str::split` with a character does: n separators
/// give n + 1 pieces, some maybe empty.
pub open spec fn spec_split(s: Seq<char>, sep: char) -> Seq<Seq<char>>
    decreases s.len(),
{
    if s.len() == 0 {
        seq![Seq::empty()]
    } else {
        let r = spec_split(s.drop_last(), sep);
        if s.last() == sep {
            r.push(Seq::empty())
        } else {
            r.update(r.len() - 1, r.last().push(s.last()))
        }
    }
}

pub proof fn lemma_split_nonempty(s: Seq<char>, sep: char)
    ensures
        spec_split(s, sep).len() >= 1,
    decreases s.len(),
{
    if s.len() > 0 {
        lemma_split_nonempty(s.drop_last(), sep);
    }
}

/// The pieces of a string written in ASCII and CJK ideographs are written in them too.
proof fn lemma_split_plain_case(s: Seq<char>, sep: char)
    requires
        all_plain_case(s),
    ensures
        forall|i: int| 0 <= i < spec_split(s, sep).len() ==> #[trigger] all_plain_case(spec_split(s, sep)[i]),
    decreases s.len(),
{
    if s.len() > 0 {
        let d = s.drop_last();
        assert forall|k: int| 0 <= k < d.len() implies #[trigger] has_plain_case(d[k]) by {
            assert(d[k] == s[k]);
        }
        lemma_split_plain_case(d, sep);
        lemma_split_nonempty(d, sep);
        let r = spec_split(d, sep);
        if s.last() != sep {
            let lastp = r.last().push(s.last());
            assert(has_plain_case(s[s.len() - 1]));
            assert forall|k: int| 0 <= k < lastp.len() implies #[trigger] has_plain_case(lastp[k]) by {
                if k < r.last().len() {
                    assert(all_plain_case(r[r.len() - 1]));
                }
            }
            assert forall|i: int| 0 <= i < spec_split(s, sep).len() implies #[trigger] all_plain_case(spec_split(s, sep)[i]) by {
                if i < r.len() - 1 {
                    assert(spec_split(s, sep)[i] == r[i]);
                }
            }
        } else {
            assert forall|i: int| 0 <= i < spec_split(s, sep).len() implies #[trigger] all_plain_case(spec_split(s, sep)[i]) by {
                if i < r.len() {
                    assert(spec_split(s, sep)[i] == r[i]);
                } else {
                    assert(spec_split(s, sep)[i] =~= Seq::<char>::empty());
                }
            }
        }
    }
}

/// A piece trimmed and lowercased, when it is written in ASCII and CJK ideographs.
pub open spec fn plain_normalize(p: Seq<char>) -> Seq<char> {
    spec_trim(p).map_values(|c: char| plain_lower(c))
}

/// Splits a string at every occurrence of a character.
pub fn split_char(s: &str, sep: char) -> (r: Vec<String>)
    ensures
        string_views(r@) == spec_split(s@, sep),
{
    let n = s.unicode_len();
    let mut pieces: Vec<String> = Vec::new();
    let mut start: usize = 0;
    let mut i: usize = 0;
    assert(s@.take(0) =~= Seq::<char>::empty());
    assert(string_views(pieces@).push(s@.subrange(0, 0)) =~= seq![Seq::<char>::empty()]);
    while i < n
        invariant
            n == s@.len(),
            start <= i <= n,
            string_views(pieces@).push(s@.subrange(start as int, i as int)) == spec_split(s@.take(i as int), sep),
        decreases n - i,
    {
        let c = s.get_char(i);
        proof {
            lemma_split_nonempty(s@.take(i as int), sep);
            assert(s@.take(i + 1).drop_last() =~= s@.take(i as int));
            assert(s@.take(i + 1).last() == c);
        }
        if c == sep {
            let piece = s.substring_char(start, i);
            let ghost before = pieces@;
            pieces.push(String::from_str(piece));
            assert(string_views(pieces@) =~= string_views(before).push(s@.subrange(start as int, i as int)));
            start = i + 1;
            assert(s@.subrange(start as int, i + 1) =~= Seq::<char>::empty());
        } else {
            assert(s@.subrange(start as int, i + 1) =~= s@.subrange(start as int, i as int).push(c));
        }
        i += 1;
        proof {
            let v = string_views(pieces@);
            assert(v.push(s@.subrange(start as int, i as int)) =~= spec_split(s@.take(i as int), sep));
        }
    }
    let piece = s.substring_char(start, n);
    let ghost before = pieces@;
    pieces.push(String::from_str(piece));
    assert(string_views(pieces@) =~= string_views(before).push(s@.subrange(start as int, n as int)));
    assert(s@.take(n as int) =~= s@);
    pieces
}

/// One piece of a combination, once trimmed and lowercased.
pub open spec fn spec_normalize(p: Seq<char>) -> Seq<char> {
    spec_lowercase(spec_trim(p))
}

/// Folds the (already normalised) pieces of a combination into flags and the last
/// named key.
pub open spec fn spec_combo_step(acc: (u64, Option<u16>), p: Seq<char>) -> (u64, Option<u16>) {
    if p == "cmd"@ {
        (acc.0 | FLAG_COMMAND, acc.1)
    } else if p == "ctrl"@ {
        (acc.0 | FLAG_CONTROL, acc.1)
    } else if p == "alt"@ || p == "opt"@ {
        (acc.0 | FLAG_ALTERNATE, acc.1)
    } else if p == "shift"@ {
        (acc.0 | FLAG_SHIFT, acc.1)
    } else {
        match spec_keycode(p) {
            Some(k) => (acc.0, Some(k)),
            None => acc,
        }
    }
}

pub open spec fn spec_combo_fold(pieces: Seq<Seq<char>>) -> (u64, Option<u16>)
    decreases pieces.len(),
{
    if pieces.len() == 0 {
        (0, None)
    } else {
        spec_combo_step(spec_combo_fold(pieces.drop_last()), pieces.last())
    }
}

pub open spec fn normalized_pieces(s: Seq<char>) -> Seq<Seq<char>> {
    spec_split(s, '+').map_values(|p: Seq<char>| spec_normalize(p))
}

/// What `parse_combo` yields: the flags and key code of a combination.
pub open spec fn spec_parse_combo(s: Seq<char>) -> Option<(u64, u16)> {
    let (flags, key) = spec_combo_fold(normalized_pieces(s));
    match key {
        Some(k) => Some((flags, k)),
        None => None,
    }
}

/// The same reading when every piece is already in canonical form.
pub open spec fn spec_parse_combo_plain(s: Seq<char>) -> Option<(u64, u16)> {
    let (flags, key) = spec_combo_fold(spec_split(s, '+'));
    match key {
        Some(k) => Some((flags, k)),
        None => None,
    }
}

pub open spec fn all_plain(p: Seq<char>) -> bool {
    forall|k: int| 0 <= k < p.len() ==> #[trigger] is_plain_ascii(p[k])
}

/// Every piece of `s` is non-empty printable ASCII without capital letters.
pub open spec fn pieces_plain(s: Seq<char>) -> bool {
    forall|i: int| 0 <= i < spec_split(s, '+').len() ==> #[trigger] all_plain(spec_split(s, '+')[i])
        && spec_split(s, '+')[i].len() > 0
}

fn combo_step_exec(acc: (u64, Option<u16>), p: &str) -> (r: (u64, Option<u16>))
    ensures
        r == spec_combo_step(acc, p@),
{
    if str_is(p, "cmd") {
        (acc.0 | FLAG_COMMAND, acc.1)
    } else if str_is(p, "ctrl") {
        (acc.0 | FLAG_CONTROL, acc.1)
    } else if str_is(p, "alt") || str_is(p, "opt") {
        (acc.0 | FLAG_ALTERNATE, acc.1)
    } else if str_is(p, "shift") {
        (acc.0 | FLAG_SHIFT, acc.1)
    } else {
        match keycode(p) {
            Some(k) => (acc.0, Some(k)),
            None => acc,
        }
    }
}

/// Parses a key combination such as `cmd+shift+4`: pieces separated by `+`, each
/// trimmed and lowercased; modifier words set flags, the last piece naming a key is
/// the key; pieces naming nothing are ignored. Without a key the text is refused.
pub fn parse_combo(spec: &str) -> (r: Result<(u64, u16), String>)
    ensures
        match spec_parse_combo(spec@) {
            Some(v) => r == Ok::<(u64, u16), String>(v),
            None => r matches Err(m) && m@ == "无法解析按键: "@ + spec@,
        },
        pieces_plain(spec@) ==> spec_parse_combo(spec@) == spec_parse_combo_plain(spec@),
        all_plain_case(spec@) ==> normalized_pieces(spec@) == spec_split(spec@, '+').map_values(
            |p: Seq<char>| plain_normalize(p),
        ),
{
    let pieces = split_char(spec, '+');
    let ghost raw = spec_split(spec@, '+');
    let ghost norm = normalized_pieces(spec@);
    let mut acc: (u64, Option<u16>) = (0, None);
    let mut i: usize = 0;
    proof {
        if all_plain_case(spec@) {
            lemma_split_plain_case(spec@, '+');
        }
    }
    while i < pieces.len()
        invariant
            i <= pieces@.len(),
            string_views(pieces@) == raw,
            raw == spec_split(spec@, '+'),
            norm == normalized_pieces(spec@),
            acc == spec_combo_fold(norm.take(i as int)),
            pieces_plain(spec@) ==> norm.take(i as int) == raw.take(i as int),
            all_plain_case(spec@) ==> forall|k: int| 0 <= k < raw.len() ==> #[trigger] all_plain_case(raw[k]),
            all_plain_case(spec@) ==> forall|k: int| 0 <= k < i ==> #[trigger] norm[k] == plain_normalize(raw[k]),
        decreases pieces@.len() - i,
    {
        let t = crate::text::trim(pieces[i].as_str());
        let p = crate::text::to_lowercase(t);
        proof {
            if all_plain_case(spec@) {
                let rp = raw[i as int];
                assert(rp == pieces@[i as int]@);
                assert(all_plain_case(rp));
                let ij = lemma_trim_range(rp);
                assert forall|k: int| 0 <= k < t@.len() implies #[trigger] has_plain_case(t@[k]) by {
                    assert(t@[k] == rp[ij.0 + k]);
                }
                assert(norm[i as int] == spec_normalize(rp));
            }
        }
        proof {
            assert(norm[i as int] == spec_normalize(raw[i as int]));
            assert(raw[i as int] == pieces@[i as int]@);
            assert(norm.take(i + 1).drop_last() =~= norm.take(i as int));
            assert(raw.len() == pieces@.len());
            if pieces_plain(spec@) {
                assert(all_plain(spec_split(spec@, '+')[i as int]));
                assert(all_plain(raw[i as int]) && raw[i as int].len() > 0);
                assert(is_plain_ascii(raw[i as int][0]));
                assert(is_plain_ascii(raw[i as int].last()));
                assert(norm.take(i + 1) =~= raw.take(i + 1));
            }
        }
        acc = combo_step_exec(acc, p.as_str());
        i += 1;
    }
    assert(norm.take(pieces@.len() as int) =~= norm);
    assert(raw.take(pieces@.len() as int) =~= raw);
    proof {
        if all_plain_case(spec@) {
            assert(norm =~= raw.map_values(|p: Seq<char>| plain_normalize(p)));
        }
    }
    match acc.1 {
        Some(k) => Ok((acc.0, k)),
        None => {
            let mut m = String::from_str("无法解析按键: ");
            m.append(spec);
            Err(m)
        },
    }
}

pub open spec fn has_no(p: Seq<char>, c: char) -> bool {
    forall|k: int| 0 <= k < p.len() ==> #[trigger] p[k] != c
}

proof fn lemma_split_no_sep(p: Seq<char>)
    requires
        has_no(p, '+'),
    ensures
        spec_split(p, '+') == seq![p],
    decreases p.len(),
{
    if p.len() > 0 {
        lemma_split_no_sep(p.drop_last());
        assert(p.drop_last().push(p.last()) =~= p);
    } else {
        assert(p =~= Seq::<char>::empty());
    }
}

proof fn lemma_split_append(x: Seq<char>, b: Seq<char>)
    requires
        has_no(b, '+'),
    ensures
        spec_split(x + seq!['+'] + b, '+') == spec_split(x, '+').push(b),
    decreases b.len(),
{
    if b.len() == 0 {
        let y = x + seq!['+'];
        assert(y + b =~= y);
        assert(y.drop_last() =~= x);
        assert(b =~= Seq::<char>::empty());
    } else {
        let b0 = b.drop_last();
        lemma_split_append(x, b0);
        let y = x + seq!['+'] + b;
        assert(y.drop_last() =~= x + seq!['+'] + b0);
        assert(b0.push(b.last()) =~= b);
        lemma_split_nonempty(x, '+');
        assert(spec_split(x, '+').push(b0).update(spec_split(x, '+').len() as int, b) =~= spec_split(x, '+').push(b));
    }
}

/// Splitting joined parts at the separator gives the parts back, when no part holds
/// the separator.
proof fn lemma_split_join(parts: Seq<Seq<char>>)
    requires
        parts.len() >= 1,
        forall|i: int| 0 <= i < parts.len() ==> #[trigger] has_no(parts[i], '+'),
    ensures
        spec_split(seq_join(parts, "+"@), '+') == parts,
    decreases parts.len(),
{
    reveal_strlit("+");
    if parts.len() == 1 {
        lemma_split_no_sep(parts[0]);
        assert(seq![parts[0]] =~= parts);
    } else {
        let init = parts.drop_last();
        assert forall|i: int| 0 <= i < init.len() implies #[trigger] has_no(init[i], '+') by {
            assert(init[i] == parts[i]);
        }
        lemma_split_join(init);
        assert(has_no(parts[parts.len() - 1], '+'));
        lemma_split_append(seq_join(init, "+"@), parts.last());
        assert("+"@ =~= seq!['+']);
        assert(init.push(parts.last()) =~= parts);
        assert(seq_join(parts, "+"@) == seq_join(init, "+"@) + seq!['+'] + parts.last());
    }
}

pub(crate) proof fn lemma_modifier_words()
    ensures
        "cmd"@ == seq!['c', 'm', 'd'],
        "ctrl"@ == seq!['c', 't', 'r', 'l'],
        "alt"@ == seq!['a', 'l', 't'],
        "opt"@ == seq!['o', 'p', 't'],
        "shift"@ == seq!['s', 'h', 'i', 'f', 't'],
{
    reveal_strlit("cmd");
    reveal_strlit("ctrl");
    reveal_strlit("alt");
    reveal_strlit("opt");
    reveal_strlit("shift");
}

proof fn lemma_modifier_word_chars(p: Seq<char>)
    requires
        is_modifier_name(p),
    ensures
        has_no(p, '+'),
        all_plain(p),
        p.len() > 0,
{
    lemma_modifier_words();
    assert forall|j: int| 0 <= j < p.len() implies #[trigger] is_key_char(p[j]) by {
        if j == 0 {
        } else if j == 1 {
        } else if j == 2 {
        } else if j == 3 {
        } else {
        }
    }
    assert forall|j: int| 0 <= j < p.len() implies #[trigger] p[j] != '+' by {
        assert(is_key_char(p[j]));
    }
    assert forall|j: int| 0 <= j < p.len() implies #[trigger] is_plain_ascii(p[j]) by {
        assert(is_key_char(p[j]));
    }
}

/// The fold over the modifier names of `flags` sets exactly those flags and no key.
proof fn lemma_fold_modifier_names(flags: u64)
    ensures
        spec_combo_fold(spec_modifier_names(flags)) == (spec_flags_of(spec_modifier_names(flags)), None::<u16>),
        forall|i: int| 0 <= i < spec_modifier_names(flags).len() ==> #[trigger] is_modifier_name(spec_modifier_names(flags)[i]),
{
    lemma_modifier_words();
    assert("cmd"@.len() != "ctrl"@.len());
    assert("alt"@[0] != "cmd"@[0]);
    assert("alt"@.len() != "ctrl"@.len());
    assert("alt"@.len() != "shift"@.len());
    assert("alt"@[0] != "opt"@[0]);
    assert("shift"@.len() != "ctrl"@.len());
    assert("shift"@.len() != "cmd"@.len());
    assert("shift"@.len() != "opt"@.len());
    assert("cmd"@[0] != "opt"@[0]);
    let s0: Seq<Seq<char>> = Seq::empty();
    let s1 = if flags & FLAG_COMMAND != 0 { s0.push("cmd"@) } else { s0 };
    let s2 = if flags & FLAG_CONTROL != 0 { s1.push("ctrl"@) } else { s1 };
    let s3 = if flags & FLAG_ALTERNATE != 0 { s2.push("alt"@) } else { s2 };
    let s4 = if flags & FLAG_SHIFT != 0 { s3.push("shift"@) } else { s3 };
    assert(spec_modifier_names(flags) == s4);
    assert(spec_combo_fold(s0) == (0u64, None::<u16>));
    assert(spec_flags_of(s0) == 0u64);
    if flags & FLAG_COMMAND != 0 {
        assert(s1.drop_last() =~= s0);
        assert(s1.last() == "cmd"@);
        assert(spec_combo_step((0u64, None::<u16>), "cmd"@) == (0u64 | FLAG_COMMAND, None::<u16>));
        assert(modifier_flag("cmd"@) == FLAG_COMMAND);
    }
    assert(spec_combo_fold(s1) == (spec_flags_of(s1), None::<u16>));
    if flags & FLAG_CONTROL != 0 {
        assert(s2.drop_last() =~= s1);
    }
    assert(spec_combo_fold(s2) == (spec_flags_of(s2), None::<u16>));
    if flags & FLAG_ALTERNATE != 0 {
        assert(s3.drop_last() =~= s2);
    }
    assert(spec_combo_fold(s3) == (spec_flags_of(s3), None::<u16>));
    if flags & FLAG_SHIFT != 0 {
        assert(s4.drop_last() =~= s3);
    }
    assert(spec_combo_fold(s4) == (spec_flags_of(s4), None::<u16>));
}

/// Reading back the text of a key combination gives its key and its modifier flags:
/// the text splits into canonical pieces (so trimming and lowercasing leave them
/// alone) whose reading is the modifier part of the flags and the key code.
pub proof fn lemma_combo_round_trip(flags: u64, code: u16)
    ensures
        spec_combo_name(flags, code) matches Some(text) ==> pieces_plain(text)
            && spec_parse_combo_plain(text) == Some((flags & MODIFIER_MASK, code)),
{
    if let Some(k) = spec_keycode_name(code) {
        lemma_keycode_name_round_trip(code);
        lemma_modifier_words();
        lemma_fold_modifier_names(flags);
        lemma_modifier_names_round_trip(flags);
        let mods = spec_modifier_names(flags);
        let parts = mods.push(k);
        assert forall|i: int| 0 <= i < parts.len() implies #[trigger] has_no(parts[i], '+') && all_plain(parts[i]) && parts[i].len() > 0 by {
            if i < mods.len() {
                assert(parts[i] == mods[i]);
                assert(is_modifier_name(mods[i]));
                lemma_modifier_word_chars(mods[i]);
            } else {
                assert(parts[i] == k);
                assert forall|j: int| 0 <= j < k.len() implies #[trigger] k[j] != '+' by {
                    assert(is_key_char(k[j]));
                }
                assert forall|j: int| 0 <= j < k.len() implies #[trigger] is_plain_ascii(k[j]) by {
                    assert(is_key_char(k[j]));
                }
            }
        }
        let text = seq_join(parts, "+"@);
        lemma_split_join(parts);
        assert(parts.drop_last() =~= mods);
        assert(spec_combo_fold(parts) == (flags & MODIFIER_MASK, Some(code)));
        assert(spec_combo_name(flags, code) == Some(text));
        assert forall|i: int| 0 <= i < spec_split(text, '+').len() implies #[trigger] all_plain(spec_split(text, '+')[i])
            && spec_split(text, '+')[i].len() > 0 by {
            assert(spec_split(text, '+')[i] == parts[i]);
            assert(has_no(parts[i], '+'));
        }
        assert(spec_parse_combo_plain(text) == Some((flags & MODIFIER_MASK, code)));
    }
}

/// The configuration key of a mouse button: `mouse0` … `mouse31`.
pub open spec fn spec_button_key(button: i64) -> Option<Seq<char>> {
    if 0 <= button <= 31 {
        Some("mouse"@ + dec_digits(button as nat))
    } else {
        None
    }
}

pub fn button_to_key(button: i64) -> (r: Option<&'static str>)
    ensures
        match r {
            Some(s) => spec_button_key(button) == Some(s@),
            None => spec_button_key(button) is None,
        },
{
    proof {
        reveal_strlit("mouse");
    }
    match button {
        31 => {
            proof {
                reveal_strlit("mouse31");
                assert(dec_digits(3) == seq![hex_char(3)]);
                assert("mouse31"@ =~= "mouse"@ + dec_digits(31));
            }
            Some("mouse31")
        },
        30 => {
            proof {
                reveal_strlit("mouse30");
                assert(dec_digits(3) == seq![hex_char(3)]);
                assert("mouse30"@ =~= "mouse"@ + dec_digits(30));
            }
            Some("mouse30")
        },
        29 => {
            proof {
                reveal_strlit("mouse29");
                assert(dec_digits(2) == seq![hex_char(2)]);
                assert("mouse29"@ =~= "mouse"@ + dec_digits(29));
            }
            Some("mouse29")
        },
        28 => {
            proof {
                reveal_strlit("mouse28");
                assert(dec_digits(2) == seq![hex_char(2)]);
                assert("mouse28"@ =~= "mouse"@ + dec_digits(28));
            }
            Some("mouse28")
        },
        27 => {
            proof {
                reveal_strlit("mouse27");
                assert(dec_digits(2) == seq![hex_char(2)]);
                assert("mouse27"@ =~= "mouse"@ + dec_digits(27));
            }
            Some("mouse27")
        },
        26 => {
            proof {
                reveal_strlit("mouse26");
                assert(dec_digits(2) == seq![hex_char(2)]);
                assert("mouse26"@ =~= "mouse"@ + dec_digits(26));
            }
            Some("mouse26")
        },
        25 => {
            proof {
                reveal_strlit("mouse25");
                assert(dec_digits(2) == seq![hex_char(2)]);
                assert("mouse25"@ =~= "mouse"@ + dec_digits(25));
            }
            Some("mouse25")
        },
        24 => {
            proof {
                reveal_strlit("mouse24");
                assert(dec_digits(2) == seq![hex_char(2)]);
                assert("mouse24"@ =~= "mouse"@ + dec_digits(24));
            }
            Some("mouse24")
        },
        23 => {
            proof {
                reveal_strlit("mouse23");
                assert(dec_digits(2) == seq![hex_char(2)]);
                assert("mouse23"@ =~= "mouse"@ + dec_digits(23));
            }
            Some("mouse23")
        },
        22 => {
            proof {
                reveal_strlit("mouse22");
                assert(dec_digits(2) == seq![hex_char(2)]);
                assert("mouse22"@ =~= "mouse"@ + dec_digits(22));
            }
            Some("mouse22")
        },
        21 => {
            proof {
                reveal_strlit("mouse21");
                assert(dec_digits(2) == seq![hex_char(2)]);
                assert("mouse21"@ =~= "mouse"@ + dec_digits(21));
            }
            Some("mouse21")
        },
        20 => {
            proof {
                reveal_strlit("mouse20");
                assert(dec_digits(2) == seq![hex_char(2)]);
                assert("mouse20"@ =~= "mouse"@ + dec_digits(20));
            }
            Some("mouse20")
        },
        19 => {
            proof {
                reveal_strlit("mouse19");
                assert(dec_digits(1) == seq![hex_char(1)]);
                assert("mouse19"@ =~= "mouse"@ + dec_digits(19));
            }
            Some("mouse19")
        },
        18 => {
            proof {
                reveal_strlit("mouse18");
                assert(dec_digits(1) == seq![hex_char(1)]);
                assert("mouse18"@ =~= "mouse"@ + dec_digits(18));
            }
            Some("mouse18")
        },
        17 => {
            proof {
                reveal_strlit("mouse17");
                assert(dec_digits(1) == seq![hex_char(1)]);
                assert("mouse17"@ =~= "mouse"@ + dec_digits(17));
            }
            Some("mouse17")
        },
        16 => {
            proof {
                reveal_strlit("mouse16");
                assert(dec_digits(1) == seq![hex_char(1)]);
                assert("mouse16"@ =~= "mouse"@ + dec_digits(16));
            }
            Some("mouse16")
        },
        15 => {
            proof {
                reveal_strlit("mouse15");
                assert(dec_digits(1) == seq![hex_char(1)]);
                assert("mouse15"@ =~= "mouse"@ + dec_digits(15));
            }
            Some("mouse15")
        },
        14 => {
            proof {
                reveal_strlit("mouse14");
                assert(dec_digits(1) == seq![hex_char(1)]);
                assert("mouse14"@ =~= "mouse"@ + dec_digits(14));
            }
            Some("mouse14")
        },
        13 => {
            proof {
                reveal_strlit("mouse13");
                assert(dec_digits(1) == seq![hex_char(1)]);
                assert("mouse13"@ =~= "mouse"@ + dec_digits(13));
            }
            Some("mouse13")
        },
        12 => {
            proof {
                reveal_strlit("mouse12");
                assert(dec_digits(1) == seq![hex_char(1)]);
                assert("mouse12"@ =~= "mouse"@ + dec_digits(12));
            }
            Some("mouse12")
        },
        11 => {
            proof {
                reveal_strlit("mouse11");
                assert(dec_digits(1) == seq![hex_char(1)]);
                assert("mouse11"@ =~= "mouse"@ + dec_digits(11));
            }
            Some("mouse11")
        },
        10 => {
            proof {
                reveal_strlit("mouse10");
                assert(dec_digits(1) == seq![hex_char(1)]);
                assert("mouse10"@ =~= "mouse"@ + dec_digits(10));
            }
            Some("mouse10")
        },
        9 => {
            proof {
                reveal_strlit("mouse9");
                assert("mouse9"@ =~= "mouse"@ + dec_digits(9));
            }
            Some("mouse9")
        },
        8 => {
            proof {
                reveal_strlit("mouse8");
                assert("mouse8"@ =~= "mouse"@ + dec_digits(8));
            }
            Some("mouse8")
        },
        7 => {
            proof {
                reveal_strlit("mouse7");
                assert("mouse7"@ =~= "mouse"@ + dec_digits(7));
            }
            Some("mouse7")
        },
        6 => {
            proof {
                reveal_strlit("mouse6");
                assert("mouse6"@ =~= "mouse"@ + dec_digits(6));
            }
            Some("mouse6")
        },
        5 => {
            proof {
                reveal_strlit("mouse5");
                assert("mouse5"@ =~= "mouse"@ + dec_digits(5));
            }
            Some("mouse5")
        },
        4 => {
            proof {
                reveal_strlit("mouse4");
                assert("mouse4"@ =~= "mouse"@ + dec_digits(4));
            }
            Some("mouse4")
        },
        3 => {
            proof {
                reveal_strlit("mouse3");
                assert("mouse3"@ =~= "mouse"@ + dec_digits(3));
            }
            Some("mouse3")
        },
        2 => {
            proof {
                reveal_strlit("mouse2");
                assert("mouse2"@ =~= "mouse"@ + dec_digits(2));
            }
            Some("mouse2")
        },
        1 => {
            proof {
                reveal_strlit("mouse1");
                assert("mouse1"@ =~= "mouse"@ + dec_digits(1));
            }
            Some("mouse1")
        },
        0 => {
            proof {
                reveal_strlit("mouse0");
                assert("mouse0"@ =~= "mouse"@ + dec_digits(0));
            }
            Some("mouse0")
        },
        _ => None,
    }
}

} // verus!
