//! Text helpers: decimal and hexadecimal rendering of integers.
use vstd::prelude::*;

verus! {

/// The lowercase hexadecimal digit for a value below 16.
pub open spec fn hex_char(d: nat) -> char {
    if d == 0 {
        '0'
    } else if d == 1 {
        '1'
    } else if d == 2 {
        '2'
    } else if d == 3 {
        '3'
    } else if d == 4 {
        '4'
    } else if d == 5 {
        '5'
    } else if d == 6 {
        '6'
    } else if d == 7 {
        '7'
    } else if d == 8 {
        '8'
    } else if d == 9 {
        '9'
    } else if d == 10 {
        'a'
    } else if d == 11 {
        'b'
    } else if d == 12 {
        'c'
    } else if d == 13 {
        'd'
    } else if d == 14 {
        'e'
    } else {
        'f'
    }
}

/// Decimal digits of `n`, most significant first, without leading zeros.
pub open spec fn dec_digits(n: nat) -> Seq<char>
    decreases n,
{
    if n < 10 {
        seq![hex_char(n)]
    } else {
        dec_digits(n / 10).push(hex_char(n % 10))
    }
}

/// The `width` lowest hexadecimal digits of `n`, zero padded, most significant first.
pub open spec fn hex_digits(n: nat, width: nat) -> Seq<char>
    decreases width,
{
    if width == 0 {
        Seq::empty()
    } else {
        hex_digits(n / 16, (width - 1) as nat).push(hex_char(n % 16))
    }
}

/// `0x` followed by `width` zero-padded lowercase hexadecimal digits.
pub open spec fn hex_prefixed(n: nat, width: nat) -> Seq<char> {
    "0x"@ + hex_digits(n, width)
}

fn digit_str(d: u8) -> (r: &'static str)
    requires
        d < 16,
    ensures
        r@ == seq![hex_char(d as nat)],
{
    match d {
        0 => {
            proof {
                reveal_strlit("0");
            }
            "0"
        },
        1 => {
            proof {
                reveal_strlit("1");
            }
            "1"
        },
        2 => {
            proof {
                reveal_strlit("2");
            }
            "2"
        },
        3 => {
            proof {
                reveal_strlit("3");
            }
            "3"
        },
        4 => {
            proof {
                reveal_strlit("4");
            }
            "4"
        },
        5 => {
            proof {
                reveal_strlit("5");
            }
            "5"
        },
        6 => {
            proof {
                reveal_strlit("6");
            }
            "6"
        },
        7 => {
            proof {
                reveal_strlit("7");
            }
            "7"
        },
        8 => {
            proof {
                reveal_strlit("8");
            }
            "8"
        },
        9 => {
            proof {
                reveal_strlit("9");
            }
            "9"
        },
        10 => {
            proof {
                reveal_strlit("a");
            }
            "a"
        },
        11 => {
            proof {
                reveal_strlit("b");
            }
            "b"
        },
        12 => {
            proof {
                reveal_strlit("c");
            }
            "c"
        },
        13 => {
            proof {
                reveal_strlit("d");
            }
            "d"
        },
        14 => {
            proof {
                reveal_strlit("e");
            }
            "e"
        },
        _ => {
            proof {
                reveal_strlit("f");
            }
            "f"
        },
    }
}

/// Renders `n` in decimal, as `{}` does.
pub fn decimal(n: u64) -> (r: String)
    ensures
        r@ == dec_digits(n as nat),
    decreases n,
{
    if n < 10 {
        String::from_str(digit_str(n as u8))
    } else {
        let mut s = decimal(n / 10);
        s.append(digit_str((n % 10) as u8));
        s
    }
}

/// Renders the `width` lowest hexadecimal digits of `n`, zero padded.
pub fn hex_digits_exec(n: u64, width: u64) -> (r: String)
    ensures
        r@ == hex_digits(n as nat, width as nat),
    decreases width,
{
    if width == 0 {
        String::new()
    } else {
        let mut s = hex_digits_exec(n / 16, width - 1);
        s.append(digit_str((n % 16) as u8));
        s
    }
}

/// Renders `n` as `0x` and `width` zero-padded lowercase hexadecimal digits,
/// as `{:#0Nx}` does with `N == width + 2` for values below `16^width`.
pub fn hex_prefixed_exec(n: u64, width: u64) -> (r: String)
    ensures
        r@ == hex_prefixed(n as nat, width as nat),
{
    let mut s = String::from_str("0x");
    let d = hex_digits_exec(n, width);
    s.append(d.as_str());
    s
}

/// Whether a string equals a given text.
pub fn str_is(a: &str, b: &str) -> (r: bool)
    ensures
        r == (a@ == b@),
{
    let x = String::from_str(a);
    let y = String::from_str(b);
    x == y
}

/// Characters that no Unicode casing or whitespace rule touches: printable ASCII
/// other than the capital letters.
pub open spec fn is_plain_ascii(c: char) -> bool {
    ('!' <= c <= '~') && !('A' <= c <= 'Z')
}

/// Printable ASCII, which is never Unicode whitespace.
pub open spec fn is_graphic_ascii(c: char) -> bool {
    '!' <= c <= '~'
}

/// Unicode White_Space, the characters `str::trim` removes from either end:
/// U+0009–U+000D, U+0020, U+0085, U+00A0, U+1680, U+2000–U+200A, U+2028, U+2029,
/// U+202F, U+205F and U+3000.
pub open spec fn is_unicode_space(c: char) -> bool {
    let u = c as u32;
    (0x09 <= u <= 0x0D) || u == 0x20 || u == 0x85 || u == 0xA0 || u == 0x1680 || (0x2000 <= u
        <= 0x200A) || u == 0x2028 || u == 0x2029 || u == 0x202F || u == 0x205F || u == 0x3000
}

fn is_space_char(c: char) -> (r: bool)
    ensures
        r == is_unicode_space(c),
{
    let u = c as u32;
    (0x09 <= u && u <= 0x0D) || u == 0x20 || u == 0x85 || u == 0xA0 || u == 0x1680 || (0x2000 <= u
        && u <= 0x200A) || u == 0x2028 || u == 0x2029 || u == 0x202F || u == 0x205F || u == 0x3000
}

/// A string without its leading white space.
pub open spec fn spec_trim_start(s: Seq<char>) -> Seq<char>
    decreases s.len(),
{
    if s.len() > 0 && is_unicode_space(s[0]) {
        spec_trim_start(s.drop_first())
    } else {
        s
    }
}

/// A string without its trailing white space.
pub open spec fn spec_trim_end(s: Seq<char>) -> Seq<char>
    decreases s.len(),
{
    if s.len() > 0 && is_unicode_space(s.last()) {
        spec_trim_end(s.drop_last())
    } else {
        s
    }
}

/// A string without the white space at either end.
pub open spec fn spec_trim(s: Seq<char>) -> Seq<char> {
    spec_trim_end(spec_trim_start(s))
}

/// Leading white space ends at the first other character.
proof fn lemma_trim_start_range(s: Seq<char>) -> (i: int)
    ensures
        0 <= i <= s.len(),
        spec_trim_start(s) == s.subrange(i, s.len() as int),
        forall|k: int| 0 <= k < i ==> is_unicode_space(#[trigger] s[k]),
        i < s.len() ==> !is_unicode_space(s[i]),
    decreases s.len(),
{
    if s.len() > 0 && is_unicode_space(s[0]) {
        let k = lemma_trim_start_range(s.drop_first());
        assert(s.drop_first().subrange(k, s.drop_first().len() as int) =~= s.subrange(
            k + 1,
            s.len() as int,
        ));
        assert forall|m: int| 0 <= m < k + 1 implies is_unicode_space(#[trigger] s[m]) by {
            if m > 0 {
                assert(s[m] == s.drop_first()[m - 1]);
            }
        }
        k + 1
    } else {
        assert(s.subrange(0, s.len() as int) =~= s);
        0
    }
}

/// Trailing white space starts after the last other character.
proof fn lemma_trim_end_range(s: Seq<char>) -> (j: int)
    ensures
        0 <= j <= s.len(),
        spec_trim_end(s) == s.subrange(0, j),
        forall|k: int| j <= k < s.len() ==> is_unicode_space(#[trigger] s[k]),
        j > 0 ==> !is_unicode_space(s[j - 1]),
    decreases s.len(),
{
    if s.len() > 0 && is_unicode_space(s.last()) {
        let k = lemma_trim_end_range(s.drop_last());
        assert(s.drop_last().subrange(0, k) =~= s.subrange(0, k));
        assert forall|m: int| k <= m < s.len() implies is_unicode_space(#[trigger] s[m]) by {
            if m < s.len() - 1 {
                assert(s[m] == s.drop_last()[m]);
            }
        }
        k
    } else {
        assert(s.subrange(0, s.len() as int) =~= s);
        s.len() as int
    }
}

/// The trimmed string is the part of the string from its first to its last
/// character that is not white space.
pub proof fn lemma_trim_range(s: Seq<char>) -> (ij: (int, int))
    ensures
        0 <= ij.0 <= ij.1 <= s.len(),
        spec_trim(s) == s.subrange(ij.0, ij.1),
        forall|k: int| 0 <= k < ij.0 ==> is_unicode_space(#[trigger] s[k]),
        forall|k: int| ij.1 <= k < s.len() ==> is_unicode_space(#[trigger] s[k]),
        ij.0 < s.len() ==> !is_unicode_space(s[ij.0]),
        ij.0 < ij.1 ==> !is_unicode_space(s[ij.0]) && !is_unicode_space(s[ij.1 - 1]),
{
    let i = lemma_trim_start_range(s);
    let t = s.subrange(i, s.len() as int);
    let j = lemma_trim_end_range(t);
    assert(t.subrange(0, j) =~= s.subrange(i, i + j));
    assert forall|k: int| i + j <= k < s.len() implies is_unicode_space(#[trigger] s[k]) by {
        assert(s[k] == t[k - i]);
    }
    if j > 0 {
        assert(s[i + j - 1] == t[j - 1]);
    }
    (i, i + j)
}

/// A string that neither starts nor ends with white space is its own trim.
pub proof fn lemma_trim_unchanged(s: Seq<char>)
    requires
        s.len() == 0 || (!is_unicode_space(s[0]) && !is_unicode_space(s.last())),
    ensures
        spec_trim(s) == s,
{
    let ij = lemma_trim_range(s);
    if s.len() > 0 {
        assert(ij.0 == 0);
        assert(ij.1 == s.len());
    }
    assert(s.subrange(ij.0, ij.1) =~= s);
}

/// Removes the Unicode white space at both ends of a string, as `str::trim` does.
pub fn trim(s: &str) -> (r: &str)
    ensures
        r@ == spec_trim(s@),
        (s@.len() == 0 || (is_graphic_ascii(s@[0]) && is_graphic_ascii(s@.last()))) ==> r@ == s@,
{
    let n = s.unicode_len();
    let mut i: usize = 0;
    while i < n && is_space_char(s.get_char(i))
        invariant
            n == s@.len(),
            i <= n,
            forall|k: int| 0 <= k < i ==> is_unicode_space(#[trigger] s@[k]),
        decreases n - i,
    {
        i = i + 1;
    }
    let mut j: usize = n;
    while j > i && is_space_char(s.get_char(j - 1))
        invariant
            n == s@.len(),
            i <= j <= n,
            forall|k: int| j <= k < n ==> is_unicode_space(#[trigger] s@[k]),
        decreases j - i,
    {
        j = j - 1;
    }
    proof {
        let ij = lemma_trim_range(s@);
        if i < n {
            assert(!is_unicode_space(s@[i as int]));
        }
        assert(ij.0 == i);
        if j > i {
            assert(!is_unicode_space(s@[j - 1]));
            assert(ij.1 == j);
        } else {
            assert(ij.0 == ij.1 || ij.1 - 1 >= i);
        }
    }
    let r = s.substring_char(i, j);
    proof {
        let ij = lemma_trim_range(s@);
        if i < j {
            assert(s@.subrange(ij.0, ij.1) =~= s@.subrange(i as int, j as int));
        } else {
            assert(s@.subrange(ij.0, ij.1) =~= s@.subrange(i as int, j as int));
        }
        if s@.len() == 0 || (is_graphic_ascii(s@[0]) && is_graphic_ascii(s@.last())) {
            lemma_trim_unchanged(s@);
        }
    }
    r
}

/// Characters whose Unicode lowercase mapping is plain: ASCII (capital letters map
/// to small ones, every other ASCII character to itself) and the CJK unified
/// ideographs U+4E00–U+9FFF, which have no case and map to themselves.
pub open spec fn has_plain_case(c: char) -> bool {
    (c as u32) < 0x80 || (0x4E00 <= (c as u32) <= 0x9FFF)
}

/// The lowercase of a character whose case is plain.
pub open spec fn plain_lower(c: char) -> char {
    if 'A' <= c <= 'Z' {
        ((c as u32) + 32) as char
    } else {
        c
    }
}

/// Whether every character of a string has a plain case.
pub open spec fn all_plain_case(s: Seq<char>) -> bool {
    forall|i: int| 0 <= i < s.len() ==> #[trigger] has_plain_case(s[i])
}

/// What `str::to_lowercase` returns for a string: its Unicode lowercase mapping.
pub uninterp spec fn spec_lowercase(s: Seq<char>) -> Seq<char>;

/// `str::to_lowercase`: the Unicode lowercase mapping of a string.
/// Stated: the result is the named mapping of the input; on a string made only of
/// ASCII and CJK unified ideographs the mapping turns A–Z into a–z and keeps every
/// other character, and lowercasing that result again gives it back unchanged.
/// Not stated: the mapping of any other character (Unicode casing data).
#[verifier::external_body]
pub fn to_lowercase(s: &str) -> (r: String)
    ensures
        r@ == spec_lowercase(s@),
        (forall|i: int| 0 <= i < s@.len() ==> #[trigger] is_plain_ascii(s@[i])) ==> r@ == s@,
        all_plain_case(s@) ==> r@ == s@.map_values(|c: char| plain_lower(c)),
        all_plain_case(s@) ==> spec_lowercase(r@) == r@,
{
    s.to_lowercase()
}

pub open spec fn is_digit(c: char) -> bool {
    '0' <= c <= '9'
}

pub open spec fn digit_value(c: char) -> nat {
    (c as int - '0' as int) as nat
}

/// The value of a string of decimal digits.
pub open spec fn digits_value(s: Seq<char>) -> nat
    decreases s.len(),
{
    if s.len() == 0 {
        0
    } else {
        digits_value(s.drop_last()) * 10 + digit_value(s.last())
    }
}

pub open spec fn all_digits(s: Seq<char>) -> bool {
    forall|i: int| 0 <= i < s.len() ==> #[trigger] is_digit(s[i])
}

/// What `str::parse::<u16>` accepts: an optional `+`, then one or more decimal
/// digits whose value fits in 16 bits.
pub open spec fn spec_parse_u16(s: Seq<char>) -> Option<u16> {
    let body = if s.len() > 0 && s[0] == '+' { s.drop_first() } else { s };
    if body.len() > 0 && all_digits(body) && digits_value(body) <= 0xFFFF {
        Some(digits_value(body) as u16)
    } else {
        None
    }
}

proof fn lemma_digits_value_grows(s: Seq<char>, c: char)
    requires
        is_digit(c),
    ensures
        digits_value(s.push(c)) >= digits_value(s),
        digits_value(s.push(c)) == digits_value(s) * 10 + digit_value(c),
{
    assert(s.push(c).drop_last() =~= s);
}

/// Parses a decimal `u16` the way `str::parse::<u16>` does.
pub fn parse_u16(s: &str) -> (r: Option<u16>)
    ensures
        r == spec_parse_u16(s@),
{
    let n = s.unicode_len();
    let start: usize = if n > 0 && s.get_char(0) == '+' { 1 } else { 0 };
    let ghost body = if s@.len() > 0 && s@[0] == '+' { s@.drop_first() } else { s@ };
    assert(body =~= s@.subrange(start as int, s@.len() as int));
    if start >= n {
        return None;
    }
    let mut acc: u32 = 0;
    let mut big = false;
    let mut i = start;
    while i < n
        invariant
            start <= i <= n,
            n == s@.len(),
            start < n,
            body =~= s@.subrange(start as int, n as int),
            body == (if s@.len() > 0 && s@[0] == '+' { s@.drop_first() } else { s@ }),
            all_digits(s@.subrange(start as int, i as int)),
            big ==> digits_value(s@.subrange(start as int, i as int)) > 0xFFFF,
            !big ==> acc == digits_value(s@.subrange(start as int, i as int)) && acc <= 0xFFFF,
        decreases n - i,
    {
        let c = s.get_char(i);
        if !('0' <= c && c <= '9') {
            assert(!is_digit(body[i - start]));
            return None;
        }
        let ghost pre = s@.subrange(start as int, i as int);
        proof {
            assert(s@.subrange(start as int, i + 1) =~= pre.push(c));
            lemma_digits_value_grows(pre, c);
        }
        if !big {
            let d = (c as u32) - ('0' as u32);
            acc = acc * 10 + d;
            if acc > 0xFFFF {
                big = true;
            }
        }
        i += 1;
    }
    if big {
        None
    } else {
        Some(acc as u16)
    }
}

/// What `str::parse::<u8>` accepts: the same text as for `u16`, with a value that
/// fits in 8 bits.
pub open spec fn spec_parse_u8(s: Seq<char>) -> Option<u8> {
    match spec_parse_u16(s) {
        Some(v) => if v <= 255 {
            Some(v as u8)
        } else {
            None
        },
        None => None,
    }
}

/// Parses a decimal `u8` the way `str::parse::<u8>` does.
pub fn parse_u8(s: &str) -> (r: Option<u8>)
    ensures
        r == spec_parse_u8(s@),
{
    match parse_u16(s) {
        Some(v) => if v <= 255 {
            Some(v as u8)
        } else {
            None
        },
        None => None,
    }
}

/// Decimal digits read back as the number they render.
pub proof fn lemma_dec_digits_parse(n: nat)
    ensures
        all_digits(dec_digits(n)),
        digits_value(dec_digits(n)) == n,
        dec_digits(n).len() > 0,
        dec_digits(n)[0] != '+',
        n <= 0xFFFF ==> spec_parse_u16(dec_digits(n)) == Some(n as u16),
    decreases n,
{
    if n < 10 {
        let d = dec_digits(n);
        assert(d == seq![hex_char(n)]);
        assert(is_digit(hex_char(n)) && digit_value(hex_char(n)) == n);
        assert(d.drop_last() =~= Seq::<char>::empty());
        assert(digits_value(d.drop_last()) == 0);
        assert(d.last() == hex_char(n));
        assert(digits_value(d) == n);
    } else {
        lemma_dec_digits_parse(n / 10);
        let d = dec_digits(n);
        let c = hex_char(n % 10);
        assert(is_digit(c) && digit_value(c) == n % 10);
        assert(d == dec_digits(n / 10).push(c));
        assert(d.drop_last() =~= dec_digits(n / 10));
        assert(d.last() == c);
        assert(digits_value(d) == digits_value(dec_digits(n / 10)) * 10 + digit_value(c));
        assert(n == (n / 10) * 10 + n % 10);
        assert(d[0] == dec_digits(n / 10)[0]);
        assert forall|i: int| 0 <= i < d.len() implies #[trigger] is_digit(d[i]) by {
            if i < d.len() - 1 {
                assert(d[i] == dec_digits(n / 10)[i]);
            }
        }
    }
    let d = dec_digits(n);
    if n <= 0xFFFF {
        assert(!(d.len() > 0 && d[0] == '+'));
        assert(digits_value(d) == n);
    }
}

/// The parts joined with `sep` between consecutive parts.
pub open spec fn seq_join(parts: Seq<Seq<char>>, sep: Seq<char>) -> Seq<char>
    decreases parts.len(),
{
    if parts.len() == 0 {
        Seq::empty()
    } else if parts.len() == 1 {
        parts[0]
    } else {
        seq_join(parts.drop_last(), sep) + sep + parts.last()
    }
}

/// The views of a list of strings.
pub open spec fn string_views(v: Seq<String>) -> Seq<Seq<char>> {
    v.map_values(|s: String| s@)
}

/// Joins strings with a separator, as `join` does.
pub fn join(parts: &Vec<String>, sep: &str) -> (r: String)
    ensures
        r@ == seq_join(string_views(parts@), sep@),
{
    let mut r = String::new();
    let ghost views = string_views(parts@);
    let mut i: usize = 0;
    while i < parts.len()
        invariant
            i <= parts@.len(),
            views == string_views(parts@),
            r@ == seq_join(views.take(i as int), sep@),
        decreases parts@.len() - i,
    {
        if i != 0 {
            r.append(sep);
        }
        r.append(parts[i].as_str());
        proof {
            assert(views.take(i + 1).drop_last() =~= views.take(i as int));
        }
        i += 1;
    }
    assert(views.take(parts@.len() as int) =~= views);
    r
}

} // verus!
