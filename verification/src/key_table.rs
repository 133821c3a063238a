//! The virtual key codes of key names, and the names of key codes.
use crate::text::is_plain_ascii;
use vstd::prelude::*;

verus! {

/// Whether a text is the 1-character word `c0`.
fn spelled1(s: &str, c0: char) -> (r: bool)
    ensures
        r == (s@ == seq![c0]),
{
    if s.unicode_len() != 1 {
        return false;
    }
    let r = s.get_char(0) == c0;
    if r {
        assert(s@ =~= seq![c0]);
    }
    r
}

/// Whether a text is the 2-character word `c0, c1`.
fn spelled2(s: &str, c0: char, c1: char) -> (r: bool)
    ensures
        r == (s@ == seq![c0, c1]),
{
    if s.unicode_len() != 2 {
        return false;
    }
    let r = s.get_char(0) == c0 && s.get_char(1) == c1;
    if r {
        assert(s@ =~= seq![c0, c1]);
    }
    r
}

/// Whether a text is the 3-character word `c0, c1, c2`.
fn spelled3(s: &str, c0: char, c1: char, c2: char) -> (r: bool)
    ensures
        r == (s@ == seq![c0, c1, c2]),
{
    if s.unicode_len() != 3 {
        return false;
    }
    let r = s.get_char(0) == c0 && s.get_char(1) == c1 && s.get_char(2) == c2;
    if r {
        assert(s@ =~= seq![c0, c1, c2]);
    }
    r
}

/// Whether a text is the 4-character word `c0, c1, c2, c3`.
fn spelled4(s: &str, c0: char, c1: char, c2: char, c3: char) -> (r: bool)
    ensures
        r == (s@ == seq![c0, c1, c2, c3]),
{
    if s.unicode_len() != 4 {
        return false;
    }
    let r = s.get_char(0) == c0 && s.get_char(1) == c1 && s.get_char(2) == c2 && s.get_char(3) == c3;
    if r {
        assert(s@ =~= seq![c0, c1, c2, c3]);
    }
    r
}

/// Whether a text is the 5-character word `c0, c1, c2, c3, c4`.
fn spelled5(s: &str, c0: char, c1: char, c2: char, c3: char, c4: char) -> (r: bool)
    ensures
        r == (s@ == seq![c0, c1, c2, c3, c4]),
{
    if s.unicode_len() != 5 {
        return false;
    }
    let r = s.get_char(0) == c0 && s.get_char(1) == c1 && s.get_char(2) == c2 && s.get_char(3) == c3 && s.get_char(4) == c4;
    if r {
        assert(s@ =~= seq![c0, c1, c2, c3, c4]);
    }
    r
}

/// Whether a text is the 6-character word `c0, c1, c2, c3, c4, c5`.
fn spelled6(s: &str, c0: char, c1: char, c2: char, c3: char, c4: char, c5: char) -> (r: bool)
    ensures
        r == (s@ == seq![c0, c1, c2, c3, c4, c5]),
{
    if s.unicode_len() != 6 {
        return false;
    }
    let r = s.get_char(0) == c0 && s.get_char(1) == c1 && s.get_char(2) == c2 && s.get_char(3) == c3 && s.get_char(4) == c4 && s.get_char(5) == c5;
    if r {
        assert(s@ =~= seq![c0, c1, c2, c3, c4, c5]);
    }
    r
}

/// Whether a text is the 8-character word `c0, c1, c2, c3, c4, c5, c6, c7`.
fn spelled8(s: &str, c0: char, c1: char, c2: char, c3: char, c4: char, c5: char, c6: char, c7: char) -> (r: bool)
    ensures
        r == (s@ == seq![c0, c1, c2, c3, c4, c5, c6, c7]),
{
    if s.unicode_len() != 8 {
        return false;
    }
    let r = s.get_char(0) == c0 && s.get_char(1) == c1 && s.get_char(2) == c2 && s.get_char(3) == c3 && s.get_char(4) == c4 && s.get_char(5) == c5 && s.get_char(6) == c6 && s.get_char(7) == c7;
    if r {
        assert(s@ =~= seq![c0, c1, c2, c3, c4, c5, c6, c7]);
    }
    r
}

/// Whether a text is the 9-character word `c0, c1, c2, c3, c4, c5, c6, c7, c8`.
fn spelled9(s: &str, c0: char, c1: char, c2: char, c3: char, c4: char, c5: char, c6: char, c7: char, c8: char) -> (r: bool)
    ensures
        r == (s@ == seq![c0, c1, c2, c3, c4, c5, c6, c7, c8]),
{
    if s.unicode_len() != 9 {
        return false;
    }
    let r = s.get_char(0) == c0 && s.get_char(1) == c1 && s.get_char(2) == c2 && s.get_char(3) == c3 && s.get_char(4) == c4 && s.get_char(5) == c5 && s.get_char(6) == c6 && s.get_char(7) == c7 && s.get_char(8) == c8;
    if r {
        assert(s@ =~= seq![c0, c1, c2, c3, c4, c5, c6, c7, c8]);
    }
    r
}

/// Whether a text is the 12-character word `c0, c1, c2, c3, c4, c5, c6, c7, c8, c9, c10, c11`.
fn spelled12(s: &str, c0: char, c1: char, c2: char, c3: char, c4: char, c5: char, c6: char, c7: char, c8: char, c9: char, c10: char, c11: char) -> (r: bool)
    ensures
        r == (s@ == seq![c0, c1, c2, c3, c4, c5, c6, c7, c8, c9, c10, c11]),
{
    if s.unicode_len() != 12 {
        return false;
    }
    let r = s.get_char(0) == c0 && s.get_char(1) == c1 && s.get_char(2) == c2 && s.get_char(3) == c3 && s.get_char(4) == c4 && s.get_char(5) == c5 && s.get_char(6) == c6 && s.get_char(7) == c7 && s.get_char(8) == c8 && s.get_char(9) == c9 && s.get_char(10) == c10 && s.get_char(11) == c11;
    if r {
        assert(s@ =~= seq![c0, c1, c2, c3, c4, c5, c6, c7, c8, c9, c10, c11]);
    }
    r
}

/// Whether a text is the 13-character word `c0, c1, c2, c3, c4, c5, c6, c7, c8, c9, c10, c11, c12`.
fn spelled13(s: &str, c0: char, c1: char, c2: char, c3: char, c4: char, c5: char, c6: char, c7: char, c8: char, c9: char, c10: char, c11: char, c12: char) -> (r: bool)
    ensures
        r == (s@ == seq![c0, c1, c2, c3, c4, c5, c6, c7, c8, c9, c10, c11, c12]),
{
    if s.unicode_len() != 13 {
        return false;
    }
    let r = s.get_char(0) == c0 && s.get_char(1) == c1 && s.get_char(2) == c2 && s.get_char(3) == c3 && s.get_char(4) == c4 && s.get_char(5) == c5 && s.get_char(6) == c6 && s.get_char(7) == c7 && s.get_char(8) == c8 && s.get_char(9) == c9 && s.get_char(10) == c10 && s.get_char(11) == c11 && s.get_char(12) == c12;
    if r {
        assert(s@ =~= seq![c0, c1, c2, c3, c4, c5, c6, c7, c8, c9, c10, c11, c12]);
    }
    r
}

/// The virtual key code of a key name (lowercase).
pub open spec fn spec_keycode(name: Seq<char>) -> Option<u16> {
    if name == seq!['0'] {
        Some(29)
    } else if name == seq!['1'] {
        Some(18)
    } else if name == seq!['2'] {
        Some(19)
    } else if name == seq!['3'] {
        Some(20)
    } else if name == seq!['4'] {
        Some(21)
    } else if name == seq!['5'] {
        Some(23)
    } else if name == seq!['6'] {
        Some(22)
    } else if name == seq!['7'] {
        Some(26)
    } else if name == seq!['8'] {
        Some(28)
    } else if name == seq!['9'] {
        Some(25)
    } else if name == seq!['a'] {
        Some(0)
    } else if name == seq!['b'] {
        Some(11)
    } else if name == seq!['b', 'a', 'c', 'k', 's', 'l', 'a', 's', 'h'] {
        Some(42)
    } else if name == seq!['b', 'r', 'a', 'c', 'k', 'e', 't', '_', 'l', 'e', 'f', 't'] {
        Some(33)
    } else if name == seq!['b', 'r', 'a', 'c', 'k', 'e', 't', '_', 'r', 'i', 'g', 'h', 't'] {
        Some(30)
    } else if name == seq!['c'] {
        Some(8)
    } else if name == seq!['c', 'o', 'm', 'm', 'a'] {
        Some(43)
    } else if name == seq!['d'] {
        Some(2)
    } else if name == seq!['d', 'e', 'l', 'e', 't', 'e'] {
        Some(51)
    } else if name == seq!['d', 'o', 'w', 'n'] {
        Some(125)
    } else if name == seq!['e'] {
        Some(14)
    } else if name == seq!['e', 'n', 'd'] {
        Some(119)
    } else if name == seq!['e', 'n', 't', 'e', 'r'] {
        Some(36)
    } else if name == seq!['e', 'q', 'u', 'a', 'l'] {
        Some(24)
    } else if name == seq!['e', 's', 'c'] {
        Some(53)
    } else if name == seq!['f'] {
        Some(3)
    } else if name == seq!['f', '1'] {
        Some(122)
    } else if name == seq!['f', '1', '0'] {
        Some(109)
    } else if name == seq!['f', '1', '1'] {
        Some(103)
    } else if name == seq!['f', '1', '2'] {
        Some(111)
    } else if name == seq!['f', '1', '3'] {
        Some(105)
    } else if name == seq!['f', '1', '4'] {
        Some(107)
    } else if name == seq!['f', '1', '5'] {
        Some(113)
    } else if name == seq!['f', '2'] {
        Some(120)
    } else if name == seq!['f', '3'] {
        Some(99)
    } else if name == seq!['f', '4'] {
        Some(118)
    } else if name == seq!['f', '5'] {
        Some(96)
    } else if name == seq!['f', '6'] {
        Some(97)
    } else if name == seq!['f', '7'] {
        Some(98)
    } else if name == seq!['f', '8'] {
        Some(100)
    } else if name == seq!['f', '9'] {
        Some(101)
    } else if name == seq!['f', 'o', 'r', 'w', 'a', 'r', 'd', 'd', 'e', 'l', 'e', 't', 'e'] {
        Some(117)
    } else if name == seq!['g'] {
        Some(5)
    } else if name == seq!['g', 'r', 'a', 'v', 'e'] {
        Some(50)
    } else if name == seq!['h'] {
        Some(4)
    } else if name == seq!['h', 'o', 'm', 'e'] {
        Some(115)
    } else if name == seq!['i'] {
        Some(34)
    } else if name == seq!['j'] {
        Some(38)
    } else if name == seq!['k'] {
        Some(40)
    } else if name == seq!['l'] {
        Some(37)
    } else if name == seq!['l', 'e', 'f', 't'] {
        Some(123)
    } else if name == seq!['m'] {
        Some(46)
    } else if name == seq!['m', 'i', 'n', 'u', 's'] {
        Some(27)
    } else if name == seq!['n'] {
        Some(45)
    } else if name == seq!['o'] {
        Some(31)
    } else if name == seq!['p'] {
        Some(35)
    } else if name == seq!['p', 'a', 'g', 'e', 'd', 'o', 'w', 'n'] {
        Some(121)
    } else if name == seq!['p', 'a', 'g', 'e', 'u', 'p'] {
        Some(116)
    } else if name == seq!['p', 'e', 'r', 'i', 'o', 'd'] {
        Some(47)
    } else if name == seq!['q'] {
        Some(12)
    } else if name == seq!['q', 'u', 'o', 't', 'e'] {
        Some(39)
    } else if name == seq!['r'] {
        Some(15)
    } else if name == seq!['r', 'e', 't', 'u', 'r', 'n'] {
        Some(36)
    } else if name == seq!['r', 'i', 'g', 'h', 't'] {
        Some(124)
    } else if name == seq!['s'] {
        Some(1)
    } else if name == seq!['s', 'e', 'm', 'i', 'c', 'o', 'l', 'o', 'n'] {
        Some(41)
    } else if name == seq!['s', 'l', 'a', 's', 'h'] {
        Some(44)
    } else if name == seq!['s', 'p', 'a', 'c', 'e'] {
        Some(49)
    } else if name == seq!['t'] {
        Some(17)
    } else if name == seq!['t', 'a', 'b'] {
        Some(48)
    } else if name == seq!['u'] {
        Some(32)
    } else if name == seq!['u', 'p'] {
        Some(126)
    } else if name == seq!['v'] {
        Some(9)
    } else if name == seq!['w'] {
        Some(13)
    } else if name == seq!['x'] {
        Some(7)
    } else if name == seq!['y'] {
        Some(16)
    } else if name == seq!['z'] {
        Some(6)
    } else {
        None
    }
}

/// Looks up the virtual key code of a key name.
#[verifier::rlimit(100)]
pub fn keycode(name: &str) -> (r: Option<u16>)
    ensures
        r == spec_keycode(name@),
{
    if spelled1(name, '0') {
        Some(29)
    } else if spelled1(name, '1') {
        Some(18)
    } else if spelled1(name, '2') {
        Some(19)
    } else if spelled1(name, '3') {
        Some(20)
    } else if spelled1(name, '4') {
        Some(21)
    } else if spelled1(name, '5') {
        Some(23)
    } else if spelled1(name, '6') {
        Some(22)
    } else if spelled1(name, '7') {
        Some(26)
    } else if spelled1(name, '8') {
        Some(28)
    } else if spelled1(name, '9') {
        Some(25)
    } else if spelled1(name, 'a') {
        Some(0)
    } else if spelled1(name, 'b') {
        Some(11)
    } else if spelled9(name, 'b', 'a', 'c', 'k', 's', 'l', 'a', 's', 'h') {
        Some(42)
    } else if spelled12(name, 'b', 'r', 'a', 'c', 'k', 'e', 't', '_', 'l', 'e', 'f', 't') {
        Some(33)
    } else if spelled13(name, 'b', 'r', 'a', 'c', 'k', 'e', 't', '_', 'r', 'i', 'g', 'h', 't') {
        Some(30)
    } else if spelled1(name, 'c') {
        Some(8)
    } else if spelled5(name, 'c', 'o', 'm', 'm', 'a') {
        Some(43)
    } else if spelled1(name, 'd') {
        Some(2)
    } else if spelled6(name, 'd', 'e', 'l', 'e', 't', 'e') {
        Some(51)
    } else if spelled4(name, 'd', 'o', 'w', 'n') {
        Some(125)
    } else if spelled1(name, 'e') {
        Some(14)
    } else if spelled3(name, 'e', 'n', 'd') {
        Some(119)
    } else if spelled5(name, 'e', 'n', 't', 'e', 'r') {
        Some(36)
    } else if spelled5(name, 'e', 'q', 'u', 'a', 'l') {
        Some(24)
    } else if spelled3(name, 'e', 's', 'c') {
        Some(53)
    } else if spelled1(name, 'f') {
        Some(3)
    } else if spelled2(name, 'f', '1') {
        Some(122)
    } else if spelled3(name, 'f', '1', '0') {
        Some(109)
    } else if spelled3(name, 'f', '1', '1') {
        Some(103)
    } else if spelled3(name, 'f', '1', '2') {
        Some(111)
    } else if spelled3(name, 'f', '1', '3') {
        Some(105)
    } else if spelled3(name, 'f', '1', '4') {
        Some(107)
    } else if spelled3(name, 'f', '1', '5') {
        Some(113)
    } else if spelled2(name, 'f', '2') {
        Some(120)
    } else if spelled2(name, 'f', '3') {
        Some(99)
    } else if spelled2(name, 'f', '4') {
        Some(118)
    } else if spelled2(name, 'f', '5') {
        Some(96)
    } else if spelled2(name, 'f', '6') {
        Some(97)
    } else if spelled2(name, 'f', '7') {
        Some(98)
    } else if spelled2(name, 'f', '8') {
        Some(100)
    } else if spelled2(name, 'f', '9') {
        Some(101)
    } else if spelled13(name, 'f', 'o', 'r', 'w', 'a', 'r', 'd', 'd', 'e', 'l', 'e', 't', 'e') {
        Some(117)
    } else if spelled1(name, 'g') {
        Some(5)
    } else if spelled5(name, 'g', 'r', 'a', 'v', 'e') {
        Some(50)
    } else if spelled1(name, 'h') {
        Some(4)
    } else if spelled4(name, 'h', 'o', 'm', 'e') {
        Some(115)
    } else if spelled1(name, 'i') {
        Some(34)
    } else if spelled1(name, 'j') {
        Some(38)
    } else if spelled1(name, 'k') {
        Some(40)
    } else if spelled1(name, 'l') {
        Some(37)
    } else if spelled4(name, 'l', 'e', 'f', 't') {
        Some(123)
    } else if spelled1(name, 'm') {
        Some(46)
    } else if spelled5(name, 'm', 'i', 'n', 'u', 's') {
        Some(27)
    } else if spelled1(name, 'n') {
        Some(45)
    } else if spelled1(name, 'o') {
        Some(31)
    } else if spelled1(name, 'p') {
        Some(35)
    } else if spelled8(name, 'p', 'a', 'g', 'e', 'd', 'o', 'w', 'n') {
        Some(121)
    } else if spelled6(name, 'p', 'a', 'g', 'e', 'u', 'p') {
        Some(116)
    } else if spelled6(name, 'p', 'e', 'r', 'i', 'o', 'd') {
        Some(47)
    } else if spelled1(name, 'q') {
        Some(12)
    } else if spelled5(name, 'q', 'u', 'o', 't', 'e') {
        Some(39)
    } else if spelled1(name, 'r') {
        Some(15)
    } else if spelled6(name, 'r', 'e', 't', 'u', 'r', 'n') {
        Some(36)
    } else if spelled5(name, 'r', 'i', 'g', 'h', 't') {
        Some(124)
    } else if spelled1(name, 's') {
        Some(1)
    } else if spelled9(name, 's', 'e', 'm', 'i', 'c', 'o', 'l', 'o', 'n') {
        Some(41)
    } else if spelled5(name, 's', 'l', 'a', 's', 'h') {
        Some(44)
    } else if spelled5(name, 's', 'p', 'a', 'c', 'e') {
        Some(49)
    } else if spelled1(name, 't') {
        Some(17)
    } else if spelled3(name, 't', 'a', 'b') {
        Some(48)
    } else if spelled1(name, 'u') {
        Some(32)
    } else if spelled2(name, 'u', 'p') {
        Some(126)
    } else if spelled1(name, 'v') {
        Some(9)
    } else if spelled1(name, 'w') {
        Some(13)
    } else if spelled1(name, 'x') {
        Some(7)
    } else if spelled1(name, 'y') {
        Some(16)
    } else if spelled1(name, 'z') {
        Some(6)
    } else {
        None
    }
}

/// The name of a virtual key code (the first of its names).
pub open spec fn spec_keycode_name(code: u16) -> Option<Seq<char>> {
    if code == 29 {
        Some(seq!['0'])
    } else if code == 18 {
        Some(seq!['1'])
    } else if code == 19 {
        Some(seq!['2'])
    } else if code == 20 {
        Some(seq!['3'])
    } else if code == 21 {
        Some(seq!['4'])
    } else if code == 23 {
        Some(seq!['5'])
    } else if code == 22 {
        Some(seq!['6'])
    } else if code == 26 {
        Some(seq!['7'])
    } else if code == 28 {
        Some(seq!['8'])
    } else if code == 25 {
        Some(seq!['9'])
    } else if code == 0 {
        Some(seq!['a'])
    } else if code == 11 {
        Some(seq!['b'])
    } else if code == 42 {
        Some(seq!['b', 'a', 'c', 'k', 's', 'l', 'a', 's', 'h'])
    } else if code == 33 {
        Some(seq!['b', 'r', 'a', 'c', 'k', 'e', 't', '_', 'l', 'e', 'f', 't'])
    } else if code == 30 {
        Some(seq!['b', 'r', 'a', 'c', 'k', 'e', 't', '_', 'r', 'i', 'g', 'h', 't'])
    } else if code == 8 {
        Some(seq!['c'])
    } else if code == 43 {
        Some(seq!['c', 'o', 'm', 'm', 'a'])
    } else if code == 2 {
        Some(seq!['d'])
    } else if code == 51 {
        Some(seq!['d', 'e', 'l', 'e', 't', 'e'])
    } else if code == 125 {
        Some(seq!['d', 'o', 'w', 'n'])
    } else if code == 14 {
        Some(seq!['e'])
    } else if code == 119 {
        Some(seq!['e', 'n', 'd'])
    } else if code == 24 {
        Some(seq!['e', 'q', 'u', 'a', 'l'])
    } else if code == 53 {
        Some(seq!['e', 's', 'c'])
    } else if code == 3 {
        Some(seq!['f'])
    } else if code == 122 {
        Some(seq!['f', '1'])
    } else if code == 109 {
        Some(seq!['f', '1', '0'])
    } else if code == 103 {
        Some(seq!['f', '1', '1'])
    } else if code == 111 {
        Some(seq!['f', '1', '2'])
    } else if code == 105 {
        Some(seq!['f', '1', '3'])
    } else if code == 107 {
        Some(seq!['f', '1', '4'])
    } else if code == 113 {
        Some(seq!['f', '1', '5'])
    } else if code == 120 {
        Some(seq!['f', '2'])
    } else if code == 99 {
        Some(seq!['f', '3'])
    } else if code == 118 {
        Some(seq!['f', '4'])
    } else if code == 96 {
        Some(seq!['f', '5'])
    } else if code == 97 {
        Some(seq!['f', '6'])
    } else if code == 98 {
        Some(seq!['f', '7'])
    } else if code == 100 {
        Some(seq!['f', '8'])
    } else if code == 101 {
        Some(seq!['f', '9'])
    } else if code == 117 {
        Some(seq!['f', 'o', 'r', 'w', 'a', 'r', 'd', 'd', 'e', 'l', 'e', 't', 'e'])
    } else if code == 5 {
        Some(seq!['g'])
    } else if code == 50 {
        Some(seq!['g', 'r', 'a', 'v', 'e'])
    } else if code == 4 {
        Some(seq!['h'])
    } else if code == 115 {
        Some(seq!['h', 'o', 'm', 'e'])
    } else if code == 34 {
        Some(seq!['i'])
    } else if code == 38 {
        Some(seq!['j'])
    } else if code == 40 {
        Some(seq!['k'])
    } else if code == 37 {
        Some(seq!['l'])
    } else if code == 123 {
        Some(seq!['l', 'e', 'f', 't'])
    } else if code == 46 {
        Some(seq!['m'])
    } else if code == 27 {
        Some(seq!['m', 'i', 'n', 'u', 's'])
    } else if code == 45 {
        Some(seq!['n'])
    } else if code == 31 {
        Some(seq!['o'])
    } else if code == 35 {
        Some(seq!['p'])
    } else if code == 121 {
        Some(seq!['p', 'a', 'g', 'e', 'd', 'o', 'w', 'n'])
    } else if code == 116 {
        Some(seq!['p', 'a', 'g', 'e', 'u', 'p'])
    } else if code == 47 {
        Some(seq!['p', 'e', 'r', 'i', 'o', 'd'])
    } else if code == 12 {
        Some(seq!['q'])
    } else if code == 39 {
        Some(seq!['q', 'u', 'o', 't', 'e'])
    } else if code == 15 {
        Some(seq!['r'])
    } else if code == 36 {
        Some(seq!['r', 'e', 't', 'u', 'r', 'n'])
    } else if code == 124 {
        Some(seq!['r', 'i', 'g', 'h', 't'])
    } else if code == 1 {
        Some(seq!['s'])
    } else if code == 41 {
        Some(seq!['s', 'e', 'm', 'i', 'c', 'o', 'l', 'o', 'n'])
    } else if code == 44 {
        Some(seq!['s', 'l', 'a', 's', 'h'])
    } else if code == 49 {
        Some(seq!['s', 'p', 'a', 'c', 'e'])
    } else if code == 17 {
        Some(seq!['t'])
    } else if code == 48 {
        Some(seq!['t', 'a', 'b'])
    } else if code == 32 {
        Some(seq!['u'])
    } else if code == 126 {
        Some(seq!['u', 'p'])
    } else if code == 9 {
        Some(seq!['v'])
    } else if code == 13 {
        Some(seq!['w'])
    } else if code == 7 {
        Some(seq!['x'])
    } else if code == 16 {
        Some(seq!['y'])
    } else if code == 6 {
        Some(seq!['z'])
    } else {
        None
    }
}

/// Looks up the name of a virtual key code.
pub fn keycode_name(code: u16) -> (r: Option<&'static str>)
    ensures
        match r {
            Some(s) => spec_keycode_name(code) == Some(s@),
            None => spec_keycode_name(code) is None,
        },
{
    if code == 29 {
        proof {
            reveal_strlit("0");
            assert("0"@ =~= seq!['0']);
        }
        Some("0")
    } else if code == 18 {
        proof {
            reveal_strlit("1");
            assert("1"@ =~= seq!['1']);
        }
        Some("1")
    } else if code == 19 {
        proof {
            reveal_strlit("2");
            assert("2"@ =~= seq!['2']);
        }
        Some("2")
    } else if code == 20 {
        proof {
            reveal_strlit("3");
            assert("3"@ =~= seq!['3']);
        }
        Some("3")
    } else if code == 21 {
        proof {
            reveal_strlit("4");
            assert("4"@ =~= seq!['4']);
        }
        Some("4")
    } else if code == 23 {
        proof {
            reveal_strlit("5");
            assert("5"@ =~= seq!['5']);
        }
        Some("5")
    } else if code == 22 {
        proof {
            reveal_strlit("6");
            assert("6"@ =~= seq!['6']);
        }
        Some("6")
    } else if code == 26 {
        proof {
            reveal_strlit("7");
            assert("7"@ =~= seq!['7']);
        }
        Some("7")
    } else if code == 28 {
        proof {
            reveal_strlit("8");
            assert("8"@ =~= seq!['8']);
        }
        Some("8")
    } else if code == 25 {
        proof {
            reveal_strlit("9");
            assert("9"@ =~= seq!['9']);
        }
        Some("9")
    } else if code == 0 {
        proof {
            reveal_strlit("a");
            assert("a"@ =~= seq!['a']);
        }
        Some("a")
    } else if code == 11 {
        proof {
            reveal_strlit("b");
            assert("b"@ =~= seq!['b']);
        }
        Some("b")
    } else if code == 42 {
        proof {
            reveal_strlit("backslash");
            assert("backslash"@ =~= seq!['b', 'a', 'c', 'k', 's', 'l', 'a', 's', 'h']);
        }
        Some("backslash")
    } else if code == 33 {
        proof {
            reveal_strlit("bracket_left");
            assert("bracket_left"@ =~= seq!['b', 'r', 'a', 'c', 'k', 'e', 't', '_', 'l', 'e', 'f', 't']);
        }
        Some("bracket_left")
    } else if code == 30 {
        proof {
            reveal_strlit("bracket_right");
            assert("bracket_right"@ =~= seq!['b', 'r', 'a', 'c', 'k', 'e', 't', '_', 'r', 'i', 'g', 'h', 't']);
        }
        Some("bracket_right")
    } else if code == 8 {
        proof {
            reveal_strlit("c");
            assert("c"@ =~= seq!['c']);
        }
        Some("c")
    } else if code == 43 {
        proof {
            reveal_strlit("comma");
            assert("comma"@ =~= seq!['c', 'o', 'm', 'm', 'a']);
        }
        Some("comma")
    } else if code == 2 {
        proof {
            reveal_strlit("d");
            assert("d"@ =~= seq!['d']);
        }
        Some("d")
    } else if code == 51 {
        proof {
            reveal_strlit("delete");
            assert("delete"@ =~= seq!['d', 'e', 'l', 'e', 't', 'e']);
        }
        Some("delete")
    } else if code == 125 {
        proof {
            reveal_strlit("down");
            assert("down"@ =~= seq!['d', 'o', 'w', 'n']);
        }
        Some("down")
    } else if code == 14 {
        proof {
            reveal_strlit("e");
            assert("e"@ =~= seq!['e']);
        }
        Some("e")
    } else if code == 119 {
        proof {
            reveal_strlit("end");
            assert("end"@ =~= seq!['e', 'n', 'd']);
        }
        Some("end")
    } else if code == 24 {
        proof {
            reveal_strlit("equal");
            assert("equal"@ =~= seq!['e', 'q', 'u', 'a', 'l']);
        }
        Some("equal")
    } else if code == 53 {
        proof {
            reveal_strlit("esc");
            assert("esc"@ =~= seq!['e', 's', 'c']);
        }
        Some("esc")
    } else if code == 3 {
        proof {
            reveal_strlit("f");
            assert("f"@ =~= seq!['f']);
        }
        Some("f")
    } else if code == 122 {
        proof {
            reveal_strlit("f1");
            assert("f1"@ =~= seq!['f', '1']);
        }
        Some("f1")
    } else if code == 109 {
        proof {
            reveal_strlit("f10");
            assert("f10"@ =~= seq!['f', '1', '0']);
        }
        Some("f10")
    } else if code == 103 {
        proof {
            reveal_strlit("f11");
            assert("f11"@ =~= seq!['f', '1', '1']);
        }
        Some("f11")
    } else if code == 111 {
        proof {
            reveal_strlit("f12");
            assert("f12"@ =~= seq!['f', '1', '2']);
        }
        Some("f12")
    } else if code == 105 {
        proof {
            reveal_strlit("f13");
            assert("f13"@ =~= seq!['f', '1', '3']);
        }
        Some("f13")
    } else if code == 107 {
        proof {
            reveal_strlit("f14");
            assert("f14"@ =~= seq!['f', '1', '4']);
        }
        Some("f14")
    } else if code == 113 {
        proof {
            reveal_strlit("f15");
            assert("f15"@ =~= seq!['f', '1', '5']);
        }
        Some("f15")
    } else if code == 120 {
        proof {
            reveal_strlit("f2");
            assert("f2"@ =~= seq!['f', '2']);
        }
        Some("f2")
    } else if code == 99 {
        proof {
            reveal_strlit("f3");
            assert("f3"@ =~= seq!['f', '3']);
        }
        Some("f3")
    } else if code == 118 {
        proof {
            reveal_strlit("f4");
            assert("f4"@ =~= seq!['f', '4']);
        }
        Some("f4")
    } else if code == 96 {
        proof {
            reveal_strlit("f5");
            assert("f5"@ =~= seq!['f', '5']);
        }
        Some("f5")
    } else if code == 97 {
        proof {
            reveal_strlit("f6");
            assert("f6"@ =~= seq!['f', '6']);
        }
        Some("f6")
    } else if code == 98 {
        proof {
            reveal_strlit("f7");
            assert("f7"@ =~= seq!['f', '7']);
        }
        Some("f7")
    } else if code == 100 {
        proof {
            reveal_strlit("f8");
            assert("f8"@ =~= seq!['f', '8']);
        }
        Some("f8")
    } else if code == 101 {
        proof {
            reveal_strlit("f9");
            assert("f9"@ =~= seq!['f', '9']);
        }
        Some("f9")
    } else if code == 117 {
        proof {
            reveal_strlit("forwarddelete");
            assert("forwarddelete"@ =~= seq!['f', 'o', 'r', 'w', 'a', 'r', 'd', 'd', 'e', 'l', 'e', 't', 'e']);
        }
        Some("forwarddelete")
    } else if code == 5 {
        proof {
            reveal_strlit("g");
            assert("g"@ =~= seq!['g']);
        }
        Some("g")
    } else if code == 50 {
        proof {
            reveal_strlit("grave");
            assert("grave"@ =~= seq!['g', 'r', 'a', 'v', 'e']);
        }
        Some("grave")
    } else if code == 4 {
        proof {
            reveal_strlit("h");
            assert("h"@ =~= seq!['h']);
        }
        Some("h")
    } else if code == 115 {
        proof {
            reveal_strlit("home");
            assert("home"@ =~= seq!['h', 'o', 'm', 'e']);
        }
        Some("home")
    } else if code == 34 {
        proof {
            reveal_strlit("i");
            assert("i"@ =~= seq!['i']);
        }
        Some("i")
    } else if code == 38 {
        proof {
            reveal_strlit("j");
            assert("j"@ =~= seq!['j']);
        }
        Some("j")
    } else if code == 40 {
        proof {
            reveal_strlit("k");
            assert("k"@ =~= seq!['k']);
        }
        Some("k")
    } else if code == 37 {
        proof {
            reveal_strlit("l");
            assert("l"@ =~= seq!['l']);
        }
        Some("l")
    } else if code == 123 {
        proof {
            reveal_strlit("left");
            assert("left"@ =~= seq!['l', 'e', 'f', 't']);
        }
        Some("left")
    } else if code == 46 {
        proof {
            reveal_strlit("m");
            assert("m"@ =~= seq!['m']);
        }
        Some("m")
    } else if code == 27 {
        proof {
            reveal_strlit("minus");
            assert("minus"@ =~= seq!['m', 'i', 'n', 'u', 's']);
        }
        Some("minus")
    } else if code == 45 {
        proof {
            reveal_strlit("n");
            assert("n"@ =~= seq!['n']);
        }
        Some("n")
    } else if code == 31 {
        proof {
            reveal_strlit("o");
            assert("o"@ =~= seq!['o']);
        }
        Some("o")
    } else if code == 35 {
        proof {
            reveal_strlit("p");
            assert("p"@ =~= seq!['p']);
        }
        Some("p")
    } else if code == 121 {
        proof {
            reveal_strlit("pagedown");
            assert("pagedown"@ =~= seq!['p', 'a', 'g', 'e', 'd', 'o', 'w', 'n']);
        }
        Some("pagedown")
    } else if code == 116 {
        proof {
            reveal_strlit("pageup");
            assert("pageup"@ =~= seq!['p', 'a', 'g', 'e', 'u', 'p']);
        }
        Some("pageup")
    } else if code == 47 {
        proof {
            reveal_strlit("period");
            assert("period"@ =~= seq!['p', 'e', 'r', 'i', 'o', 'd']);
        }
        Some("period")
    } else if code == 12 {
        proof {
            reveal_strlit("q");
            assert("q"@ =~= seq!['q']);
        }
        Some("q")
    } else if code == 39 {
        proof {
            reveal_strlit("quote");
            assert("quote"@ =~= seq!['q', 'u', 'o', 't', 'e']);
        }
        Some("quote")
    } else if code == 15 {
        proof {
            reveal_strlit("r");
            assert("r"@ =~= seq!['r']);
        }
        Some("r")
    } else if code == 36 {
        proof {
            reveal_strlit("return");
            assert("return"@ =~= seq!['r', 'e', 't', 'u', 'r', 'n']);
        }
        Some("return")
    } else if code == 124 {
        proof {
            reveal_strlit("right");
            assert("right"@ =~= seq!['r', 'i', 'g', 'h', 't']);
        }
        Some("right")
    } else if code == 1 {
        proof {
            reveal_strlit("s");
            assert("s"@ =~= seq!['s']);
        }
        Some("s")
    } else if code == 41 {
        proof {
            reveal_strlit("semicolon");
            assert("semicolon"@ =~= seq!['s', 'e', 'm', 'i', 'c', 'o', 'l', 'o', 'n']);
        }
        Some("semicolon")
    } else if code == 44 {
        proof {
            reveal_strlit("slash");
            assert("slash"@ =~= seq!['s', 'l', 'a', 's', 'h']);
        }
        Some("slash")
    } else if code == 49 {
        proof {
            reveal_strlit("space");
            assert("space"@ =~= seq!['s', 'p', 'a', 'c', 'e']);
        }
        Some("space")
    } else if code == 17 {
        proof {
            reveal_strlit("t");
            assert("t"@ =~= seq!['t']);
        }
        Some("t")
    } else if code == 48 {
        proof {
            reveal_strlit("tab");
            assert("tab"@ =~= seq!['t', 'a', 'b']);
        }
        Some("tab")
    } else if code == 32 {
        proof {
            reveal_strlit("u");
            assert("u"@ =~= seq!['u']);
        }
        Some("u")
    } else if code == 126 {
        proof {
            reveal_strlit("up");
            assert("up"@ =~= seq!['u', 'p']);
        }
        Some("up")
    } else if code == 9 {
        proof {
            reveal_strlit("v");
            assert("v"@ =~= seq!['v']);
        }
        Some("v")
    } else if code == 13 {
        proof {
            reveal_strlit("w");
            assert("w"@ =~= seq!['w']);
        }
        Some("w")
    } else if code == 7 {
        proof {
            reveal_strlit("x");
            assert("x"@ =~= seq!['x']);
        }
        Some("x")
    } else if code == 16 {
        proof {
            reveal_strlit("y");
            assert("y"@ =~= seq!['y']);
        }
        Some("y")
    } else if code == 6 {
        proof {
            reveal_strlit("z");
            assert("z"@ =~= seq!['z']);
        }
        Some("z")
    } else {
        None
    }
}

/// A character that may stand in a key name: printable ASCII without capitals,
/// other than the separator `+` of a combination.
pub open spec fn is_key_char(c: char) -> bool {
    is_plain_ascii(c) && c != '+'
}

} // verus!
