//! Facts about the key table: every named key reads back to its code, is no
//! modifier word, and is spelled with characters a combination can carry.
use crate::key_table::{is_key_char, spec_keycode, spec_keycode_name};
use crate::macro_keys::{is_modifier_name, lemma_modifier_words};
use vstd::prelude::*;

verus! {

/// A named key reads back to its code and is no modifier word.
pub open spec fn named_key_reads_back(code: u16, name: Seq<char>) -> bool {
    spec_keycode(name) == Some(code) && !is_modifier_name(name) && name.len() > 0
}

/// The letters of every key name, so that names are told apart by their letters.
proof fn lemma_spellings()
    ensures
        seq!['0'].len() == 1 && seq!['0'][0] == '0',
        seq!['1'].len() == 1 && seq!['1'][0] == '1',
        seq!['2'].len() == 1 && seq!['2'][0] == '2',
        seq!['3'].len() == 1 && seq!['3'][0] == '3',
        seq!['4'].len() == 1 && seq!['4'][0] == '4',
        seq!['5'].len() == 1 && seq!['5'][0] == '5',
        seq!['6'].len() == 1 && seq!['6'][0] == '6',
        seq!['7'].len() == 1 && seq!['7'][0] == '7',
        seq!['8'].len() == 1 && seq!['8'][0] == '8',
        seq!['9'].len() == 1 && seq!['9'][0] == '9',
        seq!['a'].len() == 1 && seq!['a'][0] == 'a',
        seq!['b'].len() == 1 && seq!['b'][0] == 'b',
        seq!['b', 'a', 'c', 'k', 's', 'l', 'a', 's', 'h'].len() == 9 && seq!['b', 'a', 'c', 'k', 's', 'l', 'a', 's', 'h'][0] == 'b' && seq!['b', 'a', 'c', 'k', 's', 'l', 'a', 's', 'h'][1] == 'a' && seq!['b', 'a', 'c', 'k', 's', 'l', 'a', 's', 'h'][2] == 'c' && seq!['b', 'a', 'c', 'k', 's', 'l', 'a', 's', 'h'][3] == 'k' && seq!['b', 'a', 'c', 'k', 's', 'l', 'a', 's', 'h'][4] == 's' && seq!['b', 'a', 'c', 'k', 's', 'l', 'a', 's', 'h'][5] == 'l' && seq!['b', 'a', 'c', 'k', 's', 'l', 'a', 's', 'h'][6] == 'a' && seq!['b', 'a', 'c', 'k', 's', 'l', 'a', 's', 'h'][7] == 's' && seq!['b', 'a', 'c', 'k', 's', 'l', 'a', 's', 'h'][8] == 'h',
        seq!['b', 'r', 'a', 'c', 'k', 'e', 't', '_', 'l', 'e', 'f', 't'].len() == 12 && seq!['b', 'r', 'a', 'c', 'k', 'e', 't', '_', 'l', 'e', 'f', 't'][0] == 'b' && seq!['b', 'r', 'a', 'c', 'k', 'e', 't', '_', 'l', 'e', 'f', 't'][1] == 'r' && seq!['b', 'r', 'a', 'c', 'k', 'e', 't', '_', 'l', 'e', 'f', 't'][2] == 'a' && seq!['b', 'r', 'a', 'c', 'k', 'e', 't', '_', 'l', 'e', 'f', 't'][3] == 'c' && seq!['b', 'r', 'a', 'c', 'k', 'e', 't', '_', 'l', 'e', 'f', 't'][4] == 'k' && seq!['b', 'r', 'a', 'c', 'k', 'e', 't', '_', 'l', 'e', 'f', 't'][5] == 'e' && seq!['b', 'r', 'a', 'c', 'k', 'e', 't', '_', 'l', 'e', 'f', 't'][6] == 't' && seq!['b', 'r', 'a', 'c', 'k', 'e', 't', '_', 'l', 'e', 'f', 't'][7] == '_' && seq!['b', 'r', 'a', 'c', 'k', 'e', 't', '_', 'l', 'e', 'f', 't'][8] == 'l' && seq!['b', 'r', 'a', 'c', 'k', 'e', 't', '_', 'l', 'e', 'f', 't'][9] == 'e' && seq!['b', 'r', 'a', 'c', 'k', 'e', 't', '_', 'l', 'e', 'f', 't'][10] == 'f' && seq!['b', 'r', 'a', 'c', 'k', 'e', 't', '_', 'l', 'e', 'f', 't'][11] == 't',
        seq!['b', 'r', 'a', 'c', 'k', 'e', 't', '_', 'r', 'i', 'g', 'h', 't'].len() == 13 && seq!['b', 'r', 'a', 'c', 'k', 'e', 't', '_', 'r', 'i', 'g', 'h', 't'][0] == 'b' && seq!['b', 'r', 'a', 'c', 'k', 'e', 't', '_', 'r', 'i', 'g', 'h', 't'][1] == 'r' && seq!['b', 'r', 'a', 'c', 'k', 'e', 't', '_', 'r', 'i', 'g', 'h', 't'][2] == 'a' && seq!['b', 'r', 'a', 'c', 'k', 'e', 't', '_', 'r', 'i', 'g', 'h', 't'][3] == 'c' && seq!['b', 'r', 'a', 'c', 'k', 'e', 't', '_', 'r', 'i', 'g', 'h', 't'][4] == 'k' && seq!['b', 'r', 'a', 'c', 'k', 'e', 't', '_', 'r', 'i', 'g', 'h', 't'][5] == 'e' && seq!['b', 'r', 'a', 'c', 'k', 'e', 't', '_', 'r', 'i', 'g', 'h', 't'][6] == 't' && seq!['b', 'r', 'a', 'c', 'k', 'e', 't', '_', 'r', 'i', 'g', 'h', 't'][7] == '_' && seq!['b', 'r', 'a', 'c', 'k', 'e', 't', '_', 'r', 'i', 'g', 'h', 't'][8] == 'r' && seq!['b', 'r', 'a', 'c', 'k', 'e', 't', '_', 'r', 'i', 'g', 'h', 't'][9] == 'i' && seq!['b', 'r', 'a', 'c', 'k', 'e', 't', '_', 'r', 'i', 'g', 'h', 't'][10] == 'g' && seq!['b', 'r', 'a', 'c', 'k', 'e', 't', '_', 'r', 'i', 'g', 'h', 't'][11] == 'h' && seq!['b', 'r', 'a', 'c', 'k', 'e', 't', '_', 'r', 'i', 'g', 'h', 't'][12] == 't',
        seq!['c'].len() == 1 && seq!['c'][0] == 'c',
        seq!['c', 'o', 'm', 'm', 'a'].len() == 5 && seq!['c', 'o', 'm', 'm', 'a'][0] == 'c' && seq!['c', 'o', 'm', 'm', 'a'][1] == 'o' && seq!['c', 'o', 'm', 'm', 'a'][2] == 'm' && seq!['c', 'o', 'm', 'm', 'a'][3] == 'm' && seq!['c', 'o', 'm', 'm', 'a'][4] == 'a',
        seq!['d'].len() == 1 && seq!['d'][0] == 'd',
        seq!['d', 'e', 'l', 'e', 't', 'e'].len() == 6 && seq!['d', 'e', 'l', 'e', 't', 'e'][0] == 'd' && seq!['d', 'e', 'l', 'e', 't', 'e'][1] == 'e' && seq!['d', 'e', 'l', 'e', 't', 'e'][2] == 'l' && seq!['d', 'e', 'l', 'e', 't', 'e'][3] == 'e' && seq!['d', 'e', 'l', 'e', 't', 'e'][4] == 't' && seq!['d', 'e', 'l', 'e', 't', 'e'][5] == 'e',
        seq!['d', 'o', 'w', 'n'].len() == 4 && seq!['d', 'o', 'w', 'n'][0] == 'd' && seq!['d', 'o', 'w', 'n'][1] == 'o' && seq!['d', 'o', 'w', 'n'][2] == 'w' && seq!['d', 'o', 'w', 'n'][3] == 'n',
        seq!['e'].len() == 1 && seq!['e'][0] == 'e',
        seq!['e', 'n', 'd'].len() == 3 && seq!['e', 'n', 'd'][0] == 'e' && seq!['e', 'n', 'd'][1] == 'n' && seq!['e', 'n', 'd'][2] == 'd',
        seq!['e', 'n', 't', 'e', 'r'].len() == 5 && seq!['e', 'n', 't', 'e', 'r'][0] == 'e' && seq!['e', 'n', 't', 'e', 'r'][1] == 'n' && seq!['e', 'n', 't', 'e', 'r'][2] == 't' && seq!['e', 'n', 't', 'e', 'r'][3] == 'e' && seq!['e', 'n', 't', 'e', 'r'][4] == 'r',
        seq!['e', 'q', 'u', 'a', 'l'].len() == 5 && seq!['e', 'q', 'u', 'a', 'l'][0] == 'e' && seq!['e', 'q', 'u', 'a', 'l'][1] == 'q' && seq!['e', 'q', 'u', 'a', 'l'][2] == 'u' && seq!['e', 'q', 'u', 'a', 'l'][3] == 'a' && seq!['e', 'q', 'u', 'a', 'l'][4] == 'l',
        seq!['e', 's', 'c'].len() == 3 && seq!['e', 's', 'c'][0] == 'e' && seq!['e', 's', 'c'][1] == 's' && seq!['e', 's', 'c'][2] == 'c',
        seq!['f'].len() == 1 && seq!['f'][0] == 'f',
        seq!['f', '1'].len() == 2 && seq!['f', '1'][0] == 'f' && seq!['f', '1'][1] == '1',
        seq!['f', '1', '0'].len() == 3 && seq!['f', '1', '0'][0] == 'f' && seq!['f', '1', '0'][1] == '1' && seq!['f', '1', '0'][2] == '0',
        seq!['f', '1', '1'].len() == 3 && seq!['f', '1', '1'][0] == 'f' && seq!['f', '1', '1'][1] == '1' && seq!['f', '1', '1'][2] == '1',
        seq!['f', '1', '2'].len() == 3 && seq!['f', '1', '2'][0] == 'f' && seq!['f', '1', '2'][1] == '1' && seq!['f', '1', '2'][2] == '2',
        seq!['f', '1', '3'].len() == 3 && seq!['f', '1', '3'][0] == 'f' && seq!['f', '1', '3'][1] == '1' && seq!['f', '1', '3'][2] == '3',
        seq!['f', '1', '4'].len() == 3 && seq!['f', '1', '4'][0] == 'f' && seq!['f', '1', '4'][1] == '1' && seq!['f', '1', '4'][2] == '4',
        seq!['f', '1', '5'].len() == 3 && seq!['f', '1', '5'][0] == 'f' && seq!['f', '1', '5'][1] == '1' && seq!['f', '1', '5'][2] == '5',
        seq!['f', '2'].len() == 2 && seq!['f', '2'][0] == 'f' && seq!['f', '2'][1] == '2',
        seq!['f', '3'].len() == 2 && seq!['f', '3'][0] == 'f' && seq!['f', '3'][1] == '3',
        seq!['f', '4'].len() == 2 && seq!['f', '4'][0] == 'f' && seq!['f', '4'][1] == '4',
        seq!['f', '5'].len() == 2 && seq!['f', '5'][0] == 'f' && seq!['f', '5'][1] == '5',
        seq!['f', '6'].len() == 2 && seq!['f', '6'][0] == 'f' && seq!['f', '6'][1] == '6',
        seq!['f', '7'].len() == 2 && seq!['f', '7'][0] == 'f' && seq!['f', '7'][1] == '7',
        seq!['f', '8'].len() == 2 && seq!['f', '8'][0] == 'f' && seq!['f', '8'][1] == '8',
        seq!['f', '9'].len() == 2 && seq!['f', '9'][0] == 'f' && seq!['f', '9'][1] == '9',
        seq!['f', 'o', 'r', 'w', 'a', 'r', 'd', 'd', 'e', 'l', 'e', 't', 'e'].len() == 13 && seq!['f', 'o', 'r', 'w', 'a', 'r', 'd', 'd', 'e', 'l', 'e', 't', 'e'][0] == 'f' && seq!['f', 'o', 'r', 'w', 'a', 'r', 'd', 'd', 'e', 'l', 'e', 't', 'e'][1] == 'o' && seq!['f', 'o', 'r', 'w', 'a', 'r', 'd', 'd', 'e', 'l', 'e', 't', 'e'][2] == 'r' && seq!['f', 'o', 'r', 'w', 'a', 'r', 'd', 'd', 'e', 'l', 'e', 't', 'e'][3] == 'w' && seq!['f', 'o', 'r', 'w', 'a', 'r', 'd', 'd', 'e', 'l', 'e', 't', 'e'][4] == 'a' && seq!['f', 'o', 'r', 'w', 'a', 'r', 'd', 'd', 'e', 'l', 'e', 't', 'e'][5] == 'r' && seq!['f', 'o', 'r', 'w', 'a', 'r', 'd', 'd', 'e', 'l', 'e', 't', 'e'][6] == 'd' && seq!['f', 'o', 'r', 'w', 'a', 'r', 'd', 'd', 'e', 'l', 'e', 't', 'e'][7] == 'd' && seq!['f', 'o', 'r', 'w', 'a', 'r', 'd', 'd', 'e', 'l', 'e', 't', 'e'][8] == 'e' && seq!['f', 'o', 'r', 'w', 'a', 'r', 'd', 'd', 'e', 'l', 'e', 't', 'e'][9] == 'l' && seq!['f', 'o', 'r', 'w', 'a', 'r', 'd', 'd', 'e', 'l', 'e', 't', 'e'][10] == 'e' && seq!['f', 'o', 'r', 'w', 'a', 'r', 'd', 'd', 'e', 'l', 'e', 't', 'e'][11] == 't' && seq!['f', 'o', 'r', 'w', 'a', 'r', 'd', 'd', 'e', 'l', 'e', 't', 'e'][12] == 'e',
        seq!['g'].len() == 1 && seq!['g'][0] == 'g',
        seq!['g', 'r', 'a', 'v', 'e'].len() == 5 && seq!['g', 'r', 'a', 'v', 'e'][0] == 'g' && seq!['g', 'r', 'a', 'v', 'e'][1] == 'r' && seq!['g', 'r', 'a', 'v', 'e'][2] == 'a' && seq!['g', 'r', 'a', 'v', 'e'][3] == 'v' && seq!['g', 'r', 'a', 'v', 'e'][4] == 'e',
        seq!['h'].len() == 1 && seq!['h'][0] == 'h',
        seq!['h', 'o', 'm', 'e'].len() == 4 && seq!['h', 'o', 'm', 'e'][0] == 'h' && seq!['h', 'o', 'm', 'e'][1] == 'o' && seq!['h', 'o', 'm', 'e'][2] == 'm' && seq!['h', 'o', 'm', 'e'][3] == 'e',
        seq!['i'].len() == 1 && seq!['i'][0] == 'i',
        seq!['j'].len() == 1 && seq!['j'][0] == 'j',
        seq!['k'].len() == 1 && seq!['k'][0] == 'k',
        seq!['l'].len() == 1 && seq!['l'][0] == 'l',
        seq!['l', 'e', 'f', 't'].len() == 4 && seq!['l', 'e', 'f', 't'][0] == 'l' && seq!['l', 'e', 'f', 't'][1] == 'e' && seq!['l', 'e', 'f', 't'][2] == 'f' && seq!['l', 'e', 'f', 't'][3] == 't',
        seq!['m'].len() == 1 && seq!['m'][0] == 'm',
        seq!['m', 'i', 'n', 'u', 's'].len() == 5 && seq!['m', 'i', 'n', 'u', 's'][0] == 'm' && seq!['m', 'i', 'n', 'u', 's'][1] == 'i' && seq!['m', 'i', 'n', 'u', 's'][2] == 'n' && seq!['m', 'i', 'n', 'u', 's'][3] == 'u' && seq!['m', 'i', 'n', 'u', 's'][4] == 's',
        seq!['n'].len() == 1 && seq!['n'][0] == 'n',
        seq!['o'].len() == 1 && seq!['o'][0] == 'o',
        seq!['p'].len() == 1 && seq!['p'][0] == 'p',
        seq!['p', 'a', 'g', 'e', 'd', 'o', 'w', 'n'].len() == 8 && seq!['p', 'a', 'g', 'e', 'd', 'o', 'w', 'n'][0] == 'p' && seq!['p', 'a', 'g', 'e', 'd', 'o', 'w', 'n'][1] == 'a' && seq!['p', 'a', 'g', 'e', 'd', 'o', 'w', 'n'][2] == 'g' && seq!['p', 'a', 'g', 'e', 'd', 'o', 'w', 'n'][3] == 'e' && seq!['p', 'a', 'g', 'e', 'd', 'o', 'w', 'n'][4] == 'd' && seq!['p', 'a', 'g', 'e', 'd', 'o', 'w', 'n'][5] == 'o' && seq!['p', 'a', 'g', 'e', 'd', 'o', 'w', 'n'][6] == 'w' && seq!['p', 'a', 'g', 'e', 'd', 'o', 'w', 'n'][7] == 'n',
        seq!['p', 'a', 'g', 'e', 'u', 'p'].len() == 6 && seq!['p', 'a', 'g', 'e', 'u', 'p'][0] == 'p' && seq!['p', 'a', 'g', 'e', 'u', 'p'][1] == 'a' && seq!['p', 'a', 'g', 'e', 'u', 'p'][2] == 'g' && seq!['p', 'a', 'g', 'e', 'u', 'p'][3] == 'e' && seq!['p', 'a', 'g', 'e', 'u', 'p'][4] == 'u' && seq!['p', 'a', 'g', 'e', 'u', 'p'][5] == 'p',
        seq!['p', 'e', 'r', 'i', 'o', 'd'].len() == 6 && seq!['p', 'e', 'r', 'i', 'o', 'd'][0] == 'p' && seq!['p', 'e', 'r', 'i', 'o', 'd'][1] == 'e' && seq!['p', 'e', 'r', 'i', 'o', 'd'][2] == 'r' && seq!['p', 'e', 'r', 'i', 'o', 'd'][3] == 'i' && seq!['p', 'e', 'r', 'i', 'o', 'd'][4] == 'o' && seq!['p', 'e', 'r', 'i', 'o', 'd'][5] == 'd',
        seq!['q'].len() == 1 && seq!['q'][0] == 'q',
        seq!['q', 'u', 'o', 't', 'e'].len() == 5 && seq!['q', 'u', 'o', 't', 'e'][0] == 'q' && seq!['q', 'u', 'o', 't', 'e'][1] == 'u' && seq!['q', 'u', 'o', 't', 'e'][2] == 'o' && seq!['q', 'u', 'o', 't', 'e'][3] == 't' && seq!['q', 'u', 'o', 't', 'e'][4] == 'e',
        seq!['r'].len() == 1 && seq!['r'][0] == 'r',
        seq!['r', 'e', 't', 'u', 'r', 'n'].len() == 6 && seq!['r', 'e', 't', 'u', 'r', 'n'][0] == 'r' && seq!['r', 'e', 't', 'u', 'r', 'n'][1] == 'e' && seq!['r', 'e', 't', 'u', 'r', 'n'][2] == 't' && seq!['r', 'e', 't', 'u', 'r', 'n'][3] == 'u' && seq!['r', 'e', 't', 'u', 'r', 'n'][4] == 'r' && seq!['r', 'e', 't', 'u', 'r', 'n'][5] == 'n',
        seq!['r', 'i', 'g', 'h', 't'].len() == 5 && seq!['r', 'i', 'g', 'h', 't'][0] == 'r' && seq!['r', 'i', 'g', 'h', 't'][1] == 'i' && seq!['r', 'i', 'g', 'h', 't'][2] == 'g' && seq!['r', 'i', 'g', 'h', 't'][3] == 'h' && seq!['r', 'i', 'g', 'h', 't'][4] == 't',
        seq!['s'].len() == 1 && seq!['s'][0] == 's',
        seq!['s', 'e', 'm', 'i', 'c', 'o', 'l', 'o', 'n'].len() == 9 && seq!['s', 'e', 'm', 'i', 'c', 'o', 'l', 'o', 'n'][0] == 's' && seq!['s', 'e', 'm', 'i', 'c', 'o', 'l', 'o', 'n'][1] == 'e' && seq!['s', 'e', 'm', 'i', 'c', 'o', 'l', 'o', 'n'][2] == 'm' && seq!['s', 'e', 'm', 'i', 'c', 'o', 'l', 'o', 'n'][3] == 'i' && seq!['s', 'e', 'm', 'i', 'c', 'o', 'l', 'o', 'n'][4] == 'c' && seq!['s', 'e', 'm', 'i', 'c', 'o', 'l', 'o', 'n'][5] == 'o' && seq!['s', 'e', 'm', 'i', 'c', 'o', 'l', 'o', 'n'][6] == 'l' && seq!['s', 'e', 'm', 'i', 'c', 'o', 'l', 'o', 'n'][7] == 'o' && seq!['s', 'e', 'm', 'i', 'c', 'o', 'l', 'o', 'n'][8] == 'n',
        seq!['s', 'l', 'a', 's', 'h'].len() == 5 && seq!['s', 'l', 'a', 's', 'h'][0] == 's' && seq!['s', 'l', 'a', 's', 'h'][1] == 'l' && seq!['s', 'l', 'a', 's', 'h'][2] == 'a' && seq!['s', 'l', 'a', 's', 'h'][3] == 's' && seq!['s', 'l', 'a', 's', 'h'][4] == 'h',
        seq!['s', 'p', 'a', 'c', 'e'].len() == 5 && seq!['s', 'p', 'a', 'c', 'e'][0] == 's' && seq!['s', 'p', 'a', 'c', 'e'][1] == 'p' && seq!['s', 'p', 'a', 'c', 'e'][2] == 'a' && seq!['s', 'p', 'a', 'c', 'e'][3] == 'c' && seq!['s', 'p', 'a', 'c', 'e'][4] == 'e',
        seq!['t'].len() == 1 && seq!['t'][0] == 't',
        seq!['t', 'a', 'b'].len() == 3 && seq!['t', 'a', 'b'][0] == 't' && seq!['t', 'a', 'b'][1] == 'a' && seq!['t', 'a', 'b'][2] == 'b',
        seq!['u'].len() == 1 && seq!['u'][0] == 'u',
        seq!['u', 'p'].len() == 2 && seq!['u', 'p'][0] == 'u' && seq!['u', 'p'][1] == 'p',
        seq!['v'].len() == 1 && seq!['v'][0] == 'v',
        seq!['w'].len() == 1 && seq!['w'][0] == 'w',
        seq!['x'].len() == 1 && seq!['x'][0] == 'x',
        seq!['y'].len() == 1 && seq!['y'][0] == 'y',
        seq!['z'].len() == 1 && seq!['z'][0] == 'z',
        seq!['c', 'm', 'd'].len() == 3 && seq!['c', 'm', 'd'][0] == 'c' && seq!['c', 'm', 'd'][1] == 'm' && seq!['c', 'm', 'd'][2] == 'd',
        seq!['c', 't', 'r', 'l'].len() == 4 && seq!['c', 't', 'r', 'l'][0] == 'c' && seq!['c', 't', 'r', 'l'][1] == 't' && seq!['c', 't', 'r', 'l'][2] == 'r' && seq!['c', 't', 'r', 'l'][3] == 'l',
        seq!['a', 'l', 't'].len() == 3 && seq!['a', 'l', 't'][0] == 'a' && seq!['a', 'l', 't'][1] == 'l' && seq!['a', 'l', 't'][2] == 't',
        seq!['o', 'p', 't'].len() == 3 && seq!['o', 'p', 't'][0] == 'o' && seq!['o', 'p', 't'][1] == 'p' && seq!['o', 'p', 't'][2] == 't',
        seq!['s', 'h', 'i', 'f', 't'].len() == 5 && seq!['s', 'h', 'i', 'f', 't'][0] == 's' && seq!['s', 'h', 'i', 'f', 't'][1] == 'h' && seq!['s', 'h', 'i', 'f', 't'][2] == 'i' && seq!['s', 'h', 'i', 'f', 't'][3] == 'f' && seq!['s', 'h', 'i', 'f', 't'][4] == 't',
{
}

/// The names of the table, each checked against the table.
#[verifier::rlimit(100)]
proof fn lemma_names_read_back()
    ensures
        named_key_reads_back(29, seq!['0']),
        named_key_reads_back(18, seq!['1']),
        named_key_reads_back(19, seq!['2']),
        named_key_reads_back(20, seq!['3']),
        named_key_reads_back(21, seq!['4']),
        named_key_reads_back(23, seq!['5']),
        named_key_reads_back(22, seq!['6']),
        named_key_reads_back(26, seq!['7']),
        named_key_reads_back(28, seq!['8']),
        named_key_reads_back(25, seq!['9']),
        named_key_reads_back(0, seq!['a']),
        named_key_reads_back(11, seq!['b']),
        named_key_reads_back(42, seq!['b', 'a', 'c', 'k', 's', 'l', 'a', 's', 'h']),
        named_key_reads_back(33, seq!['b', 'r', 'a', 'c', 'k', 'e', 't', '_', 'l', 'e', 'f', 't']),
        named_key_reads_back(30, seq!['b', 'r', 'a', 'c', 'k', 'e', 't', '_', 'r', 'i', 'g', 'h', 't']),
        named_key_reads_back(8, seq!['c']),
        named_key_reads_back(43, seq!['c', 'o', 'm', 'm', 'a']),
        named_key_reads_back(2, seq!['d']),
        named_key_reads_back(51, seq!['d', 'e', 'l', 'e', 't', 'e']),
        named_key_reads_back(125, seq!['d', 'o', 'w', 'n']),
        named_key_reads_back(14, seq!['e']),
        named_key_reads_back(119, seq!['e', 'n', 'd']),
        named_key_reads_back(24, seq!['e', 'q', 'u', 'a', 'l']),
        named_key_reads_back(53, seq!['e', 's', 'c']),
        named_key_reads_back(3, seq!['f']),
        named_key_reads_back(122, seq!['f', '1']),
        named_key_reads_back(109, seq!['f', '1', '0']),
        named_key_reads_back(103, seq!['f', '1', '1']),
        named_key_reads_back(111, seq!['f', '1', '2']),
        named_key_reads_back(105, seq!['f', '1', '3']),
        named_key_reads_back(107, seq!['f', '1', '4']),
        named_key_reads_back(113, seq!['f', '1', '5']),
        named_key_reads_back(120, seq!['f', '2']),
        named_key_reads_back(99, seq!['f', '3']),
        named_key_reads_back(118, seq!['f', '4']),
        named_key_reads_back(96, seq!['f', '5']),
        named_key_reads_back(97, seq!['f', '6']),
        named_key_reads_back(98, seq!['f', '7']),
        named_key_reads_back(100, seq!['f', '8']),
        named_key_reads_back(101, seq!['f', '9']),
        named_key_reads_back(117, seq!['f', 'o', 'r', 'w', 'a', 'r', 'd', 'd', 'e', 'l', 'e', 't', 'e']),
        named_key_reads_back(5, seq!['g']),
        named_key_reads_back(50, seq!['g', 'r', 'a', 'v', 'e']),
        named_key_reads_back(4, seq!['h']),
        named_key_reads_back(115, seq!['h', 'o', 'm', 'e']),
        named_key_reads_back(34, seq!['i']),
        named_key_reads_back(38, seq!['j']),
        named_key_reads_back(40, seq!['k']),
        named_key_reads_back(37, seq!['l']),
        named_key_reads_back(123, seq!['l', 'e', 'f', 't']),
        named_key_reads_back(46, seq!['m']),
        named_key_reads_back(27, seq!['m', 'i', 'n', 'u', 's']),
        named_key_reads_back(45, seq!['n']),
        named_key_reads_back(31, seq!['o']),
        named_key_reads_back(35, seq!['p']),
        named_key_reads_back(121, seq!['p', 'a', 'g', 'e', 'd', 'o', 'w', 'n']),
        named_key_reads_back(116, seq!['p', 'a', 'g', 'e', 'u', 'p']),
        named_key_reads_back(47, seq!['p', 'e', 'r', 'i', 'o', 'd']),
        named_key_reads_back(12, seq!['q']),
        named_key_reads_back(39, seq!['q', 'u', 'o', 't', 'e']),
        named_key_reads_back(15, seq!['r']),
        named_key_reads_back(36, seq!['r', 'e', 't', 'u', 'r', 'n']),
        named_key_reads_back(124, seq!['r', 'i', 'g', 'h', 't']),
        named_key_reads_back(1, seq!['s']),
        named_key_reads_back(41, seq!['s', 'e', 'm', 'i', 'c', 'o', 'l', 'o', 'n']),
        named_key_reads_back(44, seq!['s', 'l', 'a', 's', 'h']),
        named_key_reads_back(49, seq!['s', 'p', 'a', 'c', 'e']),
        named_key_reads_back(17, seq!['t']),
        named_key_reads_back(48, seq!['t', 'a', 'b']),
        named_key_reads_back(32, seq!['u']),
        named_key_reads_back(126, seq!['u', 'p']),
        named_key_reads_back(9, seq!['v']),
        named_key_reads_back(13, seq!['w']),
        named_key_reads_back(7, seq!['x']),
        named_key_reads_back(16, seq!['y']),
        named_key_reads_back(6, seq!['z']),
{
    lemma_modifier_words();
    lemma_spellings();
}

/// Every key code with a name maps back to itself through the name.
pub proof fn lemma_keycode_name_round_trip(code: u16)
    ensures
        spec_keycode_name(code) matches Some(n) ==> spec_keycode(n) == Some(code) && !is_modifier_name(n)
            && n.len() > 0
            && forall|k: int| 0 <= k < n.len() ==> #[trigger] is_key_char(n[k]),
{
    lemma_names_read_back();
}

/// Every key name except the alias `enter` (of `return`) is the name of its code.
#[verifier::rlimit(100)]
pub proof fn lemma_keycode_round_trip(name: Seq<char>)
    ensures
        name != seq!['e', 'n', 't', 'e', 'r'] ==> (spec_keycode(name) matches Some(c) ==> spec_keycode_name(c)
            == Some(name)),
{
}

} // verus!
