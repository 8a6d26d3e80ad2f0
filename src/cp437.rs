//! Text of names stored without the UTF-8 flag, read as code page 437.

use vstd::prelude::*;

verus! {

/// The character that code page 437 gives a byte: ASCII below 0x80, the IBM PC table above.
pub open spec fn cp437_char(b: u8) -> char {
    match b {
        0x80 => '\u{c7}',
        0x81 => '\u{fc}',
        0x82 => '\u{e9}',
        0x83 => '\u{e2}',
        0x84 => '\u{e4}',
        0x85 => '\u{e0}',
        0x86 => '\u{e5}',
        0x87 => '\u{e7}',
        0x88 => '\u{ea}',
        0x89 => '\u{eb}',
        0x8A => '\u{e8}',
        0x8B => '\u{ef}',
        0x8C => '\u{ee}',
        0x8D => '\u{ec}',
        0x8E => '\u{c4}',
        0x8F => '\u{c5}',
        0x90 => '\u{c9}',
        0x91 => '\u{e6}',
        0x92 => '\u{c6}',
        0x93 => '\u{f4}',
        0x94 => '\u{f6}',
        0x95 => '\u{f2}',
        0x96 => '\u{fb}',
        0x97 => '\u{f9}',
        0x98 => '\u{ff}',
        0x99 => '\u{d6}',
        0x9A => '\u{dc}',
        0x9B => '\u{a2}',
        0x9C => '\u{a3}',
        0x9D => '\u{a5}',
        0x9E => '\u{20a7}',
        0x9F => '\u{192}',
        0xA0 => '\u{e1}',
        0xA1 => '\u{ed}',
        0xA2 => '\u{f3}',
        0xA3 => '\u{fa}',
        0xA4 => '\u{f1}',
        0xA5 => '\u{d1}',
        0xA6 => '\u{aa}',
        0xA7 => '\u{ba}',
        0xA8 => '\u{bf}',
        0xA9 => '\u{2310}',
        0xAA => '\u{ac}',
        0xAB => '\u{bd}',
        0xAC => '\u{bc}',
        0xAD => '\u{a1}',
        0xAE => '\u{ab}',
        0xAF => '\u{bb}',
        0xB0 => '\u{2591}',
        0xB1 => '\u{2592}',
        0xB2 => '\u{2593}',
        0xB3 => '\u{2502}',
        0xB4 => '\u{2524}',
        0xB5 => '\u{2561}',
        0xB6 => '\u{2562}',
        0xB7 => '\u{2556}',
        0xB8 => '\u{2555}',
        0xB9 => '\u{2563}',
        0xBA => '\u{2551}',
        0xBB => '\u{2557}',
        0xBC => '\u{255d}',
        0xBD => '\u{255c}',
        0xBE => '\u{255b}',
        0xBF => '\u{2510}',
        0xC0 => '\u{2514}',
        0xC1 => '\u{2534}',
        0xC2 => '\u{252c}',
        0xC3 => '\u{251c}',
        0xC4 => '\u{2500}',
        0xC5 => '\u{253c}',
        0xC6 => '\u{255e}',
        0xC7 => '\u{255f}',
        0xC8 => '\u{255a}',
        0xC9 => '\u{2554}',
        0xCA => '\u{2569}',
        0xCB => '\u{2566}',
        0xCC => '\u{2560}',
        0xCD => '\u{2550}',
        0xCE => '\u{256c}',
        0xCF => '\u{2567}',
        0xD0 => '\u{2568}',
        0xD1 => '\u{2564}',
        0xD2 => '\u{2565}',
        0xD3 => '\u{2559}',
        0xD4 => '\u{2558}',
        0xD5 => '\u{2552}',
        0xD6 => '\u{2553}',
        0xD7 => '\u{256b}',
        0xD8 => '\u{256a}',
        0xD9 => '\u{2518}',
        0xDA => '\u{250c}',
        0xDB => '\u{2588}',
        0xDC => '\u{2584}',
        0xDD => '\u{258c}',
        0xDE => '\u{2590}',
        0xDF => '\u{2580}',
        0xE0 => '\u{3b1}',
        0xE1 => '\u{df}',
        0xE2 => '\u{393}',
        0xE3 => '\u{3c0}',
        0xE4 => '\u{3a3}',
        0xE5 => '\u{3c3}',
        0xE6 => '\u{b5}',
        0xE7 => '\u{3c4}',
        0xE8 => '\u{3a6}',
        0xE9 => '\u{398}',
        0xEA => '\u{3a9}',
        0xEB => '\u{3b4}',
        0xEC => '\u{221e}',
        0xED => '\u{3c6}',
        0xEE => '\u{3b5}',
        0xEF => '\u{2229}',
        0xF0 => '\u{2261}',
        0xF1 => '\u{b1}',
        0xF2 => '\u{2265}',
        0xF3 => '\u{2264}',
        0xF4 => '\u{2320}',
        0xF5 => '\u{2321}',
        0xF6 => '\u{f7}',
        0xF7 => '\u{2248}',
        0xF8 => '\u{b0}',
        0xF9 => '\u{2219}',
        0xFA => '\u{b7}',
        0xFB => '\u{221a}',
        0xFC => '\u{207f}',
        0xFD => '\u{b2}',
        0xFE => '\u{25a0}',
        0xFF => '\u{a0}',
        _ => b as char,
    }
}

/// The text that code page 437 gives a byte string.
pub open spec fn cp437_text(raw: Seq<u8>) -> Seq<char> {
    raw.map_values(|b: u8| cp437_char(b))
}

pub fn cp437_to_char(b: u8) -> (c: char)
    ensures
        c == cp437_char(b),
{
    match b {
        0x80 => '\u{c7}',
        0x81 => '\u{fc}',
        0x82 => '\u{e9}',
        0x83 => '\u{e2}',
        0x84 => '\u{e4}',
        0x85 => '\u{e0}',
        0x86 => '\u{e5}',
        0x87 => '\u{e7}',
        0x88 => '\u{ea}',
        0x89 => '\u{eb}',
        0x8A => '\u{e8}',
        0x8B => '\u{ef}',
        0x8C => '\u{ee}',
        0x8D => '\u{ec}',
        0x8E => '\u{c4}',
        0x8F => '\u{c5}',
        0x90 => '\u{c9}',
        0x91 => '\u{e6}',
        0x92 => '\u{c6}',
        0x93 => '\u{f4}',
        0x94 => '\u{f6}',
        0x95 => '\u{f2}',
        0x96 => '\u{fb}',
        0x97 => '\u{f9}',
        0x98 => '\u{ff}',
        0x99 => '\u{d6}',
        0x9A => '\u{dc}',
        0x9B => '\u{a2}',
        0x9C => '\u{a3}',
        0x9D => '\u{a5}',
        0x9E => '\u{20a7}',
        0x9F => '\u{192}',
        0xA0 => '\u{e1}',
        0xA1 => '\u{ed}',
        0xA2 => '\u{f3}',
        0xA3 => '\u{fa}',
        0xA4 => '\u{f1}',
        0xA5 => '\u{d1}',
        0xA6 => '\u{aa}',
        0xA7 => '\u{ba}',
        0xA8 => '\u{bf}',
        0xA9 => '\u{2310}',
        0xAA => '\u{ac}',
        0xAB => '\u{bd}',
        0xAC => '\u{bc}',
        0xAD => '\u{a1}',
        0xAE => '\u{ab}',
        0xAF => '\u{bb}',
        0xB0 => '\u{2591}',
        0xB1 => '\u{2592}',
        0xB2 => '\u{2593}',
        0xB3 => '\u{2502}',
        0xB4 => '\u{2524}',
        0xB5 => '\u{2561}',
        0xB6 => '\u{2562}',
        0xB7 => '\u{2556}',
        0xB8 => '\u{2555}',
        0xB9 => '\u{2563}',
        0xBA => '\u{2551}',
        0xBB => '\u{2557}',
        0xBC => '\u{255d}',
        0xBD => '\u{255c}',
        0xBE => '\u{255b}',
        0xBF => '\u{2510}',
        0xC0 => '\u{2514}',
        0xC1 => '\u{2534}',
        0xC2 => '\u{252c}',
        0xC3 => '\u{251c}',
        0xC4 => '\u{2500}',
        0xC5 => '\u{253c}',
        0xC6 => '\u{255e}',
        0xC7 => '\u{255f}',
        0xC8 => '\u{255a}',
        0xC9 => '\u{2554}',
        0xCA => '\u{2569}',
        0xCB => '\u{2566}',
        0xCC => '\u{2560}',
        0xCD => '\u{2550}',
        0xCE => '\u{256c}',
        0xCF => '\u{2567}',
        0xD0 => '\u{2568}',
        0xD1 => '\u{2564}',
        0xD2 => '\u{2565}',
        0xD3 => '\u{2559}',
        0xD4 => '\u{2558}',
        0xD5 => '\u{2552}',
        0xD6 => '\u{2553}',
        0xD7 => '\u{256b}',
        0xD8 => '\u{256a}',
        0xD9 => '\u{2518}',
        0xDA => '\u{250c}',
        0xDB => '\u{2588}',
        0xDC => '\u{2584}',
        0xDD => '\u{258c}',
        0xDE => '\u{2590}',
        0xDF => '\u{2580}',
        0xE0 => '\u{3b1}',
        0xE1 => '\u{df}',
        0xE2 => '\u{393}',
        0xE3 => '\u{3c0}',
        0xE4 => '\u{3a3}',
        0xE5 => '\u{3c3}',
        0xE6 => '\u{b5}',
        0xE7 => '\u{3c4}',
        0xE8 => '\u{3a6}',
        0xE9 => '\u{398}',
        0xEA => '\u{3a9}',
        0xEB => '\u{3b4}',
        0xEC => '\u{221e}',
        0xED => '\u{3c6}',
        0xEE => '\u{3b5}',
        0xEF => '\u{2229}',
        0xF0 => '\u{2261}',
        0xF1 => '\u{b1}',
        0xF2 => '\u{2265}',
        0xF3 => '\u{2264}',
        0xF4 => '\u{2320}',
        0xF5 => '\u{2321}',
        0xF6 => '\u{f7}',
        0xF7 => '\u{2248}',
        0xF8 => '\u{b0}',
        0xF9 => '\u{2219}',
        0xFA => '\u{b7}',
        0xFB => '\u{221a}',
        0xFC => '\u{207f}',
        0xFD => '\u{b2}',
        0xFE => '\u{25a0}',
        0xFF => '\u{a0}',
        _ => b as char,
    }
}

/// Relies on String::push: appends one character at the end.
#[verifier::external_body]
fn push_char(s: &mut String, c: char)
    ensures
        final(s)@ == old(s)@.push(c),
{
    s.push(c)
}

/// Decodes `raw` as code page 437.
pub fn from_cp437(raw: &[u8]) -> (r: String)
    ensures
        r@ == cp437_text(raw@),
{
    let mut out = String::new();
    let mut i: usize = 0;
    while i < raw.len()
        invariant
            i <= raw@.len(),
            out@ == cp437_text(raw@.subrange(0, i as int)),
        decreases raw@.len() - i,
    {
        let c = cp437_to_char(raw[i]);
        push_char(&mut out, c);
        assert(raw@.subrange(0, i + 1) == raw@.subrange(0, i as int).push(raw@[i as int]));
        assert(cp437_text(raw@.subrange(0, i + 1)) =~= cp437_text(raw@.subrange(0, i as int)).push(c));
        i = i + 1;
    }
    assert(raw@.subrange(0, raw@.len() as int) == raw@);
    out
}

} // verus!
