//! The glyph tables: for each configuration profile, the display text a key
//! yields at each modifier tier. The tables are data; the tie-break policy
//! that picks a tier lives in `resolve`.

use vstd::prelude::*;
use crate::keys::Key;

verus! {

/// A build-time configuration. The two profiles differ in buffer capacity,
/// key coverage and whether Shift/Alt tiers exist, but satisfy the same
/// resolution contract.
#[derive(Clone, Copy, Debug, PartialEq, Eq, Structural)]
pub enum Profile {
    /// Near-full substitution coverage with Shift+Alt, Shift and Alt tiers.
    Verbose,
    /// A reduced key set with only the base tier.
    Compact,
}

impl Profile {
    /// The display buffer capacity this profile selects, in Unicode scalars.
    pub open spec fn spec_max_chars(self) -> int {
        match self {
            Profile::Verbose => 10,
            Profile::Compact => 5,
        }
    }

    /// Returns the display buffer capacity this profile selects.
    pub fn max_chars(self) -> (n: usize)
        ensures
            n as int == self.spec_max_chars(),
            n > 0,
    {
        match self {
            Profile::Verbose => 10,
            Profile::Compact => 5,
        }
    }
}

/// The scalars of an optional glyph, for stating table contracts.
pub open spec fn token_view(t: Option<Vec<char>>) -> Option<Seq<char>> {
    match t {
        Some(v) => Some(v@),
        None => None,
    }
}

/// The glyph `k` yields when both Shift and Alt are held, where such a
/// combination entry exists (locale-specific accented and symbol forms).
pub open spec fn shift_alt_glyph(p: Profile, k: Key) -> Option<Seq<char>> {
    match p {
        Profile::Verbose => match k {
            Key::KeyA => Some(seq!['Ä']),
            Key::KeyL => Some(seq!['Λ']),
            Key::KeyO => Some(seq!['Ö']),
            Key::KeyP => Some(seq!['Π']),
            Key::KeyU => Some(seq!['Ü']),
            _ => None,
        },
        Profile::Compact => None,
    }
}

/// The glyph `k` yields when Shift is held.
pub open spec fn shift_glyph(p: Profile, k: Key) -> Option<Seq<char>> {
    match p {
        Profile::Verbose => match k {
            Key::BackQuote => Some(seq!['°']),
            Key::BackSlash => Some(seq!['\\']),
            Key::Comma => Some(seq![';']),
            Key::Dot => Some(seq![':']),
            Key::Equal => Some(seq!['´']),
            Key::KeyA => Some(seq!['A']),
            Key::KeyB => Some(seq!['B']),
            Key::KeyC => Some(seq!['C']),
            Key::KeyD => Some(seq!['D']),
            Key::KeyE => Some(seq!['E']),
            Key::KeyF => Some(seq!['F']),
            Key::KeyG => Some(seq!['G']),
            Key::KeyH => Some(seq!['H']),
            Key::KeyI => Some(seq!['I']),
            Key::KeyJ => Some(seq!['J']),
            Key::KeyK => Some(seq!['K']),
            Key::KeyL => Some(seq!['L']),
            Key::KeyM => Some(seq!['M']),
            Key::KeyN => Some(seq!['N']),
            Key::KeyO => Some(seq!['O']),
            Key::KeyP => Some(seq!['P']),
            Key::KeyQ => Some(seq!['Q']),
            Key::KeyR => Some(seq!['R']),
            Key::KeyS => Some(seq!['S']),
            Key::KeyT => Some(seq!['T']),
            Key::KeyU => Some(seq!['U']),
            Key::KeyV => Some(seq!['V']),
            Key::KeyW => Some(seq!['W']),
            Key::KeyX => Some(seq!['X']),
            Key::KeyY => Some(seq!['Z']),
            Key::KeyZ => Some(seq!['Y']),
            Key::LeftBracket => Some(seq!['{']),
            Key::Minus => Some(seq!['#']),
            Key::Num0 => Some(seq!['=']),
            Key::Num1 => Some(seq!['!']),
            Key::Num2 => Some(seq!['"']),
            Key::Num3 => Some(seq!['§']),
            Key::Num4 => Some(seq!['$']),
            Key::Num5 => Some(seq!['%']),
            Key::Num6 => Some(seq!['&']),
            Key::Num7 => Some(seq!['/']),
            Key::Num8 => Some(seq!['(']),
            Key::Num9 => Some(seq![')']),
            Key::Quote => Some(seq!['+']),
            Key::RightBracket => Some(seq!['}']),
            Key::SemiColon => Some(seq!['*']),
            Key::Slash => Some(seq!['_']),
            _ => None,
        },
        Profile::Compact => None,
    }
}

/// The glyph `k` yields when Alt is held.
pub open spec fn alt_glyph(p: Profile, k: Key) -> Option<Seq<char>> {
    match p {
        Profile::Verbose => match k {
            Key::BackQuote => Some(seq!['~']),
            Key::BackSlash => Some(seq!['|']),
            Key::KeyA => Some(seq!['ä']),
            Key::KeyE => Some(seq!['€']),
            Key::KeyI => Some(seq!['∞']),
            Key::KeyL => Some(seq!['λ']),
            Key::KeyO => Some(seq!['ö']),
            Key::KeyP => Some(seq!['π']),
            Key::KeyQ => Some(seq!['@']),
            Key::KeyS => Some(seq!['ß']),
            Key::KeyU => Some(seq!['ü']),
            Key::Num2 => Some(seq!['\'']),
            _ => None,
        },
        Profile::Compact => None,
    }
}

/// The glyph `k` yields with no relevant modifier held.
pub open spec fn base_glyph(p: Profile, k: Key) -> Option<Seq<char>> {
    match p {
        Profile::Verbose => match k {
            Key::BackQuote => Some(seq!['^']),
            Key::BackSlash => Some(seq!['/']),
            Key::Backspace => Some(seq!['⌫']),
            Key::Comma => Some(seq![',']),
            Key::Dot => Some(seq!['.']),
            Key::DownArrow => Some(seq!['↓']),
            Key::Equal => Some(seq!['`']),
            Key::Escape => Some(seq!['⎋']),
            Key::F1 => Some(seq!['F', '1']),
            Key::F2 => Some(seq!['F', '2']),
            Key::F3 => Some(seq!['F', '3']),
            Key::F4 => Some(seq!['F', '4']),
            Key::F5 => Some(seq!['F', '5']),
            Key::F6 => Some(seq!['F', '6']),
            Key::F7 => Some(seq!['F', '7']),
            Key::F8 => Some(seq!['F', '8']),
            Key::F9 => Some(seq!['F', '9']),
            Key::F10 => Some(seq!['F', '1', '0']),
            Key::F11 => Some(seq!['F', '1', '1']),
            Key::F12 => Some(seq!['F', '1', '2']),
            Key::KeyA => Some(seq!['a']),
            Key::KeyB => Some(seq!['b']),
            Key::KeyC => Some(seq!['c']),
            Key::KeyD => Some(seq!['d']),
            Key::KeyE => Some(seq!['e']),
            Key::KeyF => Some(seq!['f']),
            Key::KeyG => Some(seq!['g']),
            Key::KeyH => Some(seq!['h']),
            Key::KeyI => Some(seq!['i']),
            Key::KeyJ => Some(seq!['j']),
            Key::KeyK => Some(seq!['k']),
            Key::KeyL => Some(seq!['l']),
            Key::KeyM => Some(seq!['m']),
            Key::KeyN => Some(seq!['n']),
            Key::KeyO => Some(seq!['o']),
            Key::KeyP => Some(seq!['p']),
            Key::KeyQ => Some(seq!['q']),
            Key::KeyR => Some(seq!['r']),
            Key::KeyS => Some(seq!['s']),
            Key::KeyT => Some(seq!['t']),
            Key::KeyU => Some(seq!['u']),
            Key::KeyV => Some(seq!['v']),
            Key::KeyW => Some(seq!['w']),
            Key::KeyX => Some(seq!['x']),
            Key::KeyY => Some(seq!['z']),
            Key::KeyZ => Some(seq!['y']),
            Key::LeftArrow => Some(seq!['←']),
            Key::LeftBracket => Some(seq!['[']),
            Key::Minus => Some(seq!['?']),
            Key::Num0 => Some(seq!['0']),
            Key::Num1 => Some(seq!['1']),
            Key::Num2 => Some(seq!['2']),
            Key::Num3 => Some(seq!['3']),
            Key::Num4 => Some(seq!['4']),
            Key::Num5 => Some(seq!['5']),
            Key::Num6 => Some(seq!['6']),
            Key::Num7 => Some(seq!['7']),
            Key::Num8 => Some(seq!['8']),
            Key::Num9 => Some(seq!['9']),
            Key::PrintScreen => Some(seq!['\u{f1786}']),
            Key::Quote => Some(seq!['>']),
            Key::Return => Some(seq!['↩']),
            Key::RightArrow => Some(seq!['→']),
            Key::RightBracket => Some(seq![']']),
            Key::SemiColon => Some(seq!['<']),
            Key::Slash => Some(seq!['-']),
            Key::Space => Some(seq!['\u{f1050}']),
            Key::Tab => Some(seq!['⇥']),
            Key::UpArrow => Some(seq!['↑']),
            _ => None,
        },
        Profile::Compact => match k {
            Key::Backspace => Some(seq!['⌫']),
            Key::Equal => Some(seq!['`']),
            Key::KeyA => Some(seq!['a']),
            Key::KeyB => Some(seq!['b']),
            Key::KeyC => Some(seq!['c']),
            Key::KeyD => Some(seq!['d']),
            Key::KeyE => Some(seq!['e']),
            Key::KeyF => Some(seq!['f']),
            Key::KeyG => Some(seq!['g']),
            Key::KeyH => Some(seq!['h']),
            Key::KeyI => Some(seq!['i']),
            Key::KeyJ => Some(seq!['j']),
            Key::KeyK => Some(seq!['k']),
            Key::KeyL => Some(seq!['l']),
            Key::KeyM => Some(seq!['m']),
            Key::KeyN => Some(seq!['n']),
            Key::KeyO => Some(seq!['o']),
            Key::KeyP => Some(seq!['p']),
            Key::KeyQ => Some(seq!['q']),
            Key::KeyR => Some(seq!['r']),
            Key::KeyS => Some(seq!['s']),
            Key::KeyT => Some(seq!['t']),
            Key::KeyU => Some(seq!['u']),
            Key::KeyV => Some(seq!['v']),
            Key::KeyW => Some(seq!['w']),
            Key::KeyX => Some(seq!['x']),
            Key::KeyY => Some(seq!['y']),
            Key::KeyZ => Some(seq!['z']),
            Key::Num0 => Some(seq!['0']),
            Key::Num1 => Some(seq!['1']),
            Key::Num2 => Some(seq!['2']),
            Key::Num3 => Some(seq!['3']),
            Key::Num4 => Some(seq!['4']),
            Key::Num5 => Some(seq!['5']),
            Key::Num6 => Some(seq!['6']),
            Key::Num7 => Some(seq!['7']),
            Key::Num8 => Some(seq!['8']),
            Key::Num9 => Some(seq!['9']),
            Key::Return => Some(seq!['↩']),
            Key::Space => Some(seq!['\u{f1050}']),
            _ => None,
        },
    }
}

/// A one-scalar glyph.
fn glyph1(a: char) -> (v: Vec<char>)
    ensures
        v@ == seq![a],
{
    let mut v: Vec<char> = Vec::new();
    v.push(a);
    proof {
        assert(v@ =~= seq![a]);
    }
    v
}

/// A two-scalar glyph.
fn glyph2(a: char, b: char) -> (v: Vec<char>)
    ensures
        v@ == seq![a, b],
{
    let mut v: Vec<char> = Vec::new();
    v.push(a);
    v.push(b);
    proof {
        assert(v@ =~= seq![a, b]);
    }
    v
}

/// A three-scalar glyph.
fn glyph3(a: char, b: char, c: char) -> (v: Vec<char>)
    ensures
        v@ == seq![a, b, c],
{
    let mut v: Vec<char> = Vec::new();
    v.push(a);
    v.push(b);
    v.push(c);
    proof {
        assert(v@ =~= seq![a, b, c]);
    }
    v
}

/// Looks up the Shift+Alt combination entry for `k`.
pub fn shift_alt_lookup(p: Profile, k: Key) -> (t: Option<Vec<char>>)
    ensures
        token_view(t) == shift_alt_glyph(p, k),
{
    match p {
        Profile::Verbose => match k {
            Key::KeyA => Some(glyph1('Ä')),
            Key::KeyL => Some(glyph1('Λ')),
            Key::KeyO => Some(glyph1('Ö')),
            Key::KeyP => Some(glyph1('Π')),
            Key::KeyU => Some(glyph1('Ü')),
            _ => None,
        },
        Profile::Compact => None,
    }
}

/// Looks up the Shift entry for `k`.
pub fn shift_lookup(p: Profile, k: Key) -> (t: Option<Vec<char>>)
    ensures
        token_view(t) == shift_glyph(p, k),
{
    match p {
        Profile::Verbose => match k {
            Key::BackQuote => Some(glyph1('°')),
            Key::BackSlash => Some(glyph1('\\')),
            Key::Comma => Some(glyph1(';')),
            Key::Dot => Some(glyph1(':')),
            Key::Equal => Some(glyph1('´')),
            Key::KeyA => Some(glyph1('A')),
            Key::KeyB => Some(glyph1('B')),
            Key::KeyC => Some(glyph1('C')),
            Key::KeyD => Some(glyph1('D')),
            Key::KeyE => Some(glyph1('E')),
            Key::KeyF => Some(glyph1('F')),
            Key::KeyG => Some(glyph1('G')),
            Key::KeyH => Some(glyph1('H')),
            Key::KeyI => Some(glyph1('I')),
            Key::KeyJ => Some(glyph1('J')),
            Key::KeyK => Some(glyph1('K')),
            Key::KeyL => Some(glyph1('L')),
            Key::KeyM => Some(glyph1('M')),
            Key::KeyN => Some(glyph1('N')),
            Key::KeyO => Some(glyph1('O')),
            Key::KeyP => Some(glyph1('P')),
            Key::KeyQ => Some(glyph1('Q')),
            Key::KeyR => Some(glyph1('R')),
            Key::KeyS => Some(glyph1('S')),
            Key::KeyT => Some(glyph1('T')),
            Key::KeyU => Some(glyph1('U')),
            Key::KeyV => Some(glyph1('V')),
            Key::KeyW => Some(glyph1('W')),
            Key::KeyX => Some(glyph1('X')),
            Key::KeyY => Some(glyph1('Z')),
            Key::KeyZ => Some(glyph1('Y')),
            Key::LeftBracket => Some(glyph1('{')),
            Key::Minus => Some(glyph1('#')),
            Key::Num0 => Some(glyph1('=')),
            Key::Num1 => Some(glyph1('!')),
            Key::Num2 => Some(glyph1('"')),
            Key::Num3 => Some(glyph1('§')),
            Key::Num4 => Some(glyph1('$')),
            Key::Num5 => Some(glyph1('%')),
            Key::Num6 => Some(glyph1('&')),
            Key::Num7 => Some(glyph1('/')),
            Key::Num8 => Some(glyph1('(')),
            Key::Num9 => Some(glyph1(')')),
            Key::Quote => Some(glyph1('+')),
            Key::RightBracket => Some(glyph1('}')),
            Key::SemiColon => Some(glyph1('*')),
            Key::Slash => Some(glyph1('_')),
            _ => None,
        },
        Profile::Compact => None,
    }
}

/// Looks up the Alt entry for `k`.
pub fn alt_lookup(p: Profile, k: Key) -> (t: Option<Vec<char>>)
    ensures
        token_view(t) == alt_glyph(p, k),
{
    match p {
        Profile::Verbose => match k {
            Key::BackQuote => Some(glyph1('~')),
            Key::BackSlash => Some(glyph1('|')),
            Key::KeyA => Some(glyph1('ä')),
            Key::KeyE => Some(glyph1('€')),
            Key::KeyI => Some(glyph1('∞')),
            Key::KeyL => Some(glyph1('λ')),
            Key::KeyO => Some(glyph1('ö')),
            Key::KeyP => Some(glyph1('π')),
            Key::KeyQ => Some(glyph1('@')),
            Key::KeyS => Some(glyph1('ß')),
            Key::KeyU => Some(glyph1('ü')),
            Key::Num2 => Some(glyph1('\'')),
            _ => None,
        },
        Profile::Compact => None,
    }
}

/// Looks up the unmodified base entry for `k`.
pub fn base_lookup(p: Profile, k: Key) -> (t: Option<Vec<char>>)
    ensures
        token_view(t) == base_glyph(p, k),
{
    match p {
        Profile::Verbose => match k {
            Key::BackQuote => Some(glyph1('^')),
            Key::BackSlash => Some(glyph1('/')),
            Key::Backspace => Some(glyph1('⌫')),
            Key::Comma => Some(glyph1(',')),
            Key::Dot => Some(glyph1('.')),
            Key::DownArrow => Some(glyph1('↓')),
            Key::Equal => Some(glyph1('`')),
            Key::Escape => Some(glyph1('⎋')),
            Key::F1 => Some(glyph2('F', '1')),
            Key::F2 => Some(glyph2('F', '2')),
            Key::F3 => Some(glyph2('F', '3')),
            Key::F4 => Some(glyph2('F', '4')),
            Key::F5 => Some(glyph2('F', '5')),
            Key::F6 => Some(glyph2('F', '6')),
            Key::F7 => Some(glyph2('F', '7')),
            Key::F8 => Some(glyph2('F', '8')),
            Key::F9 => Some(glyph2('F', '9')),
            Key::F10 => Some(glyph3('F', '1', '0')),
            Key::F11 => Some(glyph3('F', '1', '1')),
            Key::F12 => Some(glyph3('F', '1', '2')),
            Key::KeyA => Some(glyph1('a')),
            Key::KeyB => Some(glyph1('b')),
            Key::KeyC => Some(glyph1('c')),
            Key::KeyD => Some(glyph1('d')),
            Key::KeyE => Some(glyph1('e')),
            Key::KeyF => Some(glyph1('f')),
            Key::KeyG => Some(glyph1('g')),
            Key::KeyH => Some(glyph1('h')),
            Key::KeyI => Some(glyph1('i')),
            Key::KeyJ => Some(glyph1('j')),
            Key::KeyK => Some(glyph1('k')),
            Key::KeyL => Some(glyph1('l')),
            Key::KeyM => Some(glyph1('m')),
            Key::KeyN => Some(glyph1('n')),
            Key::KeyO => Some(glyph1('o')),
            Key::KeyP => Some(glyph1('p')),
            Key::KeyQ => Some(glyph1('q')),
            Key::KeyR => Some(glyph1('r')),
            Key::KeyS => Some(glyph1('s')),
            Key::KeyT => Some(glyph1('t')),
            Key::KeyU => Some(glyph1('u')),
            Key::KeyV => Some(glyph1('v')),
            Key::KeyW => Some(glyph1('w')),
            Key::KeyX => Some(glyph1('x')),
            Key::KeyY => Some(glyph1('z')),
            Key::KeyZ => Some(glyph1('y')),
            Key::LeftArrow => Some(glyph1('←')),
            Key::LeftBracket => Some(glyph1('[')),
            Key::Minus => Some(glyph1('?')),
            Key::Num0 => Some(glyph1('0')),
            Key::Num1 => Some(glyph1('1')),
            Key::Num2 => Some(glyph1('2')),
            Key::Num3 => Some(glyph1('3')),
            Key::Num4 => Some(glyph1('4')),
            Key::Num5 => Some(glyph1('5')),
            Key::Num6 => Some(glyph1('6')),
            Key::Num7 => Some(glyph1('7')),
            Key::Num8 => Some(glyph1('8')),
            Key::Num9 => Some(glyph1('9')),
            Key::PrintScreen => Some(glyph1('\u{f1786}')),
            Key::Quote => Some(glyph1('>')),
            Key::Return => Some(glyph1('↩')),
            Key::RightArrow => Some(glyph1('→')),
            Key::RightBracket => Some(glyph1(']')),
            Key::SemiColon => Some(glyph1('<')),
            Key::Slash => Some(glyph1('-')),
            Key::Space => Some(glyph1('\u{f1050}')),
            Key::Tab => Some(glyph1('⇥')),
            Key::UpArrow => Some(glyph1('↑')),
            _ => None,
        },
        Profile::Compact => match k {
            Key::Backspace => Some(glyph1('⌫')),
            Key::Equal => Some(glyph1('`')),
            Key::KeyA => Some(glyph1('a')),
            Key::KeyB => Some(glyph1('b')),
            Key::KeyC => Some(glyph1('c')),
            Key::KeyD => Some(glyph1('d')),
            Key::KeyE => Some(glyph1('e')),
            Key::KeyF => Some(glyph1('f')),
            Key::KeyG => Some(glyph1('g')),
            Key::KeyH => Some(glyph1('h')),
            Key::KeyI => Some(glyph1('i')),
            Key::KeyJ => Some(glyph1('j')),
            Key::KeyK => Some(glyph1('k')),
            Key::KeyL => Some(glyph1('l')),
            Key::KeyM => Some(glyph1('m')),
            Key::KeyN => Some(glyph1('n')),
            Key::KeyO => Some(glyph1('o')),
            Key::KeyP => Some(glyph1('p')),
            Key::KeyQ => Some(glyph1('q')),
            Key::KeyR => Some(glyph1('r')),
            Key::KeyS => Some(glyph1('s')),
            Key::KeyT => Some(glyph1('t')),
            Key::KeyU => Some(glyph1('u')),
            Key::KeyV => Some(glyph1('v')),
            Key::KeyW => Some(glyph1('w')),
            Key::KeyX => Some(glyph1('x')),
            Key::KeyY => Some(glyph1('y')),
            Key::KeyZ => Some(glyph1('z')),
            Key::Num0 => Some(glyph1('0')),
            Key::Num1 => Some(glyph1('1')),
            Key::Num2 => Some(glyph1('2')),
            Key::Num3 => Some(glyph1('3')),
            Key::Num4 => Some(glyph1('4')),
            Key::Num5 => Some(glyph1('5')),
            Key::Num6 => Some(glyph1('6')),
            Key::Num7 => Some(glyph1('7')),
            Key::Num8 => Some(glyph1('8')),
            Key::Num9 => Some(glyph1('9')),
            Key::Return => Some(glyph1('↩')),
            Key::Space => Some(glyph1('\u{f1050}')),
            _ => None,
        },
    }
}

} // verus!
