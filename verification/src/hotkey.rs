//! Global hotkeys written as text, such as `Ctrl+Alt+Pause`.

use vstd::prelude::*;
use crate::text::{chars_of, is_white_space, is_word, string_of, white_space};

verus! {

/// Win32 `MOD_ALT`.
pub const MOD_ALT: u32 = 1;

/// Win32 `MOD_CONTROL`.
pub const MOD_CONTROL: u32 = 2;

/// Win32 `MOD_SHIFT`.
pub const MOD_SHIFT: u32 = 4;

/// Win32 `MOD_WIN`.
pub const MOD_WIN: u32 = 8;

/// A hotkey: Win32 modifier bits and a virtual-key code.
#[derive(Clone, Copy, Debug, PartialEq, Eq, Structural)]
pub struct Hotkey {
    pub modifiers: u32,
    pub vk: u32,
}

/// Why a text is not a `u32` in decimal, as `str::parse::<u32>` tells it.
#[derive(Clone, Copy, Debug, PartialEq, Eq, Structural)]
pub enum NumberError {
    /// No characters.
    Empty,
    /// A character that is no decimal digit.
    InvalidDigit,
    /// The value exceeds `u32::MAX`.
    Overflow,
}

/// Why a hotkey text was refused.
#[derive(Debug)]
pub enum HotkeyError {
    /// Fewer than two non-blank parts: a hotkey needs a modifier and a key.
    TooFewParts,
    /// A part before the key is no modifier (the part, trimmed).
    UnknownModifier(String),
    /// `F` followed by something that is not a `u32` in decimal.
    BadFunctionNumber(NumberError),
    /// A function key outside F1..F24.
    FunctionKeyOutOfRange,
    /// A key that is neither named nor a single ASCII character (upper-cased).
    UnsupportedKey(String),
}

/// `HotkeyError` with its texts as character sequences.
pub enum HotkeyFault {
    TooFewParts,
    UnknownModifier(Seq<char>),
    BadFunctionNumber(NumberError),
    FunctionKeyOutOfRange,
    UnsupportedKey(Seq<char>),
}

impl View for HotkeyError {
    type V = HotkeyFault;

    open spec fn view(&self) -> HotkeyFault {
        match self {
            HotkeyError::TooFewParts => HotkeyFault::TooFewParts,
            HotkeyError::UnknownModifier(s) => HotkeyFault::UnknownModifier(s@),
            HotkeyError::BadFunctionNumber(e) => HotkeyFault::BadFunctionNumber(*e),
            HotkeyError::FunctionKeyOutOfRange => HotkeyFault::FunctionKeyOutOfRange,
            HotkeyError::UnsupportedKey(s) => HotkeyFault::UnsupportedKey(s@),
        }
    }
}

/// `s` without its leading white space.
pub open spec fn trim_start(s: Seq<char>) -> Seq<char>
    decreases s.len(),
{
    if s.len() > 0 && is_white_space(s[0]) {
        trim_start(s.drop_first())
    } else {
        s
    }
}

/// `s` without its trailing white space.
pub open spec fn trim_end(s: Seq<char>) -> Seq<char>
    decreases s.len(),
{
    if s.len() > 0 && is_white_space(s.last()) {
        trim_end(s.drop_last())
    } else {
        s
    }
}

/// `s` without leading and trailing white space.
pub open spec fn trim(s: Seq<char>) -> Seq<char> {
    trim_end(trim_start(s))
}

/// The pieces of `s` between `+` signs, as `str::split('+')` yields them.
pub open spec fn split_plus(s: Seq<char>) -> Seq<Seq<char>>
    decreases s.len(),
{
    if s.len() == 0 {
        seq![Seq::empty()]
    } else {
        let p = split_plus(s.drop_last());
        if s.last() == '+' {
            p.push(Seq::empty())
        } else {
            p.update(p.len() - 1, p.last().push(s.last()))
        }
    }
}

/// The trimmed pieces that are not blank, in order.
pub open spec fn nonblank(ps: Seq<Seq<char>>) -> Seq<Seq<char>>
    decreases ps.len(),
{
    if ps.len() == 0 {
        Seq::empty()
    } else if trim(ps.last()).len() == 0 {
        nonblank(ps.drop_last())
    } else {
        nonblank(ps.drop_last()).push(trim(ps.last()))
    }
}

/// The parts of a hotkey text.
pub open spec fn hotkey_parts(s: Seq<char>) -> Seq<Seq<char>> {
    nonblank(split_plus(s))
}

/// ASCII lower case of one character.
pub open spec fn lower_char(c: char) -> char {
    if 'A' <= c <= 'Z' {
        ((c as u32) + 32) as char
    } else {
        c
    }
}

/// ASCII upper case of one character.
pub open spec fn upper_char(c: char) -> char {
    if 'a' <= c <= 'z' {
        ((c as u32) - 32) as char
    } else {
        c
    }
}

pub open spec fn ascii_lower(s: Seq<char>) -> Seq<char> {
    s.map_values(|c: char| lower_char(c))
}

pub open spec fn ascii_upper(s: Seq<char>) -> Seq<char> {
    s.map_values(|c: char| upper_char(c))
}

/// The modifier bit that a lower-cased word names.
pub open spec fn modifier_bit(w: Seq<char>) -> Option<u32> {
    if w == seq!['c', 't', 'r', 'l'] || w == seq!['c', 'o', 'n', 't', 'r', 'o', 'l'] {
        Some(MOD_CONTROL)
    } else if w == seq!['a', 'l', 't'] {
        Some(MOD_ALT)
    } else if w == seq!['s', 'h', 'i', 'f', 't'] {
        Some(MOD_SHIFT)
    } else if w == seq!['w', 'i', 'n'] || w == seq!['s', 'u', 'p', 'e', 'r'] {
        Some(MOD_WIN)
    } else {
        None
    }
}

/// The modifier bits of the parts, or the first part that names none.
pub open spec fn modifier_scan(ps: Seq<Seq<char>>) -> Result<u32, Seq<char>>
    decreases ps.len(),
{
    if ps.len() == 0 {
        Ok(0)
    } else {
        match modifier_scan(ps.drop_last()) {
            Err(p) => Err(p),
            Ok(m) => match modifier_bit(ascii_lower(ps.last())) {
                Some(b) => Ok(m | b),
                None => Err(ps.last()),
            },
        }
    }
}

/// The value of a decimal digit character.
pub open spec fn digit_value(c: char) -> int {
    (c as u32) - ('0' as u32)
}

pub open spec fn is_digit(c: char) -> bool {
    '0' <= c <= '9'
}

/// Reading the digits of `d` from the left, as `str::parse::<u32>` does for a
/// text without a sign: the value, or the first problem met (a non-digit, or
/// a value past `u32::MAX`).
pub open spec fn scan_u32(d: Seq<char>) -> Result<u32, NumberError>
    decreases d.len(),
{
    if d.len() == 0 {
        Ok(0)
    } else {
        match scan_u32(d.drop_last()) {
            Err(e) => Err(e),
            Ok(v) => if !is_digit(d.last()) {
                Err(NumberError::InvalidDigit)
            } else if v * 10 + digit_value(d.last()) > u32::MAX {
                Err(NumberError::Overflow)
            } else {
                Ok((v * 10 + digit_value(d.last())) as u32)
            },
        }
    }
}

/// What `str::parse::<u32>` gives for a text without a sign.
pub open spec fn parse_u32(d: Seq<char>) -> Result<u32, NumberError> {
    if d.len() == 0 {
        Err(NumberError::Empty)
    } else {
        scan_u32(d)
    }
}

/// The virtual-key code of the upper-cased key part.
pub open spec fn key_vk(k: Seq<char>) -> Result<u32, HotkeyFault> {
    if k == seq!['P', 'A', 'U', 'S', 'E'] {
        Ok(0x13)
    } else if k == seq!['I', 'N', 'S', 'E', 'R', 'T'] {
        Ok(0x2d)
    } else if k == seq!['D', 'E', 'L', 'E', 'T', 'E'] {
        Ok(0x2e)
    } else if k == seq!['H', 'O', 'M', 'E'] {
        Ok(0x24)
    } else if k == seq!['E', 'N', 'D'] {
        Ok(0x23)
    } else if k.len() > 0 && k[0] == 'F' {
        match parse_u32(k.drop_first()) {
            Err(e) => Err(HotkeyFault::BadFunctionNumber(e)),
            Ok(n) => if 1 <= n <= 24 {
                Ok((0x6f + n) as u32)
            } else {
                Err(HotkeyFault::FunctionKeyOutOfRange)
            },
        }
    } else if k.len() == 1 && (k[0] as u32) < 0x80 {
        Ok(k[0] as u32)
    } else {
        Err(HotkeyFault::UnsupportedKey(k))
    }
}

/// What `Hotkey::parse` answers: the text is split at `+`, each piece
/// trimmed, blank pieces dropped; all parts but the last must be modifiers
/// (case-insensitive) and the last is the key.
pub open spec fn hotkey_parse(s: Seq<char>) -> Result<Hotkey, HotkeyFault> {
    let ps = hotkey_parts(s);
    if ps.len() < 2 {
        Err(HotkeyFault::TooFewParts)
    } else {
        match modifier_scan(ps.drop_last()) {
            Err(p) => Err(HotkeyFault::UnknownModifier(p)),
            Ok(m) => match key_vk(ascii_upper(ps.last())) {
                Err(e) => Err(e),
                Ok(vk) => Ok(Hotkey { modifiers: m, vk }),
            },
        }
    }
}

/// Whether a lower-cased word is a name of the modifier with this bit:
/// `ctrl` or `control` for Control, `alt` for Alt, `shift` for Shift, `win`
/// or `super` for the Windows key.
pub open spec fn names_bit(w: Seq<char>, bit: u32) -> bool {
    ||| bit == MOD_CONTROL && (w == seq!['c', 't', 'r', 'l'] || w == seq![
        'c',
        'o',
        'n',
        't',
        'r',
        'o',
        'l',
    ])
    ||| bit == MOD_ALT && w == seq!['a', 'l', 't']
    ||| bit == MOD_SHIFT && w == seq!['s', 'h', 'i', 'f', 't']
    ||| bit == MOD_WIN && (w == seq!['w', 'i', 'n'] || w == seq!['s', 'u', 'p', 'e', 'r'])
}

/// Whether a word, in any case, names one of the four modifiers.
pub open spec fn is_modifier_word(w: Seq<char>) -> bool {
    names_bit(ascii_lower(w), MOD_CONTROL) || names_bit(ascii_lower(w), MOD_ALT) || names_bit(
        ascii_lower(w),
        MOD_SHIFT,
    ) || names_bit(ascii_lower(w), MOD_WIN)
}

/// Whether some part, in any case, names the modifier with this bit.
pub open spec fn some_part_names(ps: Seq<Seq<char>>, bit: u32) -> bool {
    exists|i: int| 0 <= i < ps.len() && names_bit(ascii_lower(#[trigger] ps[i]), bit)
}

proof fn lemma_or_bits(a: u32, b: u32)
    requires
        a < 16,
        b == 1 || b == 2 || b == 4 || b == 8,
    ensures
        (a | b) < 16,
        ((a | b) & 1 != 0) == ((a & 1 != 0) || b == 1),
        ((a | b) & 2 != 0) == ((a & 2 != 0) || b == 2),
        ((a | b) & 4 != 0) == ((a & 4 != 0) || b == 4),
        ((a | b) & 8 != 0) == ((a & 8 != 0) || b == 8),
{
    assert(a < 16 && (b == 1 || b == 2 || b == 4 || b == 8) ==> {
        &&& (a | b) < 16
        &&& ((a | b) & 1 != 0) == ((a & 1 != 0) || b == 1)
        &&& ((a | b) & 2 != 0) == ((a & 2 != 0) || b == 2)
        &&& ((a | b) & 4 != 0) == ((a & 4 != 0) || b == 4)
        &&& ((a | b) & 8 != 0) == ((a & 8 != 0) || b == 8)
    }) by (bit_vector);
}

/// A modifier word names exactly the bit that `modifier_bit` gives it.
proof fn lemma_word_bit(w: Seq<char>)
    ensures
        modifier_bit(w) is Some <==> (names_bit(w, MOD_CONTROL) || names_bit(w, MOD_ALT)
            || names_bit(w, MOD_SHIFT) || names_bit(w, MOD_WIN)),
        forall|b: u32| #[trigger] names_bit(w, b) <==> modifier_bit(w) == Some(b),
{
    let ctrl = seq!['c', 't', 'r', 'l'];
    let control = seq!['c', 'o', 'n', 't', 'r', 'o', 'l'];
    let alt = seq!['a', 'l', 't'];
    let shift = seq!['s', 'h', 'i', 'f', 't'];
    let win = seq!['w', 'i', 'n'];
    let sup = seq!['s', 'u', 'p', 'e', 'r'];
    assert(ctrl.len() == 4 && control.len() == 7 && alt.len() == 3 && shift.len() == 5
        && win.len() == 3 && sup.len() == 5);
    assert(alt[0] != win[0]);
    assert(shift[1] != sup[1]);
}

/// The modifier parts of a hotkey are read in full: they are accepted exactly
/// when every part names a modifier (in any case), and then the bits are the
/// union of the named modifiers and nothing else: Control exactly when some
/// part is `ctrl` or `control`, Alt when some part is `alt`, Shift when some
/// part is `shift`, and the Windows key when some part is `win` or `super`.
/// A refused list names a part that is no modifier.
pub proof fn lemma_modifier_bits(ps: Seq<Seq<char>>)
    ensures
        modifier_scan(ps) is Ok <==> (forall|i: int|
            0 <= i < ps.len() ==> is_modifier_word(#[trigger] ps[i])),
        modifier_scan(ps) matches Ok(m) ==> {
            &&& m < 16
            &&& (m & MOD_CONTROL != 0) == some_part_names(ps, MOD_CONTROL)
            &&& (m & MOD_ALT != 0) == some_part_names(ps, MOD_ALT)
            &&& (m & MOD_SHIFT != 0) == some_part_names(ps, MOD_SHIFT)
            &&& (m & MOD_WIN != 0) == some_part_names(ps, MOD_WIN)
        },
        modifier_scan(ps) matches Err(p) ==> exists|i: int|
            0 <= i < ps.len() && ps[i] == p && !is_modifier_word(p),
    decreases ps.len(),
{
    if ps.len() == 0 {
        assert((0u32 & 1) == 0 && (0u32 & 2) == 0 && (0u32 & 4) == 0 && (0u32 & 8) == 0)
            by (bit_vector);
    } else {
        let init = ps.drop_last();
        let last = ps.last();
        lemma_modifier_bits(init);
        lemma_word_bit(ascii_lower(last));
        assert forall|i: int| 0 <= i < init.len() implies init[i] == ps[i] by {}
        assert(ps[ps.len() - 1] == last);
        match modifier_scan(init) {
            Err(p) => {
                let i = choose|i: int| 0 <= i < init.len() && init[i] == p && !is_modifier_word(p);
                assert(ps[i] == p);
            },
            Ok(m0) => {
                match modifier_bit(ascii_lower(last)) {
                    None => {
                        assert(!is_modifier_word(last));
                    },
                    Some(b) => {
                        assert(names_bit(ascii_lower(last), b));
                        lemma_or_bits(m0, b);
                        assert forall|i: int| 0 <= i < ps.len() implies is_modifier_word(
                            #[trigger] ps[i],
                        ) by {
                            if i < init.len() {
                                assert(init[i] == ps[i]);
                            }
                        }
                        assert forall|bit: u32|
                            bit == MOD_CONTROL || bit == MOD_ALT || bit == MOD_SHIFT || bit
                                == MOD_WIN implies #[trigger] some_part_names(ps, bit) == (
                        some_part_names(init, bit) || b == bit) by {
                            if some_part_names(ps, bit) {
                                let i = choose|i: int|
                                    0 <= i < ps.len() && names_bit(ascii_lower(#[trigger] ps[i]), bit);
                                if i < init.len() {
                                    assert(init[i] == ps[i]);
                                } else {
                                    assert(ps[i] == last);
                                }
                            }
                            if some_part_names(init, bit) {
                                let i = choose|i: int|
                                    0 <= i < init.len() && names_bit(
                                        ascii_lower(#[trigger] init[i]),
                                        bit,
                                    );
                                assert(ps[i] == init[i]);
                            }
                            if b == bit {
                                assert(names_bit(ascii_lower(ps[ps.len() - 1]), bit));
                            }
                        }
                        assert(some_part_names(ps, MOD_CONTROL) == (some_part_names(
                            init,
                            MOD_CONTROL,
                        ) || b == MOD_CONTROL));
                        assert(some_part_names(ps, MOD_ALT) == (some_part_names(init, MOD_ALT)
                            || b == MOD_ALT));
                        assert(some_part_names(ps, MOD_SHIFT) == (some_part_names(init, MOD_SHIFT)
                            || b == MOD_SHIFT));
                        assert(some_part_names(ps, MOD_WIN) == (some_part_names(init, MOD_WIN)
                            || b == MOD_WIN));
                    },
                }
            },
        }
        if !(modifier_scan(init) is Ok) {
            let j = choose|j: int| 0 <= j < init.len() && !is_modifier_word(#[trigger] init[j]);
            assert(!is_modifier_word(ps[j]));
        }
    }
}

/// A parsed hotkey carries exactly the modifiers its text names: with parts
/// split at `+` and trimmed, the modifier bits are those named by the parts
/// before the key, so `Win+F12` gives the Windows key and nothing else.
pub proof fn lemma_hotkey_modifiers(s: Seq<char>)
    ensures
        hotkey_parse(s) matches Ok(h) ==> {
            let mods = hotkey_parts(s).drop_last();
            &&& h.modifiers < 16
            &&& (h.modifiers & MOD_CONTROL != 0) == some_part_names(mods, MOD_CONTROL)
            &&& (h.modifiers & MOD_ALT != 0) == some_part_names(mods, MOD_ALT)
            &&& (h.modifiers & MOD_SHIFT != 0) == some_part_names(mods, MOD_SHIFT)
            &&& (h.modifiers & MOD_WIN != 0) == some_part_names(mods, MOD_WIN)
        },
        hotkey_parts(s).len() >= 2 ==> (hotkey_parse(s) matches Err(HotkeyFault::UnknownModifier(p))
            <==> !(forall|i: int|
            0 <= i < hotkey_parts(s).len() - 1 ==> is_modifier_word(
                #[trigger] hotkey_parts(s).drop_last()[i],
            ))),
{
    lemma_modifier_bits(hotkey_parts(s).drop_last());
}

/// The characters of `s` without leading and trailing white space.
fn trim_chars(s: &Vec<char>) -> (t: Vec<char>)
    ensures
        t@ == trim(s@),
{
    let n = s.len();
    let mut lo: usize = 0;
    assert(s@.skip(0) =~= s@);
    while lo < n && white_space(s[lo])
        invariant
            n == s@.len(),
            lo <= n,
            trim_start(s@) == trim_start(s@.skip(lo as int)),
        decreases n - lo,
    {
        assert(s@.skip(lo as int).drop_first() =~= s@.skip(lo + 1));
        lo = lo + 1;
    }
    let ghost u = s@.skip(lo as int);
    assert(trim_start(u) == u);
    let mut hi: usize = n;
    assert(u.take(u.len() as int) =~= u);
    while hi > lo && white_space(s[hi - 1])
        invariant
            n == s@.len(),
            lo <= hi <= n,
            u == s@.skip(lo as int),
            trim_end(u) == trim_end(u.take(hi - lo)),
        decreases hi,
    {
        assert(u.take(hi - lo).drop_last() =~= u.take(hi - 1 - lo));
        hi = hi - 1;
    }
    assert(trim_end(u.take(hi - lo)) == u.take(hi - lo));
    let mut t: Vec<char> = Vec::new();
    let mut i: usize = lo;
    while i < hi
        invariant
            n == s@.len(),
            lo <= i <= hi <= n,
            u == s@.skip(lo as int),
            t@ == u.take(i - lo),
        decreases hi - i,
    {
        t.push(s[i]);
        assert(u.take(i + 1 - lo) =~= u.take(i - lo).push(s@[i as int]));
        i = i + 1;
    }
    t
}

proof fn lemma_split_plus_nonempty(s: Seq<char>)
    ensures
        split_plus(s).len() >= 1,
    decreases s.len(),
{
    if s.len() > 0 {
        lemma_split_plus_nonempty(s.drop_last());
    }
}

/// Views of a list of character vectors.
pub open spec fn views(v: Seq<Vec<char>>) -> Seq<Seq<char>> {
    v.map_values(|x: Vec<char>| x@)
}

/// The pieces of `s` between `+` signs.
fn split_at_plus(s: &Vec<char>) -> (ps: Vec<Vec<char>>)
    ensures
        views(ps@) == split_plus(s@),
{
    let n = s.len();
    let mut ps: Vec<Vec<char>> = Vec::new();
    ps.push(Vec::new());
    assert(s@.take(0) =~= Seq::<char>::empty());
    assert(views(ps@) =~= split_plus(s@.take(0)));
    let mut i: usize = 0;
    while i < n
        invariant
            n == s@.len(),
            i <= n,
            ps@.len() >= 1,
            views(ps@) == split_plus(s@.take(i as int)),
        decreases n - i,
    {
        let c = s[i];
        let ghost before = views(ps@);
        assert(s@.take(i + 1).drop_last() =~= s@.take(i as int));
        proof {
            lemma_split_plus_nonempty(s@.take(i as int));
        }
        if c == '+' {
            ps.push(Vec::new());
            assert(views(ps@) =~= before.push(Seq::empty()));
        } else {
            let mut last = ps.pop().unwrap();
            last.push(c);
            ps.push(last);
            assert(views(ps@) =~= before.update(before.len() - 1, before.last().push(c)));
        }
        i = i + 1;
    }
    assert(s@.take(n as int) =~= s@);
    ps
}

/// The trimmed, non-blank pieces of a hotkey text.
fn parts_of(text: &str) -> (parts: Vec<Vec<char>>)
    ensures
        views(parts@) == hotkey_parts(text@),
{
    let chars = chars_of(text);
    let pieces = split_at_plus(&chars);
    let n = pieces.len();
    let mut parts: Vec<Vec<char>> = Vec::new();
    let mut k: usize = 0;
    assert(views(pieces@).take(0) =~= Seq::<Seq<char>>::empty());
    assert(views(parts@) =~= Seq::<Seq<char>>::empty());
    while k < n
        invariant
            n == pieces@.len(),
            k <= n,
            views(pieces@) == split_plus(chars@),
            views(parts@) == nonblank(views(pieces@).take(k as int)),
        decreases n - k,
    {
        let t = trim_chars(&pieces[k]);
        let ghost before = views(parts@);
        assert(views(pieces@).take(k + 1).drop_last() =~= views(pieces@).take(k as int));
        assert(views(pieces@)[k as int] == pieces@[k as int]@);
        if t.len() > 0 {
            parts.push(t);
            assert(views(parts@) =~= before.push(t@));
        }
        k = k + 1;
    }
    assert(views(pieces@).take(n as int) =~= views(pieces@));
    parts
}

fn lower_vec(v: &Vec<char>) -> (r: Vec<char>)
    ensures
        r@ == ascii_lower(v@),
{
    let n = v.len();
    let mut r: Vec<char> = Vec::new();
    let mut i: usize = 0;
    while i < n
        invariant
            n == v@.len(),
            i <= n,
            r@ == ascii_lower(v@.take(i as int)),
        decreases n - i,
    {
        let c = v[i];
        let l = if 'A' <= c && c <= 'Z' {
            ((c as u8) + 32) as char
        } else {
            c
        };
        assert(l == lower_char(c));
        r.push(l);
        assert(ascii_lower(v@.take(i + 1)) =~= ascii_lower(v@.take(i as int)).push(lower_char(c)));
        i = i + 1;
    }
    assert(v@.take(n as int) =~= v@);
    r
}

fn upper_vec(v: &Vec<char>) -> (r: Vec<char>)
    ensures
        r@ == ascii_upper(v@),
{
    let n = v.len();
    let mut r: Vec<char> = Vec::new();
    let mut i: usize = 0;
    while i < n
        invariant
            n == v@.len(),
            i <= n,
            r@ == ascii_upper(v@.take(i as int)),
        decreases n - i,
    {
        let c = v[i];
        let u = if 'a' <= c && c <= 'z' {
            ((c as u8) - 32) as char
        } else {
            c
        };
        assert(u == upper_char(c));
        r.push(u);
        assert(ascii_upper(v@.take(i + 1)) =~= ascii_upper(v@.take(i as int)).push(upper_char(c)));
        i = i + 1;
    }
    assert(v@.take(n as int) =~= v@);
    r
}

fn modifier_of(w: &Vec<char>) -> (b: Option<u32>)
    ensures
        b == modifier_bit(w@),
{
    let ctrl = ['c', 't', 'r', 'l'];
    let control = ['c', 'o', 'n', 't', 'r', 'o', 'l'];
    let alt = ['a', 'l', 't'];
    let shift = ['s', 'h', 'i', 'f', 't'];
    let win = ['w', 'i', 'n'];
    let sup = ['s', 'u', 'p', 'e', 'r'];
    assert(ctrl@ =~= seq!['c', 't', 'r', 'l']);
    assert(control@ =~= seq!['c', 'o', 'n', 't', 'r', 'o', 'l']);
    assert(alt@ =~= seq!['a', 'l', 't']);
    assert(shift@ =~= seq!['s', 'h', 'i', 'f', 't']);
    assert(win@ =~= seq!['w', 'i', 'n']);
    assert(sup@ =~= seq!['s', 'u', 'p', 'e', 'r']);
    if is_word(w, &ctrl) || is_word(w, &control) {
        Some(MOD_CONTROL)
    } else if is_word(w, &alt) {
        Some(MOD_ALT)
    } else if is_word(w, &shift) {
        Some(MOD_SHIFT)
    } else if is_word(w, &win) || is_word(w, &sup) {
        Some(MOD_WIN)
    } else {
        None
    }
}

/// `str::parse::<u32>` on the characters `k[from..]`, where no sign occurs.
fn parse_decimal(k: &Vec<char>, from: usize) -> (r: Result<u32, NumberError>)
    requires
        from <= k@.len(),
    ensures
        r == parse_u32(k@.skip(from as int)),
{
    let n = k.len();
    let ghost d = k@.skip(from as int);
    if from == n {
        return Err(NumberError::Empty);
    }
    let mut value: u32 = 0;
    let mut i: usize = from;
    assert(d.take(0) =~= Seq::<char>::empty());
    while i < n
        invariant
            n == k@.len(),
            from < n,
            from <= i <= n,
            d == k@.skip(from as int),
            scan_u32(d.take(i - from)) == Ok::<u32, NumberError>(value),
        decreases n - i,
    {
        let c = k[i];
        assert(d.take(i + 1 - from).drop_last() =~= d.take(i - from));
        assert(d.take(i + 1 - from).last() == c);
        if !('0' <= c && c <= '9') {
            proof {
                lemma_scan_error_extends(d, i + 1 - from);
            }
            return Err(NumberError::InvalidDigit);
        }
        let digit = (c as u32) - ('0' as u32);
        if value > (u32::MAX - digit) / 10 {
            proof {
                assert(value * 10 + digit > u32::MAX) by (nonlinear_arith)
                    requires
                        value > (u32::MAX - digit) / 10,
                        digit <= 9,
                ;
                lemma_scan_error_extends(d, i + 1 - from);
            }
            return Err(NumberError::Overflow);
        }
        proof {
            assert(value * 10 + digit <= u32::MAX) by (nonlinear_arith)
                requires
                    value <= (u32::MAX - digit) / 10,
                    digit <= 9,
            ;
        }
        value = value * 10 + digit;
        i = i + 1;
    }
    assert(d.take(n - from) =~= d);
    Ok(value)
}

/// Once reading a prefix has failed, reading the whole text fails the same way.
proof fn lemma_scan_error_extends(d: Seq<char>, k: int)
    requires
        0 <= k <= d.len(),
        scan_u32(d.take(k)) is Err,
    ensures
        scan_u32(d) == scan_u32(d.take(k)),
    decreases d.len() - k,
{
    if k < d.len() {
        assert(d.take(k + 1).drop_last() =~= d.take(k));
        lemma_scan_error_extends(d, k + 1);
    } else {
        assert(d.take(k) =~= d);
    }
}

/// The virtual-key code of an upper-cased key part.
fn key_code_of(k: &Vec<char>) -> (r: Result<u32, HotkeyError>)
    ensures
        match r {
            Ok(vk) => key_vk(k@) == Ok::<u32, HotkeyFault>(vk),
            Err(e) => key_vk(k@) == Err::<u32, HotkeyFault>(e@),
        },
{
    let pause = ['P', 'A', 'U', 'S', 'E'];
    let insert = ['I', 'N', 'S', 'E', 'R', 'T'];
    let delete = ['D', 'E', 'L', 'E', 'T', 'E'];
    let home = ['H', 'O', 'M', 'E'];
    let end = ['E', 'N', 'D'];
    assert(pause@ =~= seq!['P', 'A', 'U', 'S', 'E']);
    assert(insert@ =~= seq!['I', 'N', 'S', 'E', 'R', 'T']);
    assert(delete@ =~= seq!['D', 'E', 'L', 'E', 'T', 'E']);
    assert(home@ =~= seq!['H', 'O', 'M', 'E']);
    assert(end@ =~= seq!['E', 'N', 'D']);
    if is_word(k, &pause) {
        Ok(0x13)
    } else if is_word(k, &insert) {
        Ok(0x2d)
    } else if is_word(k, &delete) {
        Ok(0x2e)
    } else if is_word(k, &home) {
        Ok(0x24)
    } else if is_word(k, &end) {
        Ok(0x23)
    } else if k.len() > 0 && k[0] == 'F' {
        assert(k@.skip(1) =~= k@.drop_first());
        match parse_decimal(k, 1) {
            Err(e) => Err(HotkeyError::BadFunctionNumber(e)),
            Ok(n) => {
                if 1 <= n && n <= 24 {
                    Ok(0x6f + n)
                } else {
                    Err(HotkeyError::FunctionKeyOutOfRange)
                }
            },
        }
    } else if k.len() == 1 && (k[0] as u32) < 0x80 {
        Ok(k[0] as u32)
    } else {
        Err(HotkeyError::UnsupportedKey(string_of(k)))
    }
}

/// Once the modifier scan of a prefix has failed, longer lists fail on the
/// same part.
proof fn lemma_scan_error_sticks(ps: Seq<Seq<char>>, k: int)
    requires
        0 <= k <= ps.len(),
        modifier_scan(ps.take(k)) is Err,
    ensures
        modifier_scan(ps) == modifier_scan(ps.take(k)),
    decreases ps.len() - k,
{
    if k < ps.len() {
        assert(ps.take(k + 1).drop_last() =~= ps.take(k));
        lemma_scan_error_sticks(ps, k + 1);
    } else {
        assert(ps.take(k) =~= ps);
    }
}

impl Hotkey {
    /// Parses a hotkey such as `Ctrl+Alt+Pause` or `Ctrl+Shift+F11`.
    pub fn parse(text: &str) -> (r: Result<Hotkey, HotkeyError>)
        ensures
            match r {
                Ok(h) => hotkey_parse(text@) == Ok::<Hotkey, HotkeyFault>(h),
                Err(e) => hotkey_parse(text@) == Err::<Hotkey, HotkeyFault>(e@),
            },
    {
        let parts = parts_of(text);
        let ghost ps = views(parts@);
        let n = parts.len();
        if n < 2 {
            return Err(HotkeyError::TooFewParts);
        }
        let mut modifiers: u32 = 0;
        let mut i: usize = 0;
        assert(ps.take(0) =~= Seq::<Seq<char>>::empty());
        while i < n - 1
            invariant
                n == parts@.len(),
                n >= 2,
                i <= n - 1,
                ps == views(parts@),
                ps == hotkey_parts(text@),
                modifier_scan(ps.take(i as int)) == Ok::<u32, Seq<char>>(modifiers),
            decreases n - 1 - i,
        {
            let lower = lower_vec(&parts[i]);
            assert(ps.take(i + 1).drop_last() =~= ps.take(i as int));
            assert(ps[i as int] == parts@[i as int]@);
            match modifier_of(&lower) {
                Some(bit) => {
                    modifiers = modifiers | bit;
                },
                None => {
                    proof {
                        assert(ps.drop_last().take(i + 1) =~= ps.take(i + 1));
                        assert(ps.take(i + 1).last() == ps[i as int]);
                        assert(modifier_scan(ps.take(i + 1)) == Err::<u32, Seq<char>>(
                            ps[i as int],
                        ));
                        lemma_scan_error_sticks(ps.drop_last(), i + 1);
                        assert(modifier_scan(ps.drop_last()) == Err::<u32, Seq<char>>(
                            ps[i as int],
                        ));
                    }
                    let err = HotkeyError::UnknownModifier(string_of(&parts[i]));
                    assert(err@ == HotkeyFault::UnknownModifier(ps[i as int]));
                    return Err(err);
                },
            }
            i = i + 1;
        }
        assert(ps.take(n - 1) =~= ps.drop_last());
        assert(ps.last() == parts@[n - 1]@);
        let key = upper_vec(&parts[n - 1]);
        match key_code_of(&key) {
            Ok(vk) => Ok(Hotkey { modifiers, vk }),
            Err(e) => Err(e),
        }
    }
}

} // verus!
