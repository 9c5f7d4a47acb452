//! Macros: named lists of strings to send, and the escape notation
//! (`\r`, `\n`, `\t`, `\\`, `\xHH`) in which those strings are written.
use vstd::prelude::*;
use vstd::string::StringSliceAdditionalSpecFns;

verus! {

broadcast use vstd::string::group_string_axioms;

/// One step of a macro: the text to send and the pause after it.
#[derive(Debug, Clone)]
pub struct MacroStep {
    pub send: String,
    pub delay_ms: u64,
}

/// A named list of steps.
#[derive(Debug, Clone)]
pub struct Macro {
    pub name: String,
    pub steps: Vec<MacroStep>,
}

/// The value of one hexadecimal digit, either case.
pub open spec fn hex_value(c: u8) -> Option<u8> {
    if 0x30 <= c <= 0x39 {
        Some((c - 0x30) as u8)
    } else if 0x61 <= c <= 0x66 {
        Some((c - 0x61 + 10) as u8)
    } else if 0x41 <= c <= 0x46 {
        Some((c - 0x41 + 10) as u8)
    } else {
        None
    }
}

/// What `u8::from_str_radix(.., 16)` gives for a two-character string: two
/// hex digits, or a `+` sign followed by one; anything else is refused.
pub open spec fn parse_hex_pair(hi: u8, lo: u8) -> Option<u8> {
    if hi == 0x2b {
        hex_value(lo)
    } else {
        match (hex_value(hi), hex_value(lo)) {
            (Some(a), Some(b)) => Some((a * 16 + b) as u8),
            _ => None,
        }
    }
}

/// Whether a byte continues a multi-byte UTF-8 character.
pub open spec fn continues_char(b: u8) -> bool {
    0x80 <= b <= 0xbf
}

/// The text of a `\x` escape at `i` is taken as the string slice of bytes
/// `i + 2 .. i + 4`; that slice exists only when both ends fall between
/// characters, that is (for the bytes of a string) when neither end byte
/// continues a character.
pub open spec fn hex_slice_fits(b: Seq<u8>, i: int) -> bool {
    &&& !continues_char(b[i + 2])
    &&& (i + 4 == b.len() || !continues_char(b[i + 4]))
}

/// `o` with `p` put in front of the sequence it holds.
pub open spec fn prefixed(p: Seq<u8>, o: Option<Seq<u8>>) -> Option<Seq<u8>> {
    match o {
        Some(r) => Some(p + r),
        None => None,
    }
}

/// The bytes that the escape notation turns `b[i..]` into, or `None` where a
/// `\x` escape would have to cut a character in two.
///
/// Scanning left to right: `\r`, `\n`, `\t` and `\\` become the control byte
/// or backslash; `\x` followed by two more bytes that `parse_hex_pair`
/// accepts becomes that byte; any other byte, including a backslash that
/// starts no escape, is copied and the scan moves on by one.
pub open spec fn expand_from(b: Seq<u8>, i: int) -> Option<Seq<u8>>
    decreases b.len() - i,
{
    if i < 0 || i >= b.len() {
        Some(Seq::empty())
    } else if b[i] == 0x5c && i + 1 < b.len() {
        let e = b[i + 1];
        if e == 0x72 {
            prefixed(seq![0x0du8], expand_from(b, i + 2))
        } else if e == 0x6e {
            prefixed(seq![0x0au8], expand_from(b, i + 2))
        } else if e == 0x74 {
            prefixed(seq![0x09u8], expand_from(b, i + 2))
        } else if e == 0x78 && i + 3 < b.len() {
            if !hex_slice_fits(b, i) {
                None
            } else {
                match parse_hex_pair(b[i + 2], b[i + 3]) {
                    Some(v) => prefixed(seq![v], expand_from(b, i + 4)),
                    None => prefixed(seq![b[i]], expand_from(b, i + 1)),
                }
            }
        } else if e == 0x5c {
            prefixed(seq![0x5cu8], expand_from(b, i + 2))
        } else {
            prefixed(seq![b[i]], expand_from(b, i + 1))
        }
    } else {
        prefixed(seq![b[i]], expand_from(b, i + 1))
    }
}

/// The escape expansion of a whole byte sequence.
pub open spec fn escape_expansion(b: Seq<u8>) -> Option<Seq<u8>> {
    expand_from(b, 0)
}

fn hex_value_exec(c: u8) -> (r: Option<u8>)
    ensures
        r == hex_value(c),
{
    if 0x30 <= c && c <= 0x39 {
        Some(c - 0x30)
    } else if 0x61 <= c && c <= 0x66 {
        Some(c - 0x61 + 10)
    } else if 0x41 <= c && c <= 0x46 {
        Some(c - 0x41 + 10)
    } else {
        None
    }
}

fn parse_hex_pair_exec(hi: u8, lo: u8) -> (r: Option<u8>)
    ensures
        r == parse_hex_pair(hi, lo),
{
    if hi == 0x2b {
        hex_value_exec(lo)
    } else {
        match (hex_value_exec(hi), hex_value_exec(lo)) {
            (Some(a), Some(b)) => Some(a * 16 + b),
            _ => None,
        }
    }
}

/// Expands the escapes of `s`, or gives `None` on exactly the strings for
/// which `expand_escapes` would have to split a character.
pub fn expand_escapes_checked(s: &str) -> (r: Option<Vec<u8>>)
    ensures
        r matches Some(v) ==> escape_expansion(s.spec_bytes()) == Some(v@),
        r is None <==> escape_expansion(s.spec_bytes()) is None,
{
    let bytes = s.as_bytes();
    let ghost b = bytes@;
    let mut result: Vec<u8> = Vec::new();
    let mut i: usize = 0;
    while i < bytes.len()
        invariant
            b == bytes@,
            b == s.spec_bytes(),
            i <= b.len(),
            escape_expansion(b) == prefixed(result@, expand_from(b, i as int)),
        decreases b.len() - i,
    {
        let ghost before = result@;
        if bytes[i] == 0x5c && i + 1 < bytes.len() {
            let e = bytes[i + 1];
            if e == 0x72 {
                result.push(0x0d);
                i += 2;
            } else if e == 0x6e {
                result.push(0x0a);
                i += 2;
            } else if e == 0x74 {
                result.push(0x09);
                i += 2;
            } else if e == 0x78 && bytes.len() - i > 3 {
                let fits = !(0x80 <= bytes[i + 2] && bytes[i + 2] <= 0xbf) && (i + 4
                    == bytes.len() || !(0x80 <= bytes[i + 4] && bytes[i + 4] <= 0xbf));
                if !fits {
                    return None;
                }
                match parse_hex_pair_exec(bytes[i + 2], bytes[i + 3]) {
                    Some(v) => {
                        result.push(v);
                        i += 4;
                    },
                    None => {
                        result.push(bytes[i]);
                        i += 1;
                    },
                }
            } else if e == 0x5c {
                result.push(0x5c);
                i += 2;
            } else {
                result.push(bytes[i]);
                i += 1;
            }
        } else {
            result.push(bytes[i]);
            i += 1;
        }
        proof {
            assert(escape_expansion(b) == prefixed(result@, expand_from(b, i as int))) by {
                match expand_from(b, i as int) {
                    Some(r) => {
                        assert(before + (result@.skip(before.len() as int) + r) =~= result@ + r);
                        assert(result@ =~= before + result@.skip(before.len() as int));
                    },
                    None => {},
                }
            }
        }
    }
    Some(result)
}

/// Turns the escape notation of `s` into the bytes it stands for (see
/// `expand_from`).  Defined on every string whose `\x` escapes do not have to
/// split a character.
pub fn expand_escapes(s: &str) -> (r: Vec<u8>)
    requires
        escape_expansion(s.spec_bytes()) is Some,
    ensures
        escape_expansion(s.spec_bytes()) == Some(r@),
{
    match expand_escapes_checked(s) {
        Some(v) => v,
        None => Vec::new(),
    }
}


/// What playing a macro does at step `i`.
#[derive(Debug)]
pub enum PlayStep {
    /// Send these bytes, then pause for this many milliseconds (no pause
    /// when zero).
    Send(Vec<u8>, u64),
    /// The step's text has a `\x` escape that would split a character: the
    /// macro's task ends there with a panic.
    BadEscape,
    /// There is no step `i`: the macro is done.
    Finished,
}

/// Step `i` of playing macro `m`: its text expanded (see `expand_escapes`)
/// and its pause, or the end of the macro.
pub fn play_step(m: &Macro, i: usize) -> (r: PlayStep)
    ensures
        i >= m.steps@.len() <==> r is Finished,
        i < m.steps@.len() ==> match escape_expansion(vstd::utf8::encode_utf8(m.steps@[i as int].send@)) {
            Some(v) => r matches PlayStep::Send(data, pause) && data@ == v && pause
                == m.steps@[i as int].delay_ms,
            None => r is BadEscape,
        },
{
    if i >= m.steps.len() {
        return PlayStep::Finished;
    }
    let step = &m.steps[i];
    match expand_escapes_checked(step.send.as_str()) {
        Some(data) => PlayStep::Send(data, step.delay_ms),
        None => PlayStep::BadEscape,
    }
}

/// Text without backslashes has no escapes: it is sent byte for byte.
pub proof fn law_plain_text_unchanged(b: Seq<u8>)
    requires
        forall|i: int| 0 <= i < b.len() ==> b[i] != 0x5c,
    ensures
        escape_expansion(b) == Some(b),
{
    lemma_plain_from(b, 0);
    assert(b.subrange(0, b.len() as int) =~= b);
}

proof fn lemma_plain_from(b: Seq<u8>, i: int)
    requires
        0 <= i <= b.len(),
        forall|j: int| 0 <= j < b.len() ==> b[j] != 0x5c,
    ensures
        expand_from(b, i) == Some(b.subrange(i, b.len() as int)),
    decreases b.len() - i,
{
    if i < b.len() {
        lemma_plain_from(b, i + 1);
        assert(seq![b[i]] + b.subrange(i + 1, b.len() as int) =~= b.subrange(i, b.len() as int));
    } else {
        assert(b.subrange(i, b.len() as int) =~= Seq::<u8>::empty());
    }
}

/// The hexadecimal digit for `n` (below 16): `0`-`9`, then `A`-`F` when
/// `upper`, else `a`-`f`.
pub open spec fn hex_digit(n: int, upper: bool) -> u8 {
    if n < 10 {
        (0x30 + n) as u8
    } else if upper {
        (0x41 + n - 10) as u8
    } else {
        (0x61 + n - 10) as u8
    }
}

/// `\x` followed by the two hexadecimal digits of a byte, in either case,
/// stands for that byte: `\x0D` is a carriage return, `\xff` and `\xFF` are
/// 255.
pub proof fn law_hex_escape_gives_its_byte(b: u8, upper_hi: bool, upper_lo: bool)
    ensures
        escape_expansion(seq![0x5cu8, 0x78u8, hex_digit(b as int / 16, upper_hi), hex_digit(b as int % 16, upper_lo)])
            == Some(seq![b]),
{
    let hi = hex_digit(b as int / 16, upper_hi);
    let lo = hex_digit(b as int % 16, upper_lo);
    let s = seq![0x5cu8, 0x78u8, hi, lo];
    assert(b / 16 < 16 && b % 16 < 16);
    assert(hex_value(hi) == Some((b / 16) as u8));
    assert(hex_value(lo) == Some((b % 16) as u8));
    assert((b / 16) * 16 + b % 16 == b) by (nonlinear_arith);
    assert(parse_hex_pair(hi, lo) == Some(b));
    assert(hex_slice_fits(s, 0));
    assert(expand_from(s, 4) == Some(Seq::<u8>::empty()));
    assert(seq![b] + Seq::<u8>::empty() =~= seq![b]);
    assert(expand_from(s, 0) == prefixed(seq![b], expand_from(s, 4)));
}

/// The byte a one-letter escape `\` + `e` stands for: `r` a carriage
/// return, `n` a line feed, `t` a tab, and a second backslash a backslash.
pub open spec fn simple_escape_byte(e: u8) -> Option<u8> {
    if e == 0x72 {
        Some(0x0du8)
    } else if e == 0x6e {
        Some(0x0au8)
    } else if e == 0x74 {
        Some(0x09u8)
    } else if e == 0x5c {
        Some(0x5cu8)
    } else {
        None
    }
}

/// Expanding from inside a sequence reads only what follows.
proof fn lemma_expand_suffix(a: Seq<u8>, b: Seq<u8>, k: int)
    requires
        0 <= k <= b.len(),
    ensures
        expand_from(a + b, a.len() + k) == expand_from(b, k),
    decreases b.len() - k,
{
    let ab = a + b;
    let i = a.len() + k;
    if k < b.len() {
        assert(ab[i] == b[k]);
        if k + 1 < b.len() {
            assert(ab[i + 1] == b[k + 1]);
        }
        if k + 2 < b.len() {
            assert(ab[i + 2] == b[k + 2]);
        }
        if k + 3 < b.len() {
            assert(ab[i + 3] == b[k + 3]);
        }
        if k + 4 < b.len() {
            assert(ab[i + 4] == b[k + 4]);
        }
        if k + 1 <= b.len() {
            lemma_expand_suffix(a, b, k + 1);
        }
        if k + 2 <= b.len() {
            lemma_expand_suffix(a, b, k + 2);
        }
        if k + 4 <= b.len() {
            lemma_expand_suffix(a, b, k + 4);
        }
    }
}

/// The one-letter escapes: `\r`, `\n`, `\t` and `\\` put a carriage return,
/// a line feed, a tab and a backslash in place of the two characters, and
/// the rest of the text is expanded as it would be on its own.
pub proof fn law_simple_escapes(e: u8, rest: Seq<u8>)
    requires
        simple_escape_byte(e) is Some,
    ensures
        escape_expansion(seq![0x5cu8, e] + rest) == prefixed(
            seq![simple_escape_byte(e)->0],
            escape_expansion(rest),
        ),
{
    let s = seq![0x5cu8, e] + rest;
    assert(s[0] == 0x5cu8 && s[1] == e);
    lemma_expand_suffix(seq![0x5cu8, e], rest, 0);
    assert(expand_from(s, 2) == expand_from(rest, 0));
}

} // verus!
