//! Character-level building blocks shared by the console's text output:
//! decimal and hexadecimal rendering, padding, and the few standard-library
//! string conversions the rest of the crate relies on.
use vstd::prelude::*;
use vstd::utf8::*;

verus! {

broadcast use vstd::string::group_string_axioms;

// ---------------------------------------------------------------------------
// Standard-library conversions
// ---------------------------------------------------------------------------

/// What `String::from_utf8_lossy` makes of a byte sequence: a function of the
/// bytes alone.
pub uninterp spec fn utf8_lossy(bytes: Seq<u8>) -> Seq<char>;

/// `String::from_utf8_lossy`, made owned.  The result is named by
/// `utf8_lossy`; where the bytes are valid UTF-8 the standard documentation
/// says nothing is replaced, so the result is their plain decoding.  How
/// invalid sequences are replaced is left unsaid here.
#[verifier::external_body]
pub(crate) fn lossy_string(bytes: &[u8]) -> (s: String)
    ensures
        s@ == utf8_lossy(bytes@),
        valid_utf8(bytes@) ==> s@ == decode_utf8(bytes@),
{
    String::from_utf8_lossy(bytes).into_owned()
}

/// What `str::to_lowercase` makes of a string: a function of its characters.
pub uninterp spec fn lowercase(s: Seq<char>) -> Seq<char>;

/// What `format!("{:?}", s)` makes of a string: a function of its characters.
pub uninterp spec fn debug_text(s: Seq<char>) -> Seq<char>;

/// Every character is printable ASCII (space to `~`).
pub open spec fn printable_ascii(s: Seq<char>) -> bool {
    forall|i: int| 0 <= i < s.len() ==> ' ' <= #[trigger] s[i] <= '~'
}

/// The characters of `s` with a backslash before each `"` and `\`.
pub open spec fn escaped_printable(s: Seq<char>) -> Seq<char>
    decreases s.len(),
{
    if s.len() == 0 {
        Seq::empty()
    } else {
        escaped_printable(s.drop_last()) + if s.last() == '"' || s.last() == '\\' {
            seq!['\\', s.last()]
        } else {
            seq![s.last()]
        }
    }
}

/// The debug form of a string: for printable ASCII, the string in double
/// quotes with `"` and `\` escaped by a backslash; else whatever
/// `debug_text` gives.
pub open spec fn debug_form(s: Seq<char>) -> Seq<char> {
    if printable_ascii(s) {
        seq!['"'] + escaped_printable(s) + seq!['"']
    } else {
        debug_text(s)
    }
}

/// `format!("{:?}", s)`: the string as a quoted literal.  The result is named
/// by `debug_text`; for printable ASCII characters it is the string between
/// double quotes, with a backslash before each `"` and `\` and every other
/// character as it is.  How control and non-ASCII characters are escaped is
/// left unsaid.
#[verifier::external_body]
pub(crate) fn debug_quoted(s: &str) -> (r: String)
    ensures
        r@ == debug_text(s@),
        printable_ascii(s@) ==> r@ == seq!['"'] + escaped_printable(s@) + seq!['"'],
{
    format!("{:?}", s)
}

/// ASCII lowercasing of one character.
pub open spec fn ascii_lower_char(c: char) -> char {
    if 'A' <= c <= 'Z' {
        ((c as u32) + 32) as char
    } else {
        c
    }
}

/// A word lowercased: ASCII lowering for a word of ASCII characters (what
/// `str::to_lowercase` does to those), else whatever `lowercase` gives.
pub open spec fn lowered(s: Seq<char>) -> Seq<char> {
    if is_ascii_chars(s) {
        s.map_values(|c: char| ascii_lower_char(c))
    } else {
        lowercase(s)
    }
}

/// `str::to_lowercase`.  The result is named by `lowercase`; for a string of
/// ASCII characters only, the Unicode lowercase mapping is the ASCII one.
/// What it does to other characters is left unsaid.
#[verifier::external_body]
pub(crate) fn to_lowercase(s: &str) -> (r: String)
    ensures
        r@ == lowercase(s@),
        is_ascii_chars(s@) ==> r@ == s@.map_values(|c: char| ascii_lower_char(c)),
{
    s.to_lowercase()
}

/// `String: FromIterator<char>`: the string holds exactly the given characters.
#[verifier::external_body]
pub(crate) fn string_from_chars(chars: &Vec<char>) -> (s: String)
    ensures
        s@ == chars@,
{
    chars.iter().collect()
}

/// `String::insert`: puts `c` at byte position `idx`, which must fall
/// between characters (or at the end); the standard documentation says it
/// panics otherwise.  The string's bytes become those before `idx`, the
/// encoding of `c`, and those from `idx` on.
#[verifier::external_body]
pub(crate) fn string_insert(s: &mut String, idx: usize, c: char)
    requires
        is_char_boundary(encode_utf8(old(s)@), idx as int),
    ensures
        encode_utf8(final(s)@) == encode_utf8(old(s)@).take(idx as int) + encode_utf8(seq![c])
            + encode_utf8(old(s)@).skip(idx as int),
{
    s.insert(idx, c)
}

/// `String::remove`: takes out and returns the character starting at byte
/// position `idx`, which must start a character; the standard documentation
/// says it panics otherwise, and at or past the end.  The string's bytes
/// lose exactly that character's encoding.
#[verifier::external_body]
pub(crate) fn string_remove(s: &mut String, idx: usize) -> (c: char)
    requires
        is_char_boundary(encode_utf8(old(s)@), idx as int),
        idx < encode_utf8(old(s)@).len(),
    ensures
        idx + encode_utf8(seq![c]).len() <= encode_utf8(old(s)@).len(),
        encode_utf8(old(s)@).subrange(idx as int, idx + encode_utf8(seq![c]).len()) == encode_utf8(
            seq![c],
        ),
        encode_utf8(final(s)@) == encode_utf8(old(s)@).take(idx as int) + encode_utf8(old(s)@).skip(
            idx + encode_utf8(seq![c]).len(),
        ),
{
    s.remove(idx)
}

/// The characters of `s`, in order.
pub fn chars_of(s: &str) -> (v: Vec<char>)
    ensures
        v@ == s@,
{
    let mut v: Vec<char> = Vec::new();
    for c in it: s.chars()
        invariant
            it.seq() == s@,
            v@ == it.seq().take(it.index() as int),
    {
        v.push(c);
    }
    v
}

/// Appends the characters of `s` to `v`.
pub fn push_str(v: &mut Vec<char>, s: &str)
    ensures
        final(v)@ == old(v)@ + s@,
{
    let ghost start = v@;
    for c in it: s.chars()
        invariant
            it.seq() == s@,
            v@ == start + it.seq().take(it.index() as int),
    {
        v.push(c);
        proof {
            assert(it.seq().take(it.index() as int + 1) =~= it.seq().take(it.index() as int).push(c));
        }
    }
    assert(s@.take(s@.len() as int) =~= s@);
}

/// Appends the characters of `s` to `v`.
pub fn push_chars(v: &mut Vec<char>, s: &Vec<char>)
    ensures
        final(v)@ == old(v)@ + s@,
{
    let ghost start = v@;
    let mut i: usize = 0;
    while i < s.len()
        invariant
            i <= s.len(),
            v@ == start + s@.take(i as int),
        decreases s.len() - i,
    {
        v.push(s[i]);
        i += 1;
        proof {
            assert(s@.take(i as int) =~= s@.take(i - 1).push(s@[i - 1]));
        }
    }
    assert(s@.take(s@.len() as int) =~= s@);
}

/// The characters of `a` followed by those of `b`.
pub fn concat(a: &str, b: &str) -> (s: String)
    ensures
        s@ == a@ + b@,
{
    let mut v = chars_of(a);
    push_str(&mut v, b);
    string_from_chars(&v)
}

/// The characters of `a`, `b` and `c` in turn.
pub fn concat3(a: &str, b: &str, c: &str) -> (s: String)
    ensures
        s@ == a@ + b@ + c@,
{
    let mut v = chars_of(a);
    push_str(&mut v, b);
    push_str(&mut v, c);
    string_from_chars(&v)
}

/// Whether two strings hold the same characters.
pub fn str_equals(a: &str, b: &str) -> (r: bool)
    ensures
        r == (a@ == b@),
{
    let va = chars_of(a);
    let vb = chars_of(b);
    if va.len() != vb.len() {
        return false;
    }
    let mut i: usize = 0;
    while i < va.len()
        invariant
            va@ == a@,
            vb@ == b@,
            va.len() == vb.len(),
            i <= va.len(),
            forall|j: int| 0 <= j < i ==> va@[j] == vb@[j],
        decreases va.len() - i,
    {
        if va[i] != vb[i] {
            return false;
        }
        i += 1;
    }
    assert(a@ =~= b@);
    true
}

// ---------------------------------------------------------------------------
// Decimal numbers
// ---------------------------------------------------------------------------

/// The decimal digit for `d < 10`.
pub open spec fn digit_char(d: nat) -> char {
    ((d + 48) as u8) as char
}

/// The decimal digits of `n`, most significant first, without leading zeros
/// ("0" for zero): what `{}` prints for an unsigned number.
pub open spec fn decimal(n: nat) -> Seq<char>
    decreases n,
{
    if n < 10 {
        seq![digit_char(n)]
    } else {
        decimal(n / 10).push(digit_char(n % 10))
    }
}

/// What `{}` prints for a signed number.
pub open spec fn signed_decimal(n: int) -> Seq<char> {
    if n < 0 {
        seq!['-'] + decimal((-n) as nat)
    } else {
        decimal(n as nat)
    }
}

/// What `{:02}` prints for a signed number: zero-padded to two characters,
/// the sign counting toward the width.
pub open spec fn two_digit(n: int) -> Seq<char> {
    if 0 <= n < 10 {
        seq!['0', digit_char(n as nat)]
    } else {
        signed_decimal(n)
    }
}

proof fn lemma_decimal_len(n: nat)
    ensures
        decimal(n).len() >= 1,
        n < 10 ==> decimal(n).len() == 1,
        n >= 10 ==> decimal(n).len() >= 2,
    decreases n,
{
    if n >= 10 {
        lemma_decimal_len(n / 10);
    }
}

/// Appends the decimal form of `n` to `v`.
pub fn push_decimal(v: &mut Vec<char>, n: u64)
    ensures
        final(v)@ == old(v)@ + decimal(n as nat),
    decreases n,
{
    if n >= 10 {
        push_decimal(v, n / 10);
    }
    let d: u64 = n % 10;
    let c: char = if d == 0 {
        '0'
    } else if d == 1 {
        '1'
    } else if d == 2 {
        '2'
    } else if d == 3 {
        '3'
    } else if d == 4 {
        '4'
    } else if d == 5 {
        '5'
    } else if d == 6 {
        '6'
    } else if d == 7 {
        '7'
    } else if d == 8 {
        '8'
    } else {
        '9'
    };
    assert(c == digit_char(d as nat));
    v.push(c);
    if n >= 10 {
        assert(v@ =~= old(v)@ + decimal(n as nat));
    } else {
        assert(v@ =~= old(v)@ + decimal(n as nat));
    }
}

/// Appends what `{}` prints for the signed `n`.
pub fn push_signed_decimal(v: &mut Vec<char>, n: i64)
    ensures
        final(v)@ == old(v)@ + signed_decimal(n as int),
{
    if n < 0 {
        v.push('-');
        let m: u64 = if n == i64::MIN {
            9223372036854775808u64
        } else {
            (-n) as u64
        };
        push_decimal(v, m);
        assert(v@ =~= old(v)@ + signed_decimal(n as int));
    } else {
        push_decimal(v, n as u64);
    }
}

/// Appends what `{:02}` prints for the signed `n`.
pub fn push_two_digit(v: &mut Vec<char>, n: i64)
    ensures
        final(v)@ == old(v)@ + two_digit(n as int),
{
    if 0 <= n && n < 10 {
        v.push('0');
        push_decimal(v, n as u64);
        assert(v@ =~= old(v)@ + two_digit(n as int));
    } else {
        push_signed_decimal(v, n);
    }
}

// ---------------------------------------------------------------------------
// Hexadecimal bytes and printable previews
// ---------------------------------------------------------------------------

/// The upper-case hexadecimal digit for `d < 16`.
pub open spec fn hex_digit_char(d: nat) -> char {
    if d < 10 {
        ((d + 48) as u8) as char
    } else {
        ((d + 55) as u8) as char
    }
}

/// What `{:02X}` prints for a byte.
pub open spec fn hex_byte(b: u8) -> Seq<char> {
    seq![hex_digit_char((b / 16) as nat), hex_digit_char((b % 16) as nat)]
}

/// The bytes in `{:02X}` form separated by single spaces, with no space at
/// either end: each byte printed as `"XX "`, the pieces joined, and the
/// trailing whitespace trimmed.
pub open spec fn hex_spaced(bytes: Seq<u8>) -> Seq<char>
    decreases bytes.len(),
{
    if bytes.len() == 0 {
        Seq::empty()
    } else if bytes.len() == 1 {
        hex_byte(bytes[0])
    } else {
        hex_spaced(bytes.drop_last()) + seq![' '] + hex_byte(bytes.last())
    }
}

/// How a byte is previewed next to its hex form: printable ASCII as itself,
/// everything else as `.`.
pub open spec fn preview_char(b: u8) -> char {
    if 0x20 <= b < 0x7f {
        b as char
    } else {
        '.'
    }
}

/// The preview of a run of bytes, one character per byte.
pub open spec fn preview(bytes: Seq<u8>) -> Seq<char> {
    Seq::new(bytes.len(), |i: int| preview_char(bytes[i]))
}

/// `s` padded with spaces on the right to at least `width` characters, as
/// `{:<width}` prints it.
pub open spec fn pad_right(s: Seq<char>, width: nat) -> Seq<char> {
    if s.len() >= width {
        s
    } else {
        s + Seq::new((width - s.len()) as nat, |i: int| ' ')
    }
}

fn hex_digit(d: u8) -> (c: char)
    requires
        d < 16,
    ensures
        c == hex_digit_char(d as nat),
{
    if d < 10 {
        (d + 48) as char
    } else {
        (d + 55) as char
    }
}

/// Appends the `{:02X}` form of `b`.
pub fn push_hex_byte(v: &mut Vec<char>, b: u8)
    ensures
        final(v)@ == old(v)@ + hex_byte(b),
{
    v.push(hex_digit(b / 16));
    v.push(hex_digit(b % 16));
    assert(v@ =~= old(v)@ + hex_byte(b));
}

/// Appends the space-separated hex form of `bytes`.
pub fn push_hex_spaced(v: &mut Vec<char>, bytes: &[u8])
    ensures
        final(v)@ == old(v)@ + hex_spaced(bytes@),
{
    let ghost start = v@;
    let mut i: usize = 0;
    while i < bytes.len()
        invariant
            i <= bytes@.len(),
            v@ == start + hex_spaced(bytes@.take(i as int)),
        decreases bytes.len() - i,
    {
        let ghost before = v@;
        if i > 0 {
            v.push(' ');
        }
        push_hex_byte(v, bytes[i]);
        proof {
            let t = bytes@.take(i + 1);
            assert(t.drop_last() =~= bytes@.take(i as int));
            assert(t.last() == bytes@[i as int]);
            if i == 0 {
                assert(t.len() == 1);
                assert(v@ =~= start + hex_spaced(t));
            } else {
                assert(v@ =~= start + hex_spaced(t));
            }
        }
        i += 1;
    }
    assert(bytes@.take(bytes@.len() as int) =~= bytes@);
}

/// Appends the preview of `bytes`.
pub fn push_preview(v: &mut Vec<char>, bytes: &[u8])
    ensures
        final(v)@ == old(v)@ + preview(bytes@),
{
    let ghost start = v@;
    let mut i: usize = 0;
    while i < bytes.len()
        invariant
            i <= bytes@.len(),
            v@ == start + preview(bytes@.take(i as int)),
        decreases bytes.len() - i,
    {
        let b = bytes[i];
        let c: char = if 0x20 <= b && b < 0x7f {
            b as char
        } else {
            '.'
        };
        v.push(c);
        proof {
            assert(preview(bytes@.take(i + 1)) =~= preview(bytes@.take(i as int)).push(c));
        }
        i += 1;
    }
    assert(bytes@.take(bytes@.len() as int) =~= bytes@);
}

/// Appends spaces to `v` until the part after character position `from`
/// is at least `width` characters long.
pub fn pad_to(v: &mut Vec<char>, from: usize, width: usize)
    requires
        from <= old(v)@.len(),
    ensures
        final(v)@ == old(v)@.take(from as int) + pad_right(old(v)@.skip(from as int), width as nat),
{
    let ghost start = v@;
    let ghost piece = start.skip(from as int);
    while v.len() - from < width
        invariant
            from <= start.len() <= v@.len(),
            start == old(v)@,
            v@ == start + Seq::new((v@.len() - start.len()) as nat, |i: int| ' '),
            start.len() - from < width ==> v@.len() - from <= width,
            start.len() - from >= width ==> v@.len() == start.len(),
        decreases width - (v.len() - from),
    {
        v.push(' ');
        proof {
            assert(v@ =~= start + Seq::new((v@.len() - start.len()) as nat, |i: int| ' '));
        }
    }
    proof {
        assert(start =~= start.take(from as int) + piece);
        if piece.len() >= width {
            assert(v@ =~= start);
        } else {
            assert(v@ =~= start.take(from as int) + pad_right(piece, width as nat));
        }
    }
}

/// `s` with spaces before it to make it `width` characters long, when it
/// is shorter.
pub open spec fn pad_left(s: Seq<char>, width: nat) -> Seq<char> {
    if s.len() >= width {
        s
    } else {
        Seq::new((width - s.len()) as nat, |i: int| ' ') + s
    }
}

/// Appends `s` right-aligned in `width` characters.
pub fn push_padded_left(v: &mut Vec<char>, s: &Vec<char>, width: usize)
    ensures
        final(v)@ == old(v)@ + pad_left(s@, width as nat),
{
    let ghost start = v@;
    let mut k: usize = s.len();
    while k < width
        invariant
            s@.len() <= k,
            s@.len() < width ==> k <= width,
            s@.len() >= width ==> k == s@.len(),
            v@ == start + Seq::new((k - s@.len()) as nat, |i: int| ' '),
        decreases width - k,
    {
        v.push(' ');
        k += 1;
        proof {
            assert(v@ =~= start + Seq::new((k - s@.len()) as nat, |i: int| ' '));
        }
    }
    push_chars(v, s);
    proof {
        if s@.len() >= width {
            assert(Seq::new((k - s@.len()) as nat, |i: int| ' ') =~= Seq::<char>::empty());
            assert(v@ =~= start + s@);
        } else {
            assert(v@ =~= start + pad_left(s@, width as nat));
        }
    }
}

} // verus!
