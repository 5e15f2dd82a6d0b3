//! Text as the launcher needs it: decimal numbers, substring search and the
//! decoding of window titles.

use vstd::prelude::*;
use vstd::string::*;

verus! {

/// `String::push` appends the given character to the end of the string.
pub assume_specification[ String::push ](s: &mut String, ch: char)
    ensures
        final(s)@ == old(s)@.push(ch),
;

/// `char::from_u32` converts a code point to the character with that value; it
/// gives `None` exactly for surrogates and for values above `0x10FFFF`.
pub assume_specification[ char::from_u32 ](i: u32) -> (res: Option<char>)
    ensures
        res is Some <==> (i < 0xD800 || 0xE000 <= i <= 0x10FFFF),
        res matches Some(c) ==> c as u32 == i,
;

/// The strings that a list of strings holds.
pub open spec fn texts(v: Seq<String>) -> Seq<Seq<char>> {
    v.map_values(|s: String| s@)
}

/// The decimal digit of a value below ten.
pub open spec fn digit_char(d: int) -> char {
    (d + 48) as char
}

/// The decimal numeral of a natural number, without leading zeros.
pub open spec fn decimal(n: nat) -> Seq<char>
    decreases n,
{
    if n < 10 {
        seq![digit_char(n as int)]
    } else {
        decimal(n / 10).push(digit_char((n % 10) as int))
    }
}

/// The decimal numeral of an integer, with a minus sign where it is negative.
pub open spec fn signed_decimal(n: int) -> Seq<char> {
    if n < 0 {
        seq!['-'] + decimal((-n) as nat)
    } else {
        decimal(n as nat)
    }
}

/// Appends the decimal numeral of `n`.
pub fn push_decimal(out: &mut String, n: u64)
    ensures
        final(out)@ == old(out)@ + decimal(n as nat),
    decreases n,
{
    if n >= 10 {
        push_decimal(out, n / 10);
    }
    let digit: u8 = (n % 10) as u8 + 48;
    out.push(digit as char);
    assert(digit as char == digit_char((n % 10) as int));
}

/// Appends the decimal numeral of `n`, signed.
pub fn push_signed(out: &mut String, n: i64)
    ensures
        final(out)@ == old(out)@ + signed_decimal(n as int),
{
    if n < 0 {
        out.push('-');
        let magnitude: u64 = if n == i64::MIN {
            0x8000_0000_0000_0000
        } else {
            (-n) as u64
        };
        push_decimal(out, magnitude);
    } else {
        push_decimal(out, n as u64);
    }
}

/// The decimal numeral of `n`.
pub fn to_decimal(n: u64) -> (res: String)
    ensures
        res@ == decimal(n as nat),
{
    let mut out = String::new();
    push_decimal(&mut out, n);
    out
}

/// `needle` occurs in `text` at position `at`.
pub open spec fn occurs_at(text: Seq<char>, needle: Seq<char>, at: int) -> bool {
    0 <= at && at + needle.len() <= text.len() && text.subrange(at, at + needle.len()) == needle
}

/// `needle` occurs somewhere in `text`.
pub open spec fn contains(text: Seq<char>, needle: Seq<char>) -> bool {
    exists|at: int| occurs_at(text, needle, at)
}

/// Whether `needle` occurs in `text`.
pub fn contains_text(text: &Vec<char>, needle: &Vec<char>) -> (res: bool)
    ensures
        res == contains(text@, needle@),
{
    let n: usize = text.len();
    let m: usize = needle.len();
    if m > n {
        return false;
    }
    let mut at: usize = 0;
    while at <= n - m
        invariant
            n == text@.len(),
            m == needle@.len(),
            m <= n,
            at <= n - m + 1,
            forall|j: int| 0 <= j < at ==> !occurs_at(text@, needle@, j),
        decreases n - m + 1 - at,
    {
        let mut k: usize = 0;
        while k < m && text[at + k] == needle[k]
            invariant
                n == text@.len(),
                m == needle@.len(),
                k <= m,
                at + m <= n,
                forall|j: int| 0 <= j < k ==> text@[at + j] == needle@[j],
            decreases m - k,
        {
            k += 1;
        }
        if k == m {
            assert(text@.subrange(at as int, at + m) =~= needle@);
            assert(occurs_at(text@, needle@, at as int));
            return true;
        }
        assert(!occurs_at(text@, needle@, at as int)) by {
            if occurs_at(text@, needle@, at as int) {
                assert(text@.subrange(at as int, at + m)[k as int] == needle@[k as int]);
            }
        }
        if at == n - m {
            assert forall|j: int| !occurs_at(text@, needle@, j) by {}
            return false;
        }
        at += 1;
    }
    false
}

/// The characters of a string.
pub fn chars_of(s: &str) -> (res: Vec<char>)
    ensures
        res@ == s@,
{
    let mut out: Vec<char> = Vec::new();
    for c in it: s.chars()
        invariant
            it.seq() == s@,
            out@ == s@.take(it.index()),
    {
        out.push(c);
    }
    out
}

/// A UTF-16 unit that can only be the first half of a pair.
pub open spec fn is_high_surrogate(u: u16) -> bool {
    0xD800 <= u < 0xDC00
}

/// A UTF-16 unit that can only be the second half of a pair.
pub open spec fn is_low_surrogate(u: u16) -> bool {
    0xDC00 <= u < 0xE000
}

/// The character that a surrogate pair stands for.
pub open spec fn pair_char(high: u16, low: u16) -> char {
    (0x10000 + (high - 0xD800) * 0x400 + (low - 0xDC00)) as char
}

/// The text that UTF-16 units stand for. An unpaired surrogate reads as the
/// replacement character.
pub open spec fn utf16_text(units: Seq<u16>) -> Seq<char>
    decreases units.len(),
{
    if units.len() == 0 {
        seq![]
    } else if !is_high_surrogate(units[0]) && !is_low_surrogate(units[0]) {
        seq![units[0] as char] + utf16_text(units.skip(1))
    } else if is_high_surrogate(units[0]) && units.len() > 1 && is_low_surrogate(units[1]) {
        seq![pair_char(units[0], units[1])] + utf16_text(units.skip(2))
    } else {
        seq!['\u{FFFD}'] + utf16_text(units.skip(1))
    }
}

/// Decodes the first `len` of the UTF-16 `units`.
pub fn decode_utf16(units: &[u16], len: usize) -> (res: Vec<char>)
    requires
        len <= units@.len(),
    ensures
        res@ == utf16_text(units@.take(len as int)),
{
    let ghost title = units@.take(len as int);
    let mut out: Vec<char> = Vec::new();
    let mut i: usize = 0;
    assert(title.skip(0) =~= title);
    while i < len
        invariant
            i <= len <= units@.len(),
            title == units@.take(len as int),
            out@ + utf16_text(title.skip(i as int)) == utf16_text(title),
        decreases len - i,
    {
        let ghost rest = title.skip(i as int);
        let first: u16 = units[i];
        assert(rest[0] == first);
        assert(rest.skip(1) =~= title.skip(i + 1));
        let ghost before = out@;
        if first < 0xD800 || first >= 0xE000 {
            match char::from_u32(first as u32) {
                Some(c) => {
                    proof {
                        vstd::utf8::char_u32_cast(c, first as u32);
                    }
                    out.push(c);
                },
                None => {},
            }
            assert(out@ + utf16_text(title.skip(i + 1)) =~= before + utf16_text(rest));
            i += 1;
        } else if first < 0xDC00 && i + 1 < len && units[i + 1] >= 0xDC00 && units[i + 1] < 0xE000 {
            let second: u16 = units[i + 1];
            assert(rest[1] == second);
            assert(rest.skip(2) =~= title.skip(i + 2));
            let code: u32 = 0x10000 + (first - 0xD800) as u32 * 0x400 + (second - 0xDC00) as u32;
            match char::from_u32(code) {
                Some(c) => {
                    proof {
                        vstd::utf8::char_u32_cast(c, code);
                    }
                    out.push(c);
                },
                None => {},
            }
            assert(out@ + utf16_text(title.skip(i + 2)) =~= before + utf16_text(rest));
            i += 2;
        } else {
            out.push('\u{FFFD}');
            assert(out@ + utf16_text(title.skip(i + 1)) =~= before + utf16_text(rest));
            i += 1;
        }
    }
    assert(title.skip(len as int) =~= seq![]);
    out
}

/// The number that decimal digits stand for, the most significant first.
pub open spec fn numeral_value(s: Seq<char>) -> int
    decreases s.len(),
{
    if s.len() == 0 {
        0
    } else {
        10 * numeral_value(s.drop_last()) + (s.last() as int - '0' as int)
    }
}

/// Decimal digits, at least one, and more than one only where the first is not
/// zero.
pub open spec fn is_numeral(s: Seq<char>) -> bool {
    &&& s.len() > 0
    &&& forall|i: int| 0 <= i < s.len() ==> '0' <= #[trigger] s[i] <= '9'
    &&& s.len() > 1 ==> s[0] != '0'
}

/// `s` is how the integer `n` is written in decimal.
pub open spec fn reads_as(s: Seq<char>, n: int) -> bool {
    if n < 0 {
        s.len() > 1 && s[0] == '-' && is_numeral(s.skip(1)) && numeral_value(s.skip(1)) == -n
    } else {
        is_numeral(s) && numeral_value(s) == n
    }
}

/// The numeral of a number reads back as that number.
pub proof fn decimal_reads_back(n: nat)
    ensures
        is_numeral(decimal(n)),
        numeral_value(decimal(n)) == n,
        n > 0 ==> decimal(n)[0] != '0',
    decreases n,
{
    reveal_with_fuel(numeral_value, 2);
    if n >= 10 {
        decimal_reads_back(n / 10);
        assert(decimal(n).drop_last() =~= decimal(n / 10));
        assert(decimal(n)[0] == decimal(n / 10)[0]);
        assert(decimal(n).last() == digit_char((n % 10) as int));
    } else {
        assert(decimal(n).drop_last() =~= seq![]);
    }
}

/// The signed numeral of an integer reads back as that integer.
pub proof fn signed_decimal_reads_back(n: int)
    ensures
        reads_as(signed_decimal(n), n),
{
    if n < 0 {
        decimal_reads_back((-n) as nat);
        assert(signed_decimal(n).skip(1) =~= decimal((-n) as nat));
    } else {
        decimal_reads_back(n as nat);
    }
}

/// A number is appended as digits that read back as it; what stood there before
/// stays.
pub proof fn a_number_is_appended(out: &mut String, n: u64)
    requires
        call_ensures(push_decimal, (out, n), ()),
    ensures
        final(out)@.take(old(out)@.len() as int) == old(out)@,
        reads_as(final(out)@.skip(old(out)@.len() as int), n as int),
{
    decimal_reads_back(n as nat);
    assert(final(out)@.take(old(out)@.len() as int) =~= old(out)@);
    assert(final(out)@.skip(old(out)@.len() as int) =~= decimal(n as nat));
}

/// A signed number is appended as digits that read back as it; what stood there
/// before stays.
pub proof fn a_signed_number_is_appended(out: &mut String, n: i64)
    requires
        call_ensures(push_signed, (out, n), ()),
    ensures
        final(out)@.take(old(out)@.len() as int) == old(out)@,
        reads_as(final(out)@.skip(old(out)@.len() as int), n as int),
{
    signed_decimal_reads_back(n as int);
    assert(final(out)@.take(old(out)@.len() as int) =~= old(out)@);
    assert(final(out)@.skip(old(out)@.len() as int) =~= signed_decimal(n as int));
}

/// A number is written as digits that read back as it.
pub proof fn a_number_is_written(n: u64, res: String)
    requires
        call_ensures(to_decimal, (n,), res),
    ensures
        reads_as(res@, n as int),
{
    decimal_reads_back(n as nat);
}

/// A list of strings holds each of them in its place.
pub proof fn texts_are_the_strings(v: Seq<String>)
    ensures
        texts(v).len() == v.len(),
        forall|i: int| 0 <= i < v.len() ==> #[trigger] texts(v)[i] == v[i]@,
{
}

/// A text occurs in another exactly where the other is made of something, that
/// text, and something.
pub proof fn contained_iff_split(text: Seq<char>, needle: Seq<char>)
    ensures
        contains(text, needle) <==> exists|p: Seq<char>, q: Seq<char>|
            text == #[trigger] (p + needle + q),
{
    if contains(text, needle) {
        let at = choose|at: int| occurs_at(text, needle, at);
        let p = text.take(at);
        let q = text.skip(at + needle.len());
        assert(text =~= p + needle + q);
    }
    if exists|p: Seq<char>, q: Seq<char>| text == #[trigger] (p + needle + q) {
        let (p, q) = choose|p: Seq<char>, q: Seq<char>| text == #[trigger] (p + needle + q);
        assert(text.subrange(p.len() as int, (p.len() + needle.len()) as int) =~= needle);
        assert(occurs_at(text, needle, p.len() as int));
    }
}

/// The search for a text says yes exactly where the other is made of something,
/// that text, and something.
pub proof fn a_search_says_whether_text_occurs(text: Vec<char>, needle: Vec<char>, res: bool)
    requires
        call_ensures(contains_text, (&text, &needle), res),
    ensures
        res <==> exists|p: Seq<char>, q: Seq<char>| text@ == #[trigger] (p + needle@ + q),
{
    contained_iff_split(text@, needle@);
}

/// The UTF-16 units of a character.
pub open spec fn units_of(c: char) -> Seq<u16> {
    if (c as u32) < 0x10000 {
        seq![c as u16]
    } else {
        seq![
            (0xD800 + (c as u32 - 0x10000) / 0x400) as u16,
            (0xDC00 + (c as u32 - 0x10000) % 0x400) as u16,
        ]
    }
}

/// The UTF-16 units of a text.
pub open spec fn encoded_utf16(t: Seq<char>) -> Seq<u16>
    decreases t.len(),
{
    if t.len() == 0 {
        seq![]
    } else {
        units_of(t[0]) + encoded_utf16(t.skip(1))
    }
}

/// UTF-16 units of a text decode to that text, whatever follows them.
pub proof fn utf16_reads_back(t: Seq<char>, rest: Seq<u16>)
    ensures
        utf16_text(encoded_utf16(t) + rest) == t + utf16_text(rest),
    decreases t.len(),
{
    if t.len() == 0 {
        assert(encoded_utf16(t) + rest =~= rest);
        assert(t + utf16_text(rest) =~= utf16_text(rest));
    } else {
        let c = t[0];
        let more = encoded_utf16(t.skip(1)) + rest;
        utf16_reads_back(t.skip(1), rest);
        assert(encoded_utf16(t) + rest =~= units_of(c) + more);
        let units = units_of(c) + more;
        vstd::utf8::char_is_scalar(c);
        vstd::utf8::char_u32_cast(c, c as u32);
        if (c as u32) < 0x10000 {
            assert(units[0] == c as u32);
            assert(units.skip(1) =~= more);
        } else {
            let v = c as u32 - 0x10000;
            assert(units[0] == 0xD800 + v / 0x400);
            assert(units[1] == 0xDC00 + v % 0x400);
            assert(units.skip(2) =~= more);
            assert(v == (v / 0x400) * 0x400 + v % 0x400);
        }
        assert(seq![c] + (t.skip(1) + utf16_text(rest)) =~= t + utf16_text(rest));
    }
}

/// A surrogate that is no half of a pair decodes to the replacement character, and
/// what follows it is not touched.
pub proof fn lone_surrogates_are_replaced(u: u16, rest: Seq<u16>)
    requires
        0xD800 <= u < 0xE000,
        u < 0xDC00 ==> rest.len() == 0 || rest[0] < 0xDC00 || rest[0] >= 0xE000,
    ensures
        utf16_text(seq![u] + rest) == seq!['\u{FFFD}'] + utf16_text(rest),
{
    assert((seq![u] + rest).skip(1) =~= rest);
    if rest.len() > 0 {
        assert((seq![u] + rest)[1] == rest[0]);
    }
}

/// A title buffer decodes to the text that was written to it, whatever stands
/// behind that.
pub proof fn a_title_buffer_decodes(units: &[u16], len: usize, t: Seq<char>, res: Vec<char>)
    requires
        call_ensures(decode_utf16, (units, len), res),
        len <= units@.len(),
        units@.take(len as int) == encoded_utf16(t),
    ensures
        res@ == t,
{
    utf16_reads_back(t, seq![]);
    assert(encoded_utf16(t) + seq![] =~= encoded_utf16(t));
    assert(t + utf16_text(seq![]) =~= t);
}

/// `line` is `key` and then how the integer `n` is written in decimal.
pub open spec fn tells_number(line: Seq<char>, key: Seq<char>, n: int) -> bool {
    &&& line.len() >= key.len()
    &&& line.take(key.len() as int) == key
    &&& reads_as(line.skip(key.len() as int), n)
}

/// A numeral behind a key tells its number.
pub proof fn a_numeral_tells_its_number(key: Seq<char>, n: int)
    ensures
        tells_number(key + signed_decimal(n), key, n),
        n >= 0 ==> tells_number(key + decimal(n as nat), key, n),
{
    let line = key + signed_decimal(n);
    signed_decimal_reads_back(n);
    assert(line.take(key.len() as int) =~= key);
    assert(line.skip(key.len() as int) =~= signed_decimal(n));
}

/// Any number of units that a buffer holds can be decoded.
pub proof fn any_buffer_can_be_decoded(units: &[u16], len: usize)
    requires
        len <= units@.len(),
    ensures
        call_requires(decode_utf16, (units, len)),
{
}

} // verus!
