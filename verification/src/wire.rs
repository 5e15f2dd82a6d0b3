//! Building blocks of the messages' JSON text.
//!
//! Every message is one JSON object, tagged by its `type`, with keys in snake
//! case and no white space between its parts.

use crate::text::{
    decimal, decimal_reads_back, digit_char, is_numeral, numeral_value, push_decimal,
};
use vstd::prelude::*;
use vstd::string::*;

verus! {

/// The lower-case hexadecimal digit of a value below sixteen.
pub open spec fn hex_digit(d: int) -> char {
    if d < 10 {
        (d + 48) as char
    } else {
        (d + 87) as char
    }
}

/// How a character reads inside a JSON string: quote, backslash and control
/// characters are escaped, everything else stands for itself.
pub open spec fn escaped(c: char) -> Seq<char> {
    if c == '"' {
        seq!['\\', '"']
    } else if c == '\\' {
        seq!['\\', '\\']
    } else if c as u32 == 8 {
        seq!['\\', 'b']
    } else if c as u32 == 9 {
        seq!['\\', 't']
    } else if c as u32 == 10 {
        seq!['\\', 'n']
    } else if c as u32 == 12 {
        seq!['\\', 'f']
    } else if c as u32 == 13 {
        seq!['\\', 'r']
    } else if (c as u32) < 32 {
        seq!['\\', 'u', '0', '0', hex_digit(c as int / 16), hex_digit(c as int % 16)]
    } else {
        seq![c]
    }
}

/// The inside of the JSON string of `s`.
pub open spec fn json_body(s: Seq<char>) -> Seq<char>
    decreases s.len(),
{
    if s.len() == 0 {
        seq![]
    } else {
        escaped(s[0]) + json_body(s.skip(1))
    }
}

/// The JSON string of `s`.
pub open spec fn json_string(s: Seq<char>) -> Seq<char> {
    seq!['"'] + json_body(s) + seq!['"']
}

/// `serde_json::to_string` of a string gives that string in quotes, with quote,
/// backslash and control characters escaped. Writing a string to memory has no
/// error.
#[verifier::external_body]
fn quote(s: &str) -> (res: String)
    ensures
        res@ == json_string(s@),
{
    serde_json::to_string(s).unwrap()
}

/// The text of a message that is its tag alone.
pub open spec fn unit_text(tag: Seq<char>) -> Seq<char> {
    "{\"type\":\""@ + tag + "\"}"@
}

/// The text of a message with one string under `key`.
pub open spec fn field_text(tag: Seq<char>, key: Seq<char>, value: Seq<char>) -> Seq<char> {
    "{\"type\":\""@ + tag + "\",\""@ + key + "\":"@ + json_string(value) + "}"@
}

/// The text of an authentication message.
pub open spec fn auth_text(token: Seq<char>, protocol_version: u32) -> Seq<char> {
    "{\"type\":\"auth\",\"token\":"@ + json_string(token) + ",\"protocol_version\":"@ + decimal(
        protocol_version as nat,
    ) + "}"@
}

/// Writes a message that is its tag alone.
pub fn write_unit(tag: &str) -> (res: String)
    ensures
        res@ == unit_text(tag@),
{
    let mut out = String::new();
    out.append("{\"type\":\"");
    out.append(tag);
    out.append("\"}");
    assert(out@ =~= unit_text(tag@));
    out
}

/// Writes a message with one string under `key`.
pub fn write_field(tag: &str, key: &str, value: &String) -> (res: String)
    ensures
        res@ == field_text(tag@, key@, value@),
{
    let mut out = String::new();
    out.append("{\"type\":\"");
    out.append(tag);
    out.append("\",\"");
    out.append(key);
    out.append("\":");
    out.append(quote(value.as_str()).as_str());
    out.append("}");
    assert(out@ =~= field_text(tag@, key@, value@));
    out
}

/// Writes an authentication message.
pub fn write_auth(token: &String, protocol_version: u32) -> (res: String)
    ensures
        res@ == auth_text(token@, protocol_version),
{
    let mut out = String::new();
    out.append("{\"type\":\"auth\",\"token\":");
    out.append(quote(token.as_str()).as_str());
    out.append(",\"protocol_version\":");
    push_decimal(&mut out, protocol_version as u64);
    out.append("}");
    assert(out@ =~= auth_text(token@, protocol_version));
    out
}

/// No character of `s` is a quote.
pub open spec fn quote_free(s: Seq<char>) -> bool {
    forall|i: int| 0 <= i < s.len() ==> s[i] != '"'
}

/// A text up to its first quote can be read off.
pub proof fn first_quote_splits(t1: Seq<char>, r1: Seq<char>, t2: Seq<char>, r2: Seq<char>)
    requires
        quote_free(t1),
        quote_free(t2),
        t1 + seq!['"'] + r1 == t2 + seq!['"'] + r2,
    ensures
        t1 == t2,
        r1 == r2,
{
    let x = t1 + seq!['"'] + r1;
    let y = t2 + seq!['"'] + r2;
    assert(x[t1.len() as int] == '"');
    assert(y[t2.len() as int] == '"');
    if t1.len() < t2.len() {
        assert(y[t1.len() as int] == t2[t1.len() as int]);
    }
    if t2.len() < t1.len() {
        assert(x[t2.len() as int] == t1[t2.len() as int]);
    }
    assert(t1 =~= x.take(t1.len() as int));
    assert(t2 =~= y.take(t2.len() as int));
    assert(r1 =~= x.skip(t1.len() as int + 1));
    assert(r2 =~= y.skip(t2.len() as int + 1));
}

/// An escaped character can be read off the front of a text, and tells which
/// character it was.
proof fn escape_splits(c1: char, r1: Seq<char>, c2: char, r2: Seq<char>)
    requires
        escaped(c1) + r1 == escaped(c2) + r2,
    ensures
        c1 == c2,
        r1 == r2,
{
    let x = escaped(c1) + r1;
    let y = escaped(c2) + r2;
    assert(x[0] == escaped(c1)[0]);
    assert(y[0] == escaped(c2)[0]);
    if x[0] == '\\' {
        assert(escaped(c1).len() >= 2);
        assert(escaped(c2).len() >= 2);
        assert(x[1] == escaped(c1)[1]);
        assert(y[1] == escaped(c2)[1]);
        if x[1] == 'u' {
            assert(escaped(c1).len() == 6 && escaped(c2).len() == 6);
            assert(x[4] == escaped(c1)[4]);
            assert(y[4] == escaped(c2)[4]);
            assert(x[5] == escaped(c1)[5]);
            assert(y[5] == escaped(c2)[5]);
        }
    }
    assert(c1 == c2);
    assert(r1 =~= x.skip(escaped(c1).len() as int));
    assert(r2 =~= y.skip(escaped(c2).len() as int));
}

/// A JSON string can be read off the front of a text, and tells which string it
/// stands for.
pub proof fn json_string_splits(s1: Seq<char>, r1: Seq<char>, s2: Seq<char>, r2: Seq<char>)
    requires
        json_string(s1) + r1 == json_string(s2) + r2,
    ensures
        s1 == s2,
        r1 == r2,
{
    let b1 = json_body(s1) + seq!['"'] + r1;
    let b2 = json_body(s2) + seq!['"'] + r2;
    assert(b1 =~= (json_string(s1) + r1).skip(1));
    assert(b2 =~= (json_string(s2) + r2).skip(1));
    json_body_splits(s1, r1, s2, r2);
}

proof fn json_body_splits(s1: Seq<char>, r1: Seq<char>, s2: Seq<char>, r2: Seq<char>)
    requires
        json_body(s1) + seq!['"'] + r1 == json_body(s2) + seq!['"'] + r2,
    ensures
        s1 == s2,
        r1 == r2,
    decreases s1.len(),
{
    let x = json_body(s1) + seq!['"'] + r1;
    let y = json_body(s2) + seq!['"'] + r2;
    if s1.len() > 0 {
        assert(x[0] == escaped(s1[0])[0]);
    } else {
        assert(x[0] == '"');
    }
    if s2.len() > 0 {
        assert(y[0] == escaped(s2[0])[0]);
    } else {
        assert(y[0] == '"');
    }
    if s1.len() == 0 {
        assert(s2.len() == 0);
        assert(s1 =~= s2);
        assert(r1 =~= x.skip(1));
        assert(r2 =~= y.skip(1));
    } else {
        assert(s2.len() > 0);
        let t1 = json_body(s1.skip(1)) + seq!['"'] + r1;
        let t2 = json_body(s2.skip(1)) + seq!['"'] + r2;
        assert(x =~= escaped(s1[0]) + t1);
        assert(y =~= escaped(s2[0]) + t2);
        escape_splits(s1[0], t1, s2[0], t2);
        json_body_splits(s1.skip(1), r1, s2.skip(1), r2);
        assert(s1 =~= seq![s1[0]] + s1.skip(1));
        assert(s2 =~= seq![s2[0]] + s2.skip(1));
    }
}

/// A decimal numeral tells which number it stands for.
pub proof fn decimal_is_injective(a: nat, b: nat)
    requires
        decimal(a) == decimal(b),
    ensures
        a == b,
    decreases a,
{
    if a < 10 {
        assert(decimal(a).len() == 1);
        if b >= 10 {
            assert(decimal(b / 10).len() >= 1);
        }
        assert(decimal(a)[0] == digit_char(a as int));
        assert(decimal(b)[0] == digit_char(b as int));
    } else {
        if b < 10 {
            assert(decimal(a / 10).len() >= 1);
        }
        assert(decimal(a).last() == digit_char((a % 10) as int));
        assert(decimal(b).last() == digit_char((b % 10) as int));
        assert(decimal(a).drop_last() =~= decimal(a / 10));
        assert(decimal(b).drop_last() =~= decimal(b / 10));
        decimal_is_injective(a / 10, b / 10);
    }
}

/// What every message starts with.
pub open spec fn opening() -> Seq<char> {
    "{\"type\":\""@
}

/// What follows the tag of a message that is its tag alone.
pub open spec fn unit_tail() -> Seq<char> {
    seq!['}']
}

/// What follows the tag of a message with one string.
pub open spec fn field_tail(key: Seq<char>, value: Seq<char>) -> Seq<char> {
    ",\""@ + key + "\":"@ + json_string(value) + "}"@
}

/// What follows the tag of an authentication message.
pub open spec fn auth_tail(token: Seq<char>, protocol_version: u32) -> Seq<char> {
    ",\"token\":"@ + json_string(token) + ",\"protocol_version\":"@ + decimal(
        protocol_version as nat,
    ) + "}"@
}

/// A message text is its opening, its tag up to a quote, and the rest.
pub open spec fn framed(tag: Seq<char>, tail: Seq<char>) -> Seq<char> {
    opening() + (tag + seq!['"'] + tail)
}

/// The three forms of message text share one frame.
pub proof fn texts_are_framed(
    tag: Seq<char>,
    key: Seq<char>,
    value: Seq<char>,
    protocol_version: u32,
)
    ensures
        unit_text(tag) == framed(tag, unit_tail()),
        field_text(tag, key, value) == framed(tag, field_tail(key, value)),
        auth_text(value, protocol_version) == framed("auth"@, auth_tail(value, protocol_version)),
{
    reveal_strlit("{\"type\":\"");
    reveal_strlit("\"}");
    reveal_strlit("\",\"");
    reveal_strlit(",\"");
    reveal_strlit("\":");
    reveal_strlit("}");
    reveal_strlit("auth");
    reveal_strlit(",\"token\":");
    reveal_strlit("{\"type\":\"auth\",\"token\":");
    assert("\"}"@ =~= seq!['"'] + unit_tail());
    assert(unit_text(tag) =~= framed(tag, unit_tail()));
    assert("\",\""@ =~= seq!['"'] + ",\""@);
    assert(field_text(tag, key, value) =~= framed(tag, field_tail(key, value)));
    assert("{\"type\":\"auth\",\"token\":"@ =~= opening() + "auth"@ + seq!['"'] + ",\"token\":"@);
    assert(auth_text(value, protocol_version) =~= framed(
        "auth"@,
        auth_tail(value, protocol_version),
    ));
}

/// A framed text tells its tag and what follows it.
pub proof fn frame_splits(t1: Seq<char>, r1: Seq<char>, t2: Seq<char>, r2: Seq<char>)
    requires
        quote_free(t1),
        quote_free(t2),
        framed(t1, r1) == framed(t2, r2),
    ensures
        t1 == t2,
        r1 == r2,
{
    let n = opening().len() as int;
    assert(framed(t1, r1).skip(n) =~= t1 + seq!['"'] + r1);
    assert(framed(t2, r2).skip(n) =~= t2 + seq!['"'] + r2);
    first_quote_splits(t1, r1, t2, r2);
}

/// What follows the tag of a message with one string tells that string.
pub proof fn field_tail_is_injective(key: Seq<char>, v1: Seq<char>, v2: Seq<char>)
    requires
        field_tail(key, v1) == field_tail(key, v2),
    ensures
        v1 == v2,
{
    let head = ",\""@ + key + "\":"@;
    let n = head.len() as int;
    assert(field_tail(key, v1).skip(n) =~= json_string(v1) + "}"@);
    assert(field_tail(key, v2).skip(n) =~= json_string(v2) + "}"@);
    json_string_splits(v1, "}"@, v2, "}"@);
}

/// What follows the tag of an authentication message tells token and version.
pub proof fn auth_tail_is_injective(t1: Seq<char>, p1: u32, t2: Seq<char>, p2: u32)
    requires
        auth_tail(t1, p1) == auth_tail(t2, p2),
    ensures
        t1 == t2,
        p1 == p2,
{
    reveal_strlit("}");
    let n = ",\"token\":"@.len() as int;
    let key = ",\"protocol_version\":"@;
    let r1 = key + decimal(p1 as nat) + "}"@;
    let r2 = key + decimal(p2 as nat) + "}"@;
    assert(auth_tail(t1, p1).skip(n) =~= json_string(t1) + r1);
    assert(auth_tail(t2, p2).skip(n) =~= json_string(t2) + r2);
    json_string_splits(t1, r1, t2, r2);
    assert(r1.skip(key.len() as int).drop_last() =~= decimal(p1 as nat));
    assert(r2.skip(key.len() as int).drop_last() =~= decimal(p2 as nat));
    decimal_is_injective(p1 as nat, p2 as nat);
}

/// The value of a hexadecimal digit; negative for any other character.
pub open spec fn hex_value(c: char) -> int {
    if '0' <= c <= '9' {
        c as int - '0' as int
    } else if 'a' <= c <= 'f' {
        c as int - 'a' as int + 10
    } else if 'A' <= c <= 'F' {
        c as int - 'A' as int + 10
    } else {
        -1
    }
}

/// What a backslash and this character stand for in a JSON string.
pub open spec fn named_escape(c: char) -> Option<char> {
    if c == '"' || c == '\\' || c == '/' {
        Some(c)
    } else if c == 'b' {
        Some(8u32 as char)
    } else if c == 't' {
        Some(9u32 as char)
    } else if c == 'n' {
        Some(10u32 as char)
    } else if c == 'f' {
        Some(12u32 as char)
    } else if c == 'r' {
        Some(13u32 as char)
    } else {
        None
    }
}

/// A character read before the rest of a string.
pub open spec fn read_on(c: char, rest: Option<(Seq<char>, Seq<char>)>) -> Option<
    (Seq<char>, Seq<char>),
> {
    match rest {
        Some((s, behind)) => Some((seq![c] + s, behind)),
        None => None,
    }
}

/// Reads a JSON string whose opening quote has been read: what it stands for, and
/// the text behind its closing quote.
pub open spec fn read_string(t: Seq<char>) -> Option<(Seq<char>, Seq<char>)>
    decreases t.len(),
{
    if t.len() == 0 {
        None
    } else if t[0] == '"' {
        Some((seq![], t.skip(1)))
    } else if t[0] == '\\' {
        if t.len() < 2 {
            None
        } else if t[1] == 'u' {
            if t.len() < 6 || hex_value(t[2]) < 0 || hex_value(t[3]) < 0 || hex_value(t[4]) < 0
                || hex_value(t[5]) < 0 {
                None
            } else {
                read_on(
                    (4096 * hex_value(t[2]) + 256 * hex_value(t[3]) + 16 * hex_value(t[4])
                        + hex_value(t[5])) as u32 as char,
                    read_string(t.skip(6)),
                )
            }
        } else {
            match named_escape(t[1]) {
                Some(c) => read_on(c, read_string(t.skip(2))),
                None => None,
            }
        }
    } else if (t[0] as u32) < 32 {
        None
    } else {
        read_on(t[0], read_string(t.skip(1)))
    }
}

/// A member of a JSON object, as far as messages have them.
pub enum JsonValue {
    Text(Seq<char>),
    Number(int),
}

/// How many digits a text starts with.
pub open spec fn digits_ahead(t: Seq<char>) -> nat
    decreases t.len(),
{
    if t.len() == 0 || !('0' <= t[0] <= '9') {
        0
    } else {
        1 + digits_ahead(t.skip(1))
    }
}

/// Reads a string or a number: its value and the text behind it.
pub open spec fn read_value(t: Seq<char>) -> Option<(JsonValue, Seq<char>)> {
    if t.len() == 0 {
        None
    } else if t[0] == '"' {
        match read_string(t.skip(1)) {
            Some((s, behind)) => Some((JsonValue::Text(s), behind)),
            None => None,
        }
    } else {
        let n = digits_ahead(t) as int;
        if is_numeral(t.take(n)) {
            Some((JsonValue::Number(numeral_value(t.take(n))), t.skip(n)))
        } else {
            None
        }
    }
}

/// Reads the members of a JSON object whose opening brace has been read.
pub open spec fn read_members(t: Seq<char>) -> Option<Seq<(Seq<char>, JsonValue)>>
    decreases t.len(),
{
    if t.len() == 0 || t[0] != '"' {
        None
    } else {
        match read_string(t.skip(1)) {
            None => None,
            Some((key, behind_key)) => if behind_key.len() == 0 || behind_key[0] != ':' {
                None
            } else {
                match read_value(behind_key.skip(1)) {
                    None => None,
                    Some((value, behind)) => if behind == seq!['}'] {
                        Some(seq![(key, value)])
                    } else if behind.len() == 0 || behind.len() > t.len() || behind[0] != ',' {
                        None
                    } else {
                        match read_members(behind.skip(1)) {
                            None => None,
                            Some(more) => Some(seq![(key, value)] + more),
                        }
                    },
                }
            },
        }
    }
}

/// Reads a JSON object: its members, in their order.
pub open spec fn read_object(t: Seq<char>) -> Option<Seq<(Seq<char>, JsonValue)>> {
    if t.len() == 0 || t[0] != '{' {
        None
    } else {
        read_members(t.skip(1))
    }
}

proof fn escape_reads_back(c: char, rest: Seq<char>)
    ensures
        read_string(escaped(c) + rest) == read_on(c, read_string(rest)),
{
    let t = escaped(c) + rest;
    vstd::utf8::char_is_scalar(c);
    vstd::utf8::char_u32_cast(c, c as u32);
    assert(t.skip(escaped(c).len() as int) =~= rest);
    assert(t[0] == escaped(c)[0]);
    if escaped(c).len() > 1 {
        assert(t[1] == escaped(c)[1]);
    }
    if escaped(c).len() == 6 {
        let high = c as int / 16;
        let low = c as int % 16;
        assert(t[2] == '0' && t[3] == '0');
        assert(t[4] == hex_digit(high));
        assert(t[5] == hex_digit(low));
        assert(hex_value(t[4]) == high);
        assert(hex_value(t[5]) == low);
        assert((16 * high + low) == c as int);
    }
}

/// A JSON string reads back as the text it was written for, whatever follows it.
pub proof fn json_string_reads_back(s: Seq<char>, rest: Seq<char>)
    ensures
        (json_string(s) + rest)[0] == '"',
        read_string((json_string(s) + rest).skip(1)) == Some((s, rest)),
    decreases s.len(),
{
    let body = json_body(s) + seq!['"'] + rest;
    assert((json_string(s) + rest).skip(1) =~= body);
    if s.len() == 0 {
        assert(body.skip(1) =~= rest);
        assert(s =~= seq![]);
    } else {
        let more = json_body(s.skip(1)) + seq!['"'] + rest;
        json_string_reads_back(s.skip(1), rest);
        assert((json_string(s.skip(1)) + rest).skip(1) =~= more);
        assert(body =~= escaped(s[0]) + more);
        escape_reads_back(s[0], more);
        assert(seq![s[0]] + s.skip(1) =~= s);
    }
}

/// A text that stands for itself in a JSON string.
pub open spec fn is_plain(s: Seq<char>) -> bool {
    forall|i: int|
        0 <= i < s.len() ==> (#[trigger] s[i]) != '"' && s[i] != '\\' && s[i] as u32 >= 32
}

proof fn plain_text_stands_for_itself(s: Seq<char>)
    requires
        is_plain(s),
    ensures
        json_body(s) == s,
    decreases s.len(),
{
    if s.len() > 0 {
        plain_text_stands_for_itself(s.skip(1));
        assert(s[0] != '"' && s[0] != '\\' && s[0] as u32 >= 32);
        assert(seq![s[0]] + s.skip(1) =~= s);
    } else {
        assert(json_body(s) =~= s);
    }
}

proof fn digits_are_counted(d: Seq<char>, rest: Seq<char>)
    requires
        forall|i: int| 0 <= i < d.len() ==> '0' <= #[trigger] d[i] <= '9',
        rest.len() > 0,
        !('0' <= rest[0] <= '9'),
    ensures
        digits_ahead(d + rest) == d.len(),
    decreases d.len(),
{
    let t = d + rest;
    if d.len() == 0 {
        assert(t =~= rest);
    } else {
        assert(t[0] == d[0]);
        assert(t.skip(1) =~= d.skip(1) + rest);
        digits_are_counted(d.skip(1), rest);
    }
}

/// The text of a member's value.
spec fn value_text(value: JsonValue) -> Seq<char> {
    match value {
        JsonValue::Text(s) => json_string(s),
        JsonValue::Number(n) => decimal(n as nat),
    }
}

/// The text of a member.
spec fn member_text(key: Seq<char>, value: JsonValue) -> Seq<char> {
    json_string(key) + seq![':'] + value_text(value)
}

/// A member is read up to what follows it.
proof fn a_member_is_read(key: Seq<char>, value: JsonValue, rest: Seq<char>)
    requires
        rest.len() > 0,
        rest[0] == ',' || rest[0] == '}',
        value matches JsonValue::Number(n) ==> n >= 0,
    ensures
        ({
            let t = member_text(key, value) + rest;
            &&& t.len() > rest.len()
            &&& t[0] == '"'
            &&& read_string(t.skip(1)) == Some((key, seq![':'] + value_text(value) + rest))
            &&& read_value((seq![':'] + value_text(value) + rest).skip(1)) == Some((value, rest))
        }),
{
    let t = member_text(key, value) + rest;
    let behind_key = seq![':'] + value_text(value) + rest;
    assert(t =~= json_string(key) + behind_key);
    json_string_reads_back(key, behind_key);
    assert(behind_key.skip(1) =~= value_text(value) + rest);
    match value {
        JsonValue::Text(s) => {
            json_string_reads_back(s, rest);
        },
        JsonValue::Number(n) => {
            let d = decimal(n as nat);
            decimal_reads_back(n as nat);
            digits_are_counted(d, rest);
            assert((d + rest).take(d.len() as int) =~= d);
            assert((d + rest).skip(d.len() as int) =~= rest);
            assert((d + rest)[0] == d[0]);
        },
    }
}

proof fn the_last_member_is_read(key: Seq<char>, value: JsonValue)
    requires
        value matches JsonValue::Number(n) ==> n >= 0,
    ensures
        read_members(member_text(key, value) + seq!['}']) == Some(seq![(key, value)]),
{
    a_member_is_read(key, value, seq!['}']);
}

proof fn a_further_member_is_read(
    key: Seq<char>,
    value: JsonValue,
    more: Seq<char>,
    members: Seq<(Seq<char>, JsonValue)>,
)
    requires
        value matches JsonValue::Number(n) ==> n >= 0,
        more.len() > 0,
        read_members(more) == Some(members),
    ensures
        read_members(member_text(key, value) + (seq![','] + more)) == Some(
            seq![(key, value)] + members,
        ),
{
    let rest = seq![','] + more;
    a_member_is_read(key, value, rest);
    assert(rest.skip(1) =~= more);
    assert(rest.len() > 1);
    assert(seq!['}'].len() == 1);
}

proof fn unit_text_is_one_member(tag: Seq<char>)
    requires
        is_plain(tag),
    ensures
        unit_text(tag) == seq!['{'] + (member_text("type"@, JsonValue::Text(tag)) + seq!['}']),
{
    reveal_strlit("{\"type\":\"");
    reveal_strlit("\"}");
    reveal_strlit("type");
    plain_text_stands_for_itself("type"@);
    plain_text_stands_for_itself(tag);
    assert(unit_text(tag) =~= seq!['{'] + (member_text("type"@, JsonValue::Text(tag)) + seq!['}']));
}

proof fn field_text_is_two_members(tag: Seq<char>, key: Seq<char>, value: Seq<char>)
    requires
        is_plain(tag),
        is_plain(key),
    ensures
        field_text(tag, key, value) == seq!['{'] + (member_text("type"@, JsonValue::Text(tag)) + (
        seq![','] + (member_text(key, JsonValue::Text(value)) + seq!['}']))),
{
    reveal_strlit("{\"type\":\"");
    reveal_strlit("\",\"");
    reveal_strlit("\":");
    reveal_strlit("}");
    reveal_strlit("type");
    plain_text_stands_for_itself("type"@);
    plain_text_stands_for_itself(tag);
    plain_text_stands_for_itself(key);
    assert(field_text(tag, key, value) =~= seq!['{'] + (member_text("type"@, JsonValue::Text(tag)) + (
    seq![','] + (member_text(key, JsonValue::Text(value)) + seq!['}']))));
}

proof fn auth_text_is_three_members(token: Seq<char>, protocol_version: u32)
    ensures
        auth_text(token, protocol_version) == seq!['{'] + (member_text(
            "type"@,
            JsonValue::Text("auth"@),
        ) + (seq![','] + (member_text("token"@, JsonValue::Text(token)) + (seq![','] + (member_text(
            "protocol_version"@,
            JsonValue::Number(protocol_version as int),
        ) + seq!['}']))))),
{
    reveal_strlit("{\"type\":\"auth\",\"token\":");
    reveal_strlit(",\"protocol_version\":");
    reveal_strlit("}");
    reveal_strlit("type");
    reveal_strlit("auth");
    reveal_strlit("token");
    reveal_strlit("protocol_version");
    plain_text_stands_for_itself("type"@);
    plain_text_stands_for_itself("auth"@);
    plain_text_stands_for_itself("token"@);
    plain_text_stands_for_itself("protocol_version"@);
    let last = member_text("protocol_version"@, JsonValue::Number(protocol_version as int)) + seq![
        '}',
    ];
    let number = decimal(protocol_version as nat) + "}"@;
    assert(seq![','] + last =~= ",\"protocol_version\":"@ + number);
    let more = member_text("token"@, JsonValue::Text(token)) + (seq![','] + last);
    assert(seq!['{'] + (member_text("type"@, JsonValue::Text("auth"@)) + (seq![','] + more))
        =~= "{\"type\":\"auth\",\"token\":"@ + json_string(token) + (seq![','] + last));
    assert(auth_text(token, protocol_version) =~= "{\"type\":\"auth\",\"token\":"@ + json_string(
        token,
    ) + (",\"protocol_version\":"@ + number));
}

/// The text of a message that is its tag alone reads back as an object with that
/// `type`.
pub proof fn unit_text_reads_back(tag: Seq<char>)
    requires
        is_plain(tag),
    ensures
        read_object(unit_text(tag)) == Some(seq![("type"@, JsonValue::Text(tag))]),
{
    let value = JsonValue::Text(tag);
    unit_text_is_one_member(tag);
    the_last_member_is_read("type"@, value);
    assert(unit_text(tag).skip(1) =~= member_text("type"@, value) + seq!['}']);
}

/// The text of a message with one string reads back as an object with that `type`
/// and that string under its key, whatever the string is.
pub proof fn field_text_reads_back(tag: Seq<char>, key: Seq<char>, value: Seq<char>)
    requires
        is_plain(tag),
        is_plain(key),
    ensures
        read_object(field_text(tag, key, value)) == Some(
            seq![("type"@, JsonValue::Text(tag)), (key, JsonValue::Text(value))],
        ),
{
    let first = JsonValue::Text(tag);
    let second = JsonValue::Text(value);
    let more = member_text(key, second) + seq!['}'];
    field_text_is_two_members(tag, key, value);
    the_last_member_is_read(key, second);
    a_further_member_is_read("type"@, first, more, seq![(key, second)]);
    assert(field_text(tag, key, value).skip(1) =~= member_text("type"@, first) + (seq![','] + more));
    assert(seq![("type"@, first)] + seq![(key, second)] =~= seq![("type"@, first), (key, second)]);
}

/// The text of an authentication message reads back as an object with its `type`,
/// the token and the version, whatever they are.
pub proof fn auth_text_reads_back(token: Seq<char>, protocol_version: u32)
    ensures
        read_object(auth_text(token, protocol_version)) == Some(
            seq![
                ("type"@, JsonValue::Text("auth"@)),
                ("token"@, JsonValue::Text(token)),
                ("protocol_version"@, JsonValue::Number(protocol_version as int)),
            ],
        ),
{
    let first = JsonValue::Text("auth"@);
    let second = JsonValue::Text(token);
    let third = JsonValue::Number(protocol_version as int);
    let last = member_text("protocol_version"@, third) + seq!['}'];
    let more = member_text("token"@, second) + (seq![','] + last);
    let members = seq![("token"@, second)] + seq![("protocol_version"@, third)];
    auth_text_is_three_members(token, protocol_version);
    the_last_member_is_read("protocol_version"@, third);
    a_further_member_is_read("token"@, second, last, seq![("protocol_version"@, third)]);
    a_further_member_is_read("type"@, first, more, members);
    assert(auth_text(token, protocol_version).skip(1) =~= member_text("type"@, first) + (seq![',']
        + more));
    assert(seq![("type"@, first)] + members =~= seq![
        ("type"@, first),
        ("token"@, second),
        ("protocol_version"@, third),
    ]);
}

/// A message that is its tag alone is written so that it reads back as an object
/// with that `type`.
pub proof fn a_tag_is_written(tag: &str, res: String)
    requires
        call_ensures(write_unit, (tag,), res),
        is_plain(tag@),
    ensures
        read_object(res@) == Some(seq![("type"@, JsonValue::Text(tag@))]),
{
    unit_text_reads_back(tag@);
}

/// A message with one string is written so that it reads back as an object with
/// that `type` and that string under its key, whatever the string is.
pub proof fn a_field_is_written(tag: &str, key: &str, value: String, res: String)
    requires
        call_ensures(write_field, (tag, key, &value), res),
        is_plain(tag@),
        is_plain(key@),
    ensures
        read_object(res@) == Some(
            seq![("type"@, JsonValue::Text(tag@)), (key@, JsonValue::Text(value@))],
        ),
{
    field_text_reads_back(tag@, key@, value@);
}

/// An authentication message is written so that it reads back as an object with
/// its `type`, the token and the version, whatever they are.
pub proof fn an_auth_is_written(token: String, protocol_version: u32, res: String)
    requires
        call_ensures(write_auth, (&token, protocol_version), res),
    ensures
        read_object(res@) == Some(
            seq![
                ("type"@, JsonValue::Text("auth"@)),
                ("token"@, JsonValue::Text(token@)),
                ("protocol_version"@, JsonValue::Number(protocol_version as int)),
            ],
        ),
{
    auth_text_reads_back(token@, protocol_version);
}

} // verus!
