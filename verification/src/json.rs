use vstd::prelude::*;

use crate::text::{hex_char, is_digit, json_escape, json_escaped, json_string, numeral_value};

verus! {

/// The value of a hexadecimal digit (either case), if `c` is one.
pub open spec fn hex_value(c: char) -> Option<int> {
    if '0' <= c && c <= '9' {
        Some((c as int) - ('0' as int))
    } else if 'a' <= c && c <= 'f' {
        Some((c as int) - ('a' as int) + 10)
    } else if 'A' <= c && c <= 'F' {
        Some((c as int) - ('A' as int) + 10)
    } else {
        None
    }
}

/// The escape sequence at the start of `s` (which starts with a
/// backslash), read as JSON reads it: how many characters it takes and the
/// character it stands for. A `\u` escape of a surrogate code unit is not
/// accepted here (JSON pairs those up; this reader takes only the escapes
/// of single characters).
pub open spec fn escape_at(s: Seq<char>) -> Option<(int, char)> {
    if s.len() < 2 {
        None
    } else {
        let e = s[1];
        if e == '"' { Some((2, '"')) }
        else if e == '\\' { Some((2, '\\')) }
        else if e == '/' { Some((2, '/')) }
        else if e == 'b' { Some((2, '\x08')) }
        else if e == 'f' { Some((2, '\x0c')) }
        else if e == 'n' { Some((2, '\n')) }
        else if e == 'r' { Some((2, '\r')) }
        else if e == 't' { Some((2, '\t')) }
        else if e == 'u' && s.len() >= 6 && hex_value(s[2]) is Some && hex_value(s[3]) is Some
            && hex_value(s[4]) is Some && hex_value(s[5]) is Some {
            let v = hex_value(s[2])->0 * 4096 + hex_value(s[3])->0 * 256
                + hex_value(s[4])->0 * 16 + hex_value(s[5])->0;
            if 0xD800 <= v && v <= 0xDFFF { None } else { Some((6, v as char)) }
        } else {
            None
        }
    }
}

/// Reads the rest of a JSON string literal whose opening quote is already
/// read: the characters it stands for and what follows its closing quote.
/// A bare quote ends it, a backslash starts an escape, and a control
/// character is not allowed.
pub open spec fn parse_string(s: Seq<char>) -> Option<(Seq<char>, Seq<char>)>
    decreases s.len(),
{
    if s.len() == 0 {
        None
    } else if s[0] == '"' {
        Some((Seq::empty(), s.drop_first()))
    } else if s[0] == '\\' {
        match escape_at(s) {
            None => None,
            Some((k, c)) => if 2 <= k && k <= s.len() {
                match parse_string(s.subrange(k, s.len() as int)) {
                    None => None,
                    Some((d, r)) => Some((seq![c] + d, r)),
                }
            } else {
                None
            },
        }
    } else if (s[0] as int) < 0x20 {
        None
    } else {
        match parse_string(s.drop_first()) {
            None => None,
            Some((d, r)) => Some((seq![s[0]] + d, r)),
        }
    }
}

proof fn lemma_escaped_first(s: Seq<char>)
    requires
        s.len() > 0,
    ensures
        json_escaped(s) == json_escape(s[0]) + json_escaped(s.drop_first()),
    decreases s.len(),
{
    if s.len() == 1 {
        assert(s.drop_last() =~= Seq::<char>::empty());
        assert(s.drop_first() =~= Seq::<char>::empty());
        assert(json_escaped(Seq::<char>::empty()) =~= Seq::<char>::empty());
        assert(json_escaped(s) =~= json_escape(s[0]));
    } else {
        lemma_escaped_first(s.drop_last());
        assert(s.drop_last().drop_first() =~= s.drop_first().drop_last());
        assert(s.drop_last()[0] == s[0]);
        assert(s.drop_first().last() == s.last());
        assert(json_escaped(s.drop_first())
            == json_escaped(s.drop_first().drop_last()) + json_escape(s.drop_first().last()));
        assert(json_escaped(s) =~= json_escape(s[0]) + json_escaped(s.drop_first()));
    }
}

proof fn lemma_hex_round_trip(d: int)
    requires
        0 <= d < 16,
    ensures
        hex_value(hex_char(d)) == Some(d),
{
}

proof fn lemma_escape_char_read(c: char, t: Seq<char>, d: Seq<char>, r: Seq<char>)
    requires
        parse_string(t) == Some((d, r)),
    ensures
        parse_string(json_escape(c) + t) == Some((seq![c] + d, r)),
{
    let s = json_escape(c) + t;
    if c == '"' || c == '\\' || c == '\n' || c == '\r' || c == '\t' || c == '\x08' || c == '\x0c' {
        assert(s.subrange(2, s.len() as int) =~= t);
    } else if (c as int) < 0x20 {
        let code = c as int;
        lemma_hex_round_trip(code / 16);
        lemma_hex_round_trip(code % 16);
        lemma_hex_round_trip(0);
        assert(s[2] == '0' && s[3] == '0');
        assert(s[4] == hex_char(code / 16) && s[5] == hex_char(code % 16));
        assert(escape_at(s) == Some((6int, c)));
        assert(s.subrange(6, s.len() as int) =~= t);
    } else {
        assert(s.drop_first() =~= t);
    }
}

/// Every text written as a JSON string literal reads back as that text:
/// after the opening quote, the reader returns exactly `s` and stops right
/// after the closing quote, whatever follows.
pub proof fn lemma_json_string_round_trip(s: Seq<char>, rest: Seq<char>)
    ensures
        parse_string(json_escaped(s) + seq!['"'] + rest) == Some((s, rest)),
        json_string(s) + rest == seq!['"'] + (json_escaped(s) + seq!['"'] + rest),
    decreases s.len(),
{
    assert(json_string(s) + rest =~= seq!['"'] + (json_escaped(s) + seq!['"'] + rest));
    if s.len() == 0 {
        assert(json_escaped(s) + seq!['"'] + rest =~= seq!['"'] + rest);
        assert((seq!['"'] + rest).drop_first() =~= rest);
    } else {
        lemma_escaped_first(s);
        lemma_json_string_round_trip(s.drop_first(), rest);
        lemma_escape_char_read(s[0], json_escaped(s.drop_first()) + seq!['"'] + rest, s.drop_first(), rest);
        assert(json_escaped(s) + seq!['"'] + rest
            =~= json_escape(s[0]) + (json_escaped(s.drop_first()) + seq!['"'] + rest));
        assert(seq![s[0]] + s.drop_first() =~= s);
    }
}

/// Each character is written as a JSON escape that stands for exactly it.
pub proof fn lemma_json_escape_reads_back(c: char)
    ensures
        parse_string(json_escape(c) + seq!['"']) == Some((seq![c], Seq::<char>::empty())),
{
    assert(parse_string(seq!['"']) == Some((Seq::<char>::empty(), Seq::<char>::empty()))) by {
        assert(seq!['"'].drop_first() =~= Seq::<char>::empty());
    }
    lemma_escape_char_read(c, seq!['"'], Seq::empty(), Seq::empty());
    assert(seq![c] + Seq::<char>::empty() =~= seq![c]);
}

/// How many decimal digits `s` starts with.
pub open spec fn digit_run(s: Seq<char>) -> nat
    decreases s.len(),
{
    if s.len() == 0 || !is_digit(s[0]) {
        0
    } else {
        1 + digit_run(s.drop_first())
    }
}

/// Reads a JSON integer at the start of `s` (an optional `-`, then `0` or
/// digits that do not start with `0`): its value and what follows it.
pub open spec fn parse_integer(s: Seq<char>) -> Option<(int, Seq<char>)> {
    let neg = s.len() > 0 && s[0] == '-';
    let body = if neg { s.drop_first() } else { s };
    let k = digit_run(body);
    if k == 0 || (k > 1 && body[0] == '0') {
        None
    } else {
        let n = numeral_value(body.take(k as int));
        Some((if neg { -n } else { n }, body.skip(k as int)))
    }
}

/// A value of a flat JSON object: a whole number or a string.
pub enum JsonScalar {
    Int(int),
    Str(Seq<char>),
}

/// Reads a JSON value at the start of `s`: a string literal or an integer.
pub open spec fn parse_scalar(s: Seq<char>) -> Option<(JsonScalar, Seq<char>)> {
    if s.len() > 0 && s[0] == '"' {
        match parse_string(s.drop_first()) {
            Some((d, r)) => Some((JsonScalar::Str(d), r)),
            None => None,
        }
    } else {
        match parse_integer(s) {
            Some((n, r)) => Some((JsonScalar::Int(n), r)),
            None => None,
        }
    }
}

/// Reads one member `"key":value` at the start of `s`.
pub open spec fn parse_member(s: Seq<char>) -> Option<(Seq<char>, JsonScalar, Seq<char>)> {
    if s.len() > 0 && s[0] == '"' {
        match parse_string(s.drop_first()) {
            Some((k, r1)) => if r1.len() > 0 && r1[0] == ':' {
                match parse_scalar(r1.drop_first()) {
                    Some((v, r2)) => Some((k, v, r2)),
                    None => None,
                }
            } else {
                None
            },
            None => None,
        }
    } else {
        None
    }
}

/// Reads `n` members separated by commas, then the closing brace, which
/// must end the text.
#[verifier::opaque]
pub open spec fn parse_members(s: Seq<char>, n: nat) -> Option<Seq<(Seq<char>, JsonScalar)>>
    decreases n,
{
    if n == 0 {
        None
    } else {
        match parse_member(s) {
            None => None,
            Some((k, v, r)) => if n == 1 {
                if r == seq!['}'] { Some(seq![(k, v)]) } else { None }
            } else if r.len() > 0 && r[0] == ',' {
                match parse_members(r.drop_first(), (n - 1) as nat) {
                    Some(m) => Some(seq![(k, v)] + m),
                    None => None,
                }
            } else {
                None
            },
        }
    }
}

/// Reads `text` as a JSON object of `n` members, each a string or a whole
/// number, written without spaces: the members in order, or `None` when
/// the text is not such an object.
pub open spec fn parse_flat_object(text: Seq<char>, n: nat) -> Option<Seq<(Seq<char>, JsonScalar)>> {
    if text.len() > 0 && text[0] == '{' {
        parse_members(text.drop_first(), n)
    } else {
        None
    }
}

/// `text` is a JSON object whose members are strings or whole numbers.
pub open spec fn is_flat_json_object(text: Seq<char>) -> bool {
    exists|n: nat| #[trigger] parse_flat_object(text, n) is Some
}

proof fn lemma_digit_run_of_digits(d: Seq<char>, r: Seq<char>)
    requires
        forall|k: int| 0 <= k < d.len() ==> is_digit(#[trigger] d[k]),
        r.len() == 0 || !is_digit(r[0]),
    ensures
        digit_run(d + r) == d.len(),
    decreases d.len(),
{
    if d.len() == 0 {
        assert(d + r =~= r);
    } else {
        assert((d + r).drop_first() =~= d.drop_first() + r);
        assert((d + r)[0] == d[0]);
        lemma_digit_run_of_digits(d.drop_first(), r);
    }
}

/// The decimal notation of an integer reads back as that integer when
/// what follows it is not a digit.
pub proof fn lemma_integer_round_trip(i: int, r: Seq<char>)
    requires
        r.len() == 0 || !is_digit(r[0]),
    ensures
        parse_integer(crate::text::decimal(i) + r) == Some((i, r)),
{
    let n: nat = if i < 0 { (-i) as nat } else { i as nat };
    let d = crate::text::decimal_digits(n);
    crate::text::lemma_decimal_digits_read_back(n);
    let s = crate::text::decimal(i) + r;
    let body = if i < 0 { s.drop_first() } else { s };
    if i < 0 {
        assert(s =~= seq!['-'] + (d + r));
        assert(s.drop_first() =~= d + r);
        assert(s[0] == '-');
    } else {
        assert(s =~= d + r);
        assert(is_digit(d[0]));
        assert(s[0] != '-');
    }
    assert(body =~= d + r);
    lemma_digit_run_of_digits(d, r);
    assert(body.take(d.len() as int) =~= d);
    assert(body.skip(d.len() as int) =~= r);
    assert(body[0] == d[0]);
}

/// Characters that a JSON string holds as they are.
pub open spec fn is_plain(c: char) -> bool {
    c != '"' && c != '\\' && (c as int) >= 0x20
}

proof fn lemma_plain_escaped(s: Seq<char>)
    requires
        forall|k: int| 0 <= k < s.len() ==> is_plain(#[trigger] s[k]),
    ensures
        json_escaped(s) == s,
    decreases s.len(),
{
    if s.len() > 0 {
        lemma_plain_escaped(s.drop_last());
        assert(is_plain(s[s.len() - 1]));
        assert(json_escaped(s) =~= s);
    }
}

/// The text of a member `"key":value`, with `value_text` the value's text.
pub open spec fn member_text(key: Seq<char>, value_text: Seq<char>) -> Seq<char> {
    seq!['"'] + key + seq!['"', ':'] + value_text
}

proof fn lemma_member_read(key: Seq<char>, value_text: Seq<char>, v: JsonScalar, tail: Seq<char>)
    requires
        forall|k: int| 0 <= k < key.len() ==> is_plain(#[trigger] key[k]),
        parse_scalar(value_text + tail) == Some((v, tail)),
    ensures
        parse_member(member_text(key, value_text) + tail) == Some((key, v, tail)),
{
    lemma_plain_escaped(key);
    let after = seq![':'] + value_text + tail;
    lemma_json_string_round_trip(key, after);
    let s = member_text(key, value_text) + tail;
    assert(s.drop_first() =~= json_escaped(key) + seq!['"'] + after);
    assert(after.drop_first() =~= value_text + tail);
}

pub(crate) proof fn lemma_string_value(e: Seq<char>, tail: Seq<char>)
    ensures
        parse_scalar(json_string(e) + tail) == Some((JsonScalar::Str(e), tail)),
{
    lemma_json_string_round_trip(e, tail);
    assert((json_string(e) + tail).drop_first() =~= json_escaped(e) + seq!['"'] + tail);
}

pub(crate) proof fn lemma_integer_value(i: int, tail: Seq<char>)
    requires
        tail.len() > 0,
        tail[0] == ',' || tail[0] == '}',
    ensures
        parse_scalar(crate::text::decimal(i) + tail) == Some((JsonScalar::Int(i), tail)),
{
    lemma_integer_round_trip(i, tail);
    crate::text::lemma_decimal_read_back(i);
    let s = crate::text::decimal(i) + tail;
    assert(s[0] == crate::text::decimal(i)[0]);
}

pub(crate) proof fn lemma_members_more(
    key: Seq<char>,
    value_text: Seq<char>,
    v: JsonScalar,
    rest: Seq<char>,
    m: Seq<(Seq<char>, JsonScalar)>,
    n: nat,
)
    requires
        forall|k: int| 0 <= k < key.len() ==> is_plain(#[trigger] key[k]),
        parse_scalar(value_text + (seq![','] + rest)) == Some((v, seq![','] + rest)),
        n >= 1,
        parse_members(rest, n) == Some(m),
    ensures
        parse_members(member_text(key, value_text) + (seq![','] + rest), n + 1) == Some(seq![(key, v)] + m),
{
    reveal(parse_members);
    lemma_member_read(key, value_text, v, seq![','] + rest);
    assert((seq![','] + rest).drop_first() =~= rest);
}

pub(crate) proof fn lemma_members_last(key: Seq<char>, value_text: Seq<char>, v: JsonScalar)
    requires
        forall|k: int| 0 <= k < key.len() ==> is_plain(#[trigger] key[k]),
        parse_scalar(value_text + seq!['}']) == Some((v, seq!['}'])),
    ensures
        parse_members(member_text(key, value_text) + seq!['}'], 1) == Some(seq![(key, v)]),
{
    reveal(parse_members);
    lemma_member_read(key, value_text, v, seq!['}']);
}

} // verus!
