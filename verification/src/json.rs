use vstd::prelude::*;
use vstd::string::*;

verus! {

/// The character of a decimal digit `d` (0 to 9).
pub open spec fn digit_char(d: int) -> char {
    if d == 0 {
        '0'
    } else if d == 1 {
        '1'
    } else if d == 2 {
        '2'
    } else if d == 3 {
        '3'
    } else if d == 4 {
        '4'
    } else if d == 5 {
        '5'
    } else if d == 6 {
        '6'
    } else if d == 7 {
        '7'
    } else if d == 8 {
        '8'
    } else {
        '9'
    }
}

/// Decimal notation of a natural number, without leading zeros.
pub open spec fn decimal_nat(n: nat) -> Seq<char>
    decreases n,
{
    if n < 10 {
        seq![digit_char(n as int)]
    } else {
        decimal_nat(n / 10).push(digit_char((n % 10) as int))
    }
}

/// Decimal notation of an integer: a minus sign before the digits of a
/// negative number, as Rust's `Display` and JSON write integers.
pub open spec fn decimal_int(n: int) -> Seq<char> {
    if n < 0 {
        seq!['-'] + decimal_nat((-n) as nat)
    } else {
        decimal_nat(n as nat)
    }
}

/// The character views of an optional string.
pub open spec fn opt_text(o: Option<String>) -> Option<Seq<char>> {
    match o {
        Some(s) => Some(s@),
        None => None,
    }
}

/// A lower-case hexadecimal digit (0 to 15).
pub open spec fn hex_digit(d: int) -> char {
    if d < 10 {
        digit_char(d)
    } else if d == 10 {
        'a'
    } else if d == 11 {
        'b'
    } else if d == 12 {
        'c'
    } else if d == 13 {
        'd'
    } else if d == 14 {
        'e'
    } else {
        'f'
    }
}

/// How a character is written inside a JSON string literal: quote and
/// backslash escaped, the control characters with a short escape
/// (`\b \t \n \f \r`) written so, the other control characters below
/// U+0020 as `\u00` and two lower-case hex digits, everything else as is.
pub open spec fn json_escape_char(c: char) -> Seq<char> {
    if c == '"' {
        seq!['\\', '"']
    } else if c == '\\' {
        seq!['\\', '\\']
    } else if c == '\u{8}' {
        seq!['\\', 'b']
    } else if c == '\t' {
        seq!['\\', 't']
    } else if c == '\n' {
        seq!['\\', 'n']
    } else if c == '\u{c}' {
        seq!['\\', 'f']
    } else if c == '\r' {
        seq!['\\', 'r']
    } else if (c as u32) < 0x20 {
        seq![
            '\\',
            'u',
            '0',
            '0',
            hex_digit((c as u32) as int / 16),
            hex_digit((c as u32) as int % 16),
        ]
    } else {
        seq![c]
    }
}

/// The escaped characters of a JSON string literal.
pub open spec fn json_escape(s: Seq<char>) -> Seq<char>
    decreases s.len(),
{
    if s.len() == 0 {
        seq![]
    } else {
        json_escape_char(s[0]) + json_escape(s.drop_first())
    }
}

/// The value of a hexadecimal digit.
pub open spec fn hex_value(c: char) -> int {
    if '0' <= c && c <= '9' {
        c as int - ('0' as int)
    } else if 'a' <= c && c <= 'f' {
        c as int - ('a' as int) + 10
    } else if 'A' <= c && c <= 'F' {
        c as int - ('A' as int) + 10
    } else {
        0
    }
}

/// The character that a one-letter JSON escape (after a backslash) stands
/// for.
pub open spec fn short_escape_value(e: char) -> char {
    if e == 'b' {
        '\u{8}'
    } else if e == 't' {
        '\t'
    } else if e == 'n' {
        '\n'
    } else if e == 'f' {
        '\u{c}'
    } else if e == 'r' {
        '\r'
    } else {
        e
    }
}

/// The characters that the inside of a JSON string literal denotes (RFC
/// 8259): escapes read back to the characters they stand for.
pub open spec fn json_unescape(t: Seq<char>) -> Seq<char>
    decreases t.len(),
{
    if t.len() == 0 {
        seq![]
    } else if t[0] == '\\' && t.len() >= 6 && t[1] == 'u' {
        seq![
            (hex_value(t[2]) * 4096 + hex_value(t[3]) * 256 + hex_value(t[4]) * 16 + hex_value(
                t[5],
            )) as char,
        ] + json_unescape(t.subrange(6, t.len() as int))
    } else if t[0] == '\\' && t.len() >= 2 {
        seq![short_escape_value(t[1])] + json_unescape(t.subrange(2, t.len() as int))
    } else {
        seq![t[0]] + json_unescape(t.drop_first())
    }
}

/// The JSON string literal for `s`: quotes around its escaped characters.
pub open spec fn json_string_literal(s: Seq<char>) -> Seq<char> {
    seq!['"'] + json_escape(s) + seq!['"']
}

#[verifier::external_type_specification]
#[verifier::external_body]
pub struct ExJsonError(serde_json::Error);

/// Calls `serde_json::to_string` on a string slice. Claimed: the result is
/// `Ok`, holding the JSON string literal that `json_string_literal` states
/// (serde_json's escape table in `ser.rs`, byte by byte; bytes of non-ASCII
/// characters are never escaped).
/// In serde_json's source, serialising a `str` writes the escaped text into
/// a `Vec<u8>`, a writer that cannot fail, so the call never returns `Err`.
#[verifier::external_body]
fn serde_json_string(s: &str) -> (r: Result<String, serde_json::Error>)
    ensures
        r is Ok,
        r matches Ok(t) ==> t@ == json_string_literal(s@),
{
    serde_json::to_string(s)
}

/// The JSON string literal for `s`.
pub fn json_quote(s: &str) -> (r: String)
    ensures
        r@ == json_string_literal(s@),
{
    match serde_json_string(s) {
        Ok(t) => t,
        Err(_) => {
            proof {
                assert(false);
            }
            String::new()
        },
    }
}

fn digit_str(d: u64) -> (s: &'static str)
    requires
        d < 10,
    ensures
        s@ == seq![digit_char(d as int)],
{
    if d == 0 {
        proof {
            reveal_strlit("0");
        }
        "0"
    } else if d == 1 {
        proof {
            reveal_strlit("1");
        }
        "1"
    } else if d == 2 {
        proof {
            reveal_strlit("2");
        }
        "2"
    } else if d == 3 {
        proof {
            reveal_strlit("3");
        }
        "3"
    } else if d == 4 {
        proof {
            reveal_strlit("4");
        }
        "4"
    } else if d == 5 {
        proof {
            reveal_strlit("5");
        }
        "5"
    } else if d == 6 {
        proof {
            reveal_strlit("6");
        }
        "6"
    } else if d == 7 {
        proof {
            reveal_strlit("7");
        }
        "7"
    } else if d == 8 {
        proof {
            reveal_strlit("8");
        }
        "8"
    } else {
        proof {
            reveal_strlit("9");
        }
        "9"
    }
}

/// Decimal notation of an unsigned number.
pub fn decimal_u64(n: u64) -> (s: String)
    ensures
        s@ == decimal_nat(n as nat),
    decreases n,
{
    if n < 10 {
        String::from_str(digit_str(n))
    } else {
        let mut s = decimal_u64(n / 10);
        s.append(digit_str(n % 10));
        s
    }
}

/// Decimal notation of a signed 32-bit number.
pub fn decimal_i32(n: i32) -> (s: String)
    ensures
        s@ == decimal_int(n as int),
{
    if n < 0 {
        let m: u64 = (0i64 - (n as i64)) as u64;
        let mut s = String::from_str("-");
        proof {
            reveal_strlit("-");
        }
        let digits = decimal_u64(m);
        s.append(digits.as_str());
        s
    } else {
        decimal_u64(n as u64)
    }
}

/// Decimal notation of a `usize`.
pub fn decimal_usize(n: usize) -> (s: String)
    ensures
        s@ == decimal_int(n as int),
{
    decimal_u64(n as u64)
}

proof fn lemma_hex_roundtrip(d: int)
    requires
        0 <= d < 16,
    ensures
        hex_value(hex_digit(d)) == d,
{
}

proof fn lemma_unescape_char(c: char, t: Seq<char>)
    ensures
        json_unescape(json_escape_char(c) + t) == seq![c] + json_unescape(t),
{
    let e = json_escape_char(c);
    let u = e + t;
    if c == '"' || c == '\\' || c == '\u{8}' || c == '\t' || c == '\n' || c == '\u{c}' || c
        == '\r' {
        assert(u.subrange(2, u.len() as int) =~= t);
    } else if (c as u32) < 0x20 {
        let n = (c as u32) as int;
        lemma_hex_roundtrip(n / 16);
        lemma_hex_roundtrip(n % 16);
        assert(u.subrange(6, u.len() as int) =~= t);
        assert(hex_value(u[2]) * 4096 + hex_value(u[3]) * 256 + hex_value(u[4]) * 16 + hex_value(
            u[5],
        ) == n);
    } else {
        assert(u.drop_first() =~= t);
    }
}

/// Reading back the inside of the JSON string literal of `s` gives `s`:
/// JSON quoting loses nothing, whatever characters `s` holds.
pub proof fn lemma_json_string_roundtrip(s: Seq<char>)
    ensures
        json_unescape(json_escape(s)) == s,
    decreases s.len(),
{
    if s.len() > 0 {
        lemma_json_string_roundtrip(s.drop_first());
        lemma_unescape_char(s[0], json_escape(s.drop_first()));
        assert(s =~= seq![s[0]] + s.drop_first());
    }
}

proof fn lemma_digit_char_injective(a: int, b: int)
    requires
        0 <= a < 10,
        0 <= b < 10,
        digit_char(a) == digit_char(b),
    ensures
        a == b,
{
}

proof fn lemma_decimal_nat_shape(n: nat)
    ensures
        decimal_nat(n).len() >= 1,
        n < 10 <==> decimal_nat(n).len() == 1,
        decimal_nat(n)[0] != '-',
    decreases n,
{
    if n >= 10 {
        lemma_decimal_nat_shape(n / 10);
    }
}

/// Two natural numbers with the same decimal notation are equal.
pub proof fn lemma_decimal_nat_injective(a: nat, b: nat)
    requires
        decimal_nat(a) == decimal_nat(b),
    ensures
        a == b,
    decreases a,
{
    lemma_decimal_nat_shape(a);
    lemma_decimal_nat_shape(b);
    if a < 10 {
        assert(b < 10);
        assert(decimal_nat(a)[0] == digit_char(a as int));
        assert(decimal_nat(b)[0] == digit_char(b as int));
        lemma_digit_char_injective(a as int, b as int);
    } else {
        assert(b >= 10);
        let sa = decimal_nat(a);
        let sb = decimal_nat(b);
        assert(sa.drop_last() =~= decimal_nat(a / 10));
        assert(sb.drop_last() =~= decimal_nat(b / 10));
        assert(sa.last() == digit_char((a % 10) as int));
        assert(sb.last() == digit_char((b % 10) as int));
        lemma_digit_char_injective((a % 10) as int, (b % 10) as int);
        lemma_decimal_nat_injective(a / 10, b / 10);
    }
}

/// Two integers with the same decimal notation are equal.
pub proof fn lemma_decimal_int_injective(a: int, b: int)
    requires
        decimal_int(a) == decimal_int(b),
    ensures
        a == b,
{
    if a < 0 {
        lemma_decimal_nat_shape((-a) as nat);
    } else {
        lemma_decimal_nat_shape(a as nat);
    }
    if b < 0 {
        lemma_decimal_nat_shape((-b) as nat);
    } else {
        lemma_decimal_nat_shape(b as nat);
    }
    if a < 0 && b < 0 {
        assert(decimal_int(a).drop_first() =~= decimal_nat((-a) as nat));
        assert(decimal_int(b).drop_first() =~= decimal_nat((-b) as nat));
        lemma_decimal_nat_injective((-a) as nat, (-b) as nat);
    } else if a >= 0 && b >= 0 {
        lemma_decimal_nat_injective(a as nat, b as nat);
    } else if a < 0 {
        assert(decimal_int(a)[0] == '-');
    } else {
        assert(decimal_int(b)[0] == '-');
    }
}

} // verus!
