//! Numerals and JSON strings.
//!
//! Timestamps and durations enter a trace as base-ten numerals, names as
//! JSON strings. This module says what the numeral of a number and the
//! escaped text of a string are, writes them, and shows that each reads back
//! as what it was written for.

use vstd::prelude::*;
use vstd::string::*;

verus! {

/// The character that writes the digit `d`.
pub open spec fn digit_char(d: nat) -> char
    recommends
        d < 10,
{
    seq!['0', '1', '2', '3', '4', '5', '6', '7', '8', '9'][d as int]
}

/// The digit that `c` writes; 0 for a character that writes none.
pub open spec fn digit_value(c: char) -> nat {
    if c == '1' {
        1
    } else if c == '2' {
        2
    } else if c == '3' {
        3
    } else if c == '4' {
        4
    } else if c == '5' {
        5
    } else if c == '6' {
        6
    } else if c == '7' {
        7
    } else if c == '8' {
        8
    } else if c == '9' {
        9
    } else {
        0
    }
}

/// Whether `c` is one of the ten digit characters.
pub open spec fn is_digit(c: char) -> bool {
    c == '0' || digit_value(c) != 0
}

/// The base-ten numeral of `n`: its digits, most significant first, with no
/// leading zero except for the numeral of zero itself.
pub open spec fn decimal_digits(n: nat) -> Seq<char>
    decreases n,
{
    if n < 10 {
        seq![digit_char(n)]
    } else {
        decimal_digits(n / 10).push(digit_char(n % 10))
    }
}

/// The number that a numeral denotes, read digit by digit from the left.
pub open spec fn decimal_value(s: Seq<char>) -> nat
    decreases s.len(),
{
    if s.len() == 0 {
        0
    } else {
        10 * decimal_value(s.drop_last()) + digit_value(s.last())
    }
}

/// Each digit character writes the digit it was chosen for.
pub proof fn lemma_digit_round_trip(d: nat)
    requires
        d < 10,
    ensures
        digit_value(digit_char(d)) == d,
        is_digit(digit_char(d)),
        digit_char(d) == '0' <==> d == 0,
{
}

/// A numeral holds digits only, is never empty, and starts with a zero only
/// when it is the numeral of zero.
pub proof fn lemma_decimal_shape(n: nat)
    ensures
        decimal_digits(n).len() >= 1,
        forall|i: int| 0 <= i < decimal_digits(n).len() ==> is_digit(#[trigger] decimal_digits(n)[i]),
        decimal_digits(n)[0] == '0' <==> n == 0,
        n < 10 <==> decimal_digits(n).len() == 1,
    decreases n,
{
    if n < 10 {
        lemma_digit_round_trip(n);
    } else {
        lemma_decimal_shape(n / 10);
        lemma_digit_round_trip(n % 10);
    }
}

/// Reading a numeral gives back the number it was written for.
pub proof fn lemma_decimal_round_trip(n: nat)
    ensures
        decimal_value(decimal_digits(n)) == n,
    decreases n,
{
    if n < 10 {
        lemma_digit_round_trip(n);
        let s = decimal_digits(n);
        assert(s.drop_last().len() == 0);
        assert(decimal_value(s.drop_last()) == 0);
    } else {
        lemma_decimal_round_trip(n / 10);
        lemma_digit_round_trip(n % 10);
        let s = decimal_digits(n);
        assert(s.drop_last() =~= decimal_digits(n / 10));
    }
}

/// Two numbers with the same numeral are the same number.
pub proof fn lemma_decimal_injective(a: nat, b: nat)
    requires
        decimal_digits(a) == decimal_digits(b),
    ensures
        a == b,
{
    lemma_decimal_round_trip(a);
    lemma_decimal_round_trip(b);
}

fn digit_text(d: u128) -> (s: &'static str)
    requires
        d < 10,
    ensures
        s@ == seq![digit_char(d as nat)],
{
    proof {
        reveal_strlit("0");
        reveal_strlit("1");
        reveal_strlit("2");
        reveal_strlit("3");
        reveal_strlit("4");
        reveal_strlit("5");
        reveal_strlit("6");
        reveal_strlit("7");
        reveal_strlit("8");
        reveal_strlit("9");
    }
    let s = if d == 0 {
        "0"
    } else if d == 1 {
        "1"
    } else if d == 2 {
        "2"
    } else if d == 3 {
        "3"
    } else if d == 4 {
        "4"
    } else if d == 5 {
        "5"
    } else if d == 6 {
        "6"
    } else if d == 7 {
        "7"
    } else if d == 8 {
        "8"
    } else {
        "9"
    };
    assert(s@ =~= seq![digit_char(d as nat)]);
    s
}

/// Writes `n` in base ten.
pub fn decimal_string(n: u128) -> (s: String)
    ensures
        s@ == decimal_digits(n as nat),
    decreases n,
{
    if n < 10 {
        String::from_str(digit_text(n))
    } else {
        let mut s = decimal_string(n / 10);
        s.append(digit_text(n % 10));
        assert(s@ =~= decimal_digits(n as nat));
        s
    }
}

/// The character that writes the hexadecimal digit `d`, in lower case.
pub open spec fn hex_digit_char(d: nat) -> char
    recommends
        d < 16,
{
    seq!['0', '1', '2', '3', '4', '5', '6', '7', '8', '9', 'a', 'b', 'c', 'd', 'e', 'f'][d as int]
}

/// Whether `c` cannot stand as it is inside a JSON string: the double quote,
/// the backslash, and the control characters below the space.
pub open spec fn needs_escape(c: char) -> bool {
    c == '"' || c == '\\' || (c as u32) < 0x20
}

/// One character as it is written inside a JSON string. The double quote and
/// the backslash get a backslash in front; a control character becomes
/// `\u00` and its two hexadecimal digits; every other character is itself.
pub open spec fn json_char_text(c: char) -> Seq<char> {
    if c == '"' {
        seq!['\\', '"']
    } else if c == '\\' {
        seq!['\\', '\\']
    } else if (c as u32) < 0x20 {
        seq![
            '\\',
            'u',
            '0',
            '0',
            hex_digit_char(((c as u32) / 16) as nat),
            hex_digit_char(((c as u32) % 16) as nat),
        ]
    } else {
        seq![c]
    }
}

/// A text as it is written between the quotes of a JSON string: each of its
/// characters as `json_char_text` writes it, in order.
pub open spec fn json_string_text(s: Seq<char>) -> Seq<char>
    decreases s.len(),
{
    if s.len() == 0 {
        Seq::<char>::empty()
    } else {
        json_char_text(s[0]) + json_string_text(s.drop_first())
    }
}

/// Escaping goes character by character: the escaped text of a text with
/// one more character at its end is the escaped text with that character's
/// escape at its end.
pub proof fn lemma_json_string_push(s: Seq<char>, c: char)
    ensures
        json_string_text(s.push(c)) == json_string_text(s) + json_char_text(c),
    decreases s.len(),
{
    if s.len() == 0 {
        assert(s.push(c).drop_first() =~= Seq::<char>::empty());
        assert(json_string_text(s.push(c).drop_first()) =~= Seq::<char>::empty());
        assert(s.push(c)[0] == c);
        assert(json_string_text(s.push(c)) =~= json_char_text(c) + Seq::<char>::empty());
        assert(json_string_text(s) + json_char_text(c) =~= json_char_text(c));
    } else {
        lemma_json_string_push(s.drop_first(), c);
        assert(s.push(c).drop_first() =~= s.drop_first().push(c));
        assert(s.push(c)[0] == s[0]);
        assert(json_char_text(s[0]) + (json_string_text(s.drop_first()) + json_char_text(c))
            =~= (json_char_text(s[0]) + json_string_text(s.drop_first())) + json_char_text(c));
    }
}

/// A text that holds nothing to escape is written as it is.
pub proof fn law_plain_text_is_unchanged(s: Seq<char>)
    requires
        forall|i: int| 0 <= i < s.len() ==> !needs_escape(#[trigger] s[i]),
    ensures
        json_string_text(s) == s,
    decreases s.len(),
{
    if s.len() > 0 {
        law_plain_text_is_unchanged(s.drop_first());
        assert(json_string_text(s) =~= seq![s[0]] + s.drop_first());
        assert(seq![s[0]] + s.drop_first() =~= s);
    }
}

/// The hexadecimal digit that `c` writes; 0 for a character that writes none.
pub open spec fn hex_digit_value(c: char) -> nat {
    if c == 'a' {
        10
    } else if c == 'b' {
        11
    } else if c == 'c' {
        12
    } else if c == 'd' {
        13
    } else if c == 'e' {
        14
    } else if c == 'f' {
        15
    } else {
        digit_value(c)
    }
}

/// What a reader of JSON makes of a text between quotes, as far as it holds
/// the escapes that `json_string_text` writes: a backslash and `u` stand for
/// the character whose number the four hexadecimal digits give, a backslash
/// before any other character stands for that character, and every other
/// character stands for itself.
pub open spec fn json_string_read(t: Seq<char>) -> Seq<char>
    decreases t.len(),
{
    if t.len() == 0 {
        Seq::<char>::empty()
    } else if t[0] == '\\' && t.len() >= 6 && t[1] == 'u' {
        seq![
            ((4096 * hex_digit_value(t[2]) + 256 * hex_digit_value(t[3]) + 16 * hex_digit_value(
                t[4],
            ) + hex_digit_value(t[5])) as u32) as char,
        ] + json_string_read(t.skip(6))
    } else if t[0] == '\\' && t.len() >= 2 {
        seq![t[1]] + json_string_read(t.skip(2))
    } else {
        seq![t[0]] + json_string_read(t.skip(1))
    }
}

/// Each hexadecimal digit character writes the digit it was chosen for.
pub proof fn lemma_hex_digit_round_trip(d: nat)
    requires
        d < 16,
    ensures
        hex_digit_value(hex_digit_char(d)) == d,
{
}

/// One escaped character, whatever follows it, reads back as that character.
pub proof fn lemma_json_char_round_trip(c: char, rest: Seq<char>)
    ensures
        json_string_read(json_char_text(c) + rest) == seq![c] + json_string_read(rest),
{
    let t = json_char_text(c) + rest;
    if c == '"' || c == '\\' {
        assert(t[0] == '\\' && t[1] == c);
        assert(t.skip(2) =~= rest);
    } else if (c as u32) < 0x20 {
        let code = c as u32;
        lemma_hex_digit_round_trip((code / 16) as nat);
        lemma_hex_digit_round_trip((code % 16) as nat);
        assert(t[0] == '\\' && t[1] == 'u' && t[2] == '0' && t[3] == '0');
        assert(t[4] == hex_digit_char((code / 16) as nat));
        assert(t[5] == hex_digit_char((code % 16) as nat));
        assert(t.skip(6) =~= rest);
        assert(16 * (code / 16) + code % 16 == code);
        assert((code as u32) as char == c);
    } else {
        assert(t[0] == c);
        assert(t.skip(1) =~= rest);
    }
}

/// A name written as a JSON string reads back as the same name: escaping
/// loses nothing and adds nothing.
pub proof fn law_json_string_is_read_back(s: Seq<char>)
    ensures
        json_string_read(json_string_text(s)) == s,
    decreases s.len(),
{
    if s.len() > 0 {
        law_json_string_is_read_back(s.drop_first());
        lemma_json_char_round_trip(s[0], json_string_text(s.drop_first()));
        assert(seq![s[0]] + s.drop_first() =~= s);
    }
}

/// Nothing in an escaped text ends the string early or breaks its line: it
/// holds no control character, and a double quote only behind a backslash.
pub proof fn law_escaped_character_is_safe(c: char)
    ensures
        forall|i: int|
            0 <= i < json_char_text(c).len() ==> (#[trigger] json_char_text(c)[i] as u32) >= 0x20,
        forall|i: int|
            0 <= i < json_char_text(c).len() && #[trigger] json_char_text(c)[i] == '"' ==> i == 1
                && json_char_text(c)[0] == '\\',
{
    if c != '"' && c != '\\' && (c as u32) < 0x20 {
        let code = c as u32;
        assert((code / 16) < 2);
        assert((code % 16) < 16);
    }
}

fn hex_text(d: u32) -> (s: &'static str)
    requires
        d < 16,
    ensures
        s@ == seq![hex_digit_char(d as nat)],
{
    proof {
        reveal_strlit("a");
        reveal_strlit("b");
        reveal_strlit("c");
        reveal_strlit("d");
        reveal_strlit("e");
        reveal_strlit("f");
    }
    if d < 10 {
        let s = digit_text(d as u128);
        assert(s@ =~= seq![hex_digit_char(d as nat)]);
        s
    } else {
        let s = if d == 10 {
            "a"
        } else if d == 11 {
            "b"
        } else if d == 12 {
            "c"
        } else if d == 13 {
            "d"
        } else if d == 14 {
            "e"
        } else {
            "f"
        };
        assert(s@ =~= seq![hex_digit_char(d as nat)]);
        s
    }
}

/// Writes `s` as it stands between the quotes of a JSON string.
pub fn json_string(s: &str) -> (out: String)
    ensures
        out@ == json_string_text(s@),
{
    let n = s.unicode_len();
    let mut out = String::new();
    let mut i: usize = 0;
    while i < n
        invariant
            i <= n,
            n == s@.len(),
            out@ == json_string_text(s@.subrange(0, i as int)),
        decreases n - i,
    {
        let c = s.get_char(i);
        proof {
            lemma_json_string_push(s@.subrange(0, i as int), c);
            assert(s@.subrange(0, i + 1) =~= s@.subrange(0, i as int).push(c));
            reveal_strlit("\\\"");
            reveal_strlit("\\\\");
            reveal_strlit("\\u00");
        }
        if c == '"' {
            out.append("\\\"");
            assert(out@ =~= json_string_text(s@.subrange(0, i + 1)));
        } else if c == '\\' {
            out.append("\\\\");
            assert(out@ =~= json_string_text(s@.subrange(0, i + 1)));
        } else if (c as u32) < 0x20 {
            out.append("\\u00");
            out.append(hex_text((c as u32) / 16));
            out.append(hex_text((c as u32) % 16));
            assert(out@ =~= json_string_text(s@.subrange(0, i + 1)));
        } else {
            out.append(s.substring_char(i, i + 1));
            assert(s@.subrange(i as int, i + 1) =~= seq![c]);
            assert(out@ =~= json_string_text(s@.subrange(0, i + 1)));
        }
        i += 1;
    }
    assert(s@.subrange(0, n as int) =~= s@);
    out
}

} // verus!
