//! Identifiers: UUID text and the identifiers that wrap it.

use vstd::prelude::*;

verus! {

/// The value of a hexadecimal digit, in either case.
pub open spec fn hex_value(c: char) -> Option<nat> {
    if 48 <= c as int <= 57 {
        Some((c as int - 48) as nat)
    } else if 97 <= c as int <= 102 {
        Some((c as int - 87) as nat)
    } else if 65 <= c as int <= 70 {
        Some((c as int - 55) as nat)
    } else {
        None
    }
}

/// The number that a text of hexadecimal digits denotes, most significant
/// first, or `None` where a character is no hexadecimal digit.
pub open spec fn hex_number(s: Seq<char>) -> Option<nat>
    decreases s.len(),
{
    if s.len() == 0 {
        Some(0)
    } else {
        match (hex_number(s.drop_last()), hex_value(s.last())) {
            (Some(high), Some(low)) => Some(high * 16 + low),
            _ => None,
        }
    }
}

/// The 32 digits of a hyphenated UUID text: 36 characters with `-` at
/// positions 8, 13, 18 and 23.
pub open spec fn hyphenated_digits(s: Seq<char>) -> Option<Seq<char>> {
    if s.len() == 36 && s[8] == '-' && s[13] == '-' && s[18] == '-' && s[23] == '-' {
        Some(
            s.subrange(0, 8) + s.subrange(9, 13) + s.subrange(14, 18) + s.subrange(19, 23)
                + s.subrange(24, 36),
        )
    } else {
        None
    }
}

/// An ASCII letter in lower case; any other character as it is.
pub open spec fn ascii_lower(c: char) -> char {
    if 65 <= c as int <= 90 {
        (c as int + 32) as char
    } else {
        c
    }
}

/// The prefix of a UUID URN.
pub open spec fn urn_prefix() -> Seq<char> {
    seq!['u', 'r', 'n', ':', 'u', 'u', 'i', 'd', ':']
}

/// The 32 digits of a UUID text in one of the forms `uuid::Uuid::parse_str`
/// reads: 32 digits; hyphenated; hyphenated in braces; hyphenated after a
/// `urn:uuid:` prefix in any case.
pub open spec fn uuid_digits(s: Seq<char>) -> Option<Seq<char>> {
    if s.len() == 32 {
        Some(s)
    } else if s.len() == 36 {
        hyphenated_digits(s)
    } else if s.len() == 38 && s[0] == '{' && s[37] == '}' {
        hyphenated_digits(s.subrange(1, 37))
    } else if s.len() == 45 && s.take(9).map_values(|c: char| ascii_lower(c)) == urn_prefix() {
        hyphenated_digits(s.skip(9))
    } else {
        None
    }
}

/// The UUID that `uuid::Uuid::parse_str` reads from a text, as its 128-bit
/// big-endian value, or `None` where the text is no UUID.
pub open spec fn uuid_parse(text: Seq<char>) -> Option<u128> {
    match uuid_digits(text) {
        Some(d) => match hex_number(d) {
            Some(v) => Some(v as u128),
            None => None,
        },
        None => None,
    }
}

/// The character of a hexadecimal digit below 16, in lower case.
pub open spec fn hex_digit(n: nat) -> char {
    if n < 10 {
        (48 + n) as char
    } else {
        (87 + n) as char
    }
}

/// The last `count` hexadecimal digits of `v`, most significant first.
pub open spec fn hex_digits(v: nat, count: nat) -> Seq<char>
    decreases count,
{
    if count == 0 {
        Seq::empty()
    } else {
        hex_digits(v / 16, (count - 1) as nat).push(hex_digit(v % 16))
    }
}

/// The text of a UUID as the `uuid` crate displays it: its 32 hexadecimal
/// digits in lower case, in groups of 8, 4, 4, 4 and 12 joined by `-`.
pub open spec fn uuid_hyphenated(u: u128) -> Seq<char> {
    let h = hex_digits(u as nat, 32);
    h.subrange(0, 8) + seq!['-'] + h.subrange(8, 12) + seq!['-'] + h.subrange(12, 16) + seq!['-']
        + h.subrange(16, 20) + seq!['-'] + h.subrange(20, 32)
}

/// Hexadecimal digits are neither parentheses nor hyphens.
pub proof fn lemma_hex_digits_plain(v: nat, count: nat)
    ensures
        hex_digits(v, count).len() == count,
        forall|i: int|
            0 <= i < count ==> {
                let c = #[trigger] hex_digits(v, count)[i];
                c != '(' && c != ')' && c != '-'
            },
    decreases count,
{
    if count > 0 {
        lemma_hex_digits_plain(v / 16, (count - 1) as nat);
        let d = v % 16;
        let c = hex_digit(d);
        assert(c != '(' && c != ')' && c != '-') by {
            if d < 10 {
                assert((48 + d) as char == c);
            } else {
                assert((87 + d) as char == c);
            }
        }
    }
}

/// The text of a UUID holds no parenthesis.
pub proof fn lemma_uuid_hyphenated_plain(u: u128)
    ensures
        !uuid_hyphenated(u).contains('('),
        !uuid_hyphenated(u).contains(')'),
{
    let h = hex_digits(u as nat, 32);
    lemma_hex_digits_plain(u as nat, 32);
    let t = uuid_hyphenated(u);
    assert forall|i: int| 0 <= i < t.len() implies t[i] != '(' && t[i] != ')' by {
        if i < 8 {
            assert(t[i] == h[i]);
        } else if i == 8 || i == 13 || i == 18 || i == 23 {
            assert(t[i] == '-');
        } else if i < 13 {
            assert(t[i] == h[i - 1]);
        } else if i < 18 {
            assert(t[i] == h[i - 2]);
        } else if i < 23 {
            assert(t[i] == h[i - 3]);
        } else {
            assert(t[i] == h[i - 4]);
        }
    }
}

/// Sixteen to the power `n`.
pub open spec fn pow16(n: nat) -> nat
    decreases n,
{
    if n == 0 {
        1
    } else {
        16 * pow16((n - 1) as nat)
    }
}

/// The digits of a number below `16^count` read back as that number.
pub proof fn lemma_hex_digits_value(v: nat, count: nat)
    requires
        v < pow16(count),
    ensures
        hex_number(hex_digits(v, count)) == Some(v),
    decreases count,
{
    if count == 0 {
    } else {
        let p = pow16((count - 1) as nat);
        assert(v / 16 < p) by (nonlinear_arith)
            requires
                v < 16 * p,
        ;
        lemma_hex_digits_value(v / 16, (count - 1) as nat);
        let h = hex_digits(v, count);
        let d = v % 16;
        assert(h.drop_last() =~= hex_digits(v / 16, (count - 1) as nat));
        assert(h.last() == hex_digit(d));
        assert(hex_value(hex_digit(d)) == Some(d)) by {
            if d < 10 {
                assert(((48 + d) as char) as int == 48 + d);
            } else {
                assert(((87 + d) as char) as int == 87 + d);
            }
        }
        assert((v / 16) * 16 + v % 16 == v);
    }
}

/// The text the `uuid` crate displays a UUID as is read back as that UUID.
pub proof fn lemma_uuid_hyphenated_parses(u: u128)
    ensures
        uuid_parse(uuid_hyphenated(u)) == Some(u),
{
    let h = hex_digits(u as nat, 32);
    lemma_hex_digits_plain(u as nat, 32);
    let t = uuid_hyphenated(u);
    assert(t.len() == 36);
    assert(t[8] == '-' && t[13] == '-' && t[18] == '-' && t[23] == '-');
    assert(t.subrange(0, 8) + t.subrange(9, 13) + t.subrange(14, 18) + t.subrange(19, 23)
        + t.subrange(24, 36) =~= h);
    reveal_with_fuel(pow16, 33);
    assert(pow16(32) == 0x1_0000_0000_0000_0000_0000_0000_0000_0000nat);
    lemma_hex_digits_value(u as nat, 32);
}

/// Trusted: calls `uuid::Uuid::parse_str` and takes the parsed value by
/// `Uuid::as_u128`. The contract claims that the result is `uuid_parse`:
/// the source accepts 32 hexadecimal digits in either case, the hyphenated
/// form, the hyphenated form in braces and after a `urn:uuid:` prefix in
/// any case, and reads the digits as a big-endian number; every other text
/// is refused. (It checks byte lengths; a text with a character outside
/// ASCII is refused under both readings.)
#[verifier::external_body]
pub(crate) fn parse_uuid(text: &str) -> (r: Option<u128>)
    ensures
        r == uuid_parse(text@),
{
    match uuid::Uuid::parse_str(text) {
        Ok(u) => Some(u.as_u128()),
        Err(_) => None,
    }
}

} // verus!
