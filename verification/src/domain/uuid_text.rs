//! The text forms of UUIDs, as the `uuid` crate writes and reads them.

use vstd::arithmetic::div_mod::{lemma_div_denominator, lemma_fundamental_div_mod};
use vstd::arithmetic::power::{lemma_pow_positive, pow};
use vstd::prelude::*;

verus! {

/// The lowercase hexadecimal digit for a nibble.
pub open spec fn hex_digit(n: int) -> char {
    if n < 10 {
        (48 + n) as char
    } else {
        (87 + n) as char
    }
}

/// The `k`-th hexadecimal digit (from the most significant) of a 128-bit value.
pub open spec fn nibble(v: u128, k: int) -> int {
    (v as int / pow(16, (31 - k) as nat)) % 16
}

/// Position among the 32 digits of the character at position `p` of the
/// hyphenated form.
pub open spec fn digit_position(p: int) -> int {
    if p < 8 {
        p
    } else if p < 13 {
        p - 1
    } else if p < 18 {
        p - 2
    } else if p < 23 {
        p - 3
    } else {
        p - 4
    }
}

pub open spec fn is_hyphen_position(p: int) -> bool {
    p == 8 || p == 13 || p == 18 || p == 23
}

/// The lowercase hyphenated form `xxxxxxxx-xxxx-xxxx-xxxx-xxxxxxxxxxxx`.
pub open spec fn uuid_hyphenated(v: u128) -> Seq<char> {
    Seq::new(
        36,
        |p: int|
            if is_hyphen_position(p) {
                '-'
            } else {
                hex_digit(nibble(v, digit_position(p)))
            },
    )
}

/// The value of a hexadecimal digit of either case.
pub open spec fn hex_value(c: char) -> Option<int> {
    if '0' <= c && c <= '9' {
        Some(c as int - 48)
    } else if 'a' <= c && c <= 'f' {
        Some(c as int - 87)
    } else if 'A' <= c && c <= 'F' {
        Some(c as int - 55)
    } else {
        None
    }
}

/// The value of a string of hexadecimal digits, most significant first.
pub open spec fn hex_number(s: Seq<char>) -> Option<int>
    decreases s.len(),
{
    if s.len() == 0 {
        Some(0)
    } else {
        match (hex_number(s.drop_last()), hex_value(s.last())) {
            (Some(a), Some(b)) => Some(a * 16 + b),
            _ => None,
        }
    }
}

/// The 32 digits of a hyphenated form, if the hyphens stand in place.
pub open spec fn hyphenated_digits(s: Seq<char>) -> Option<Seq<char>> {
    if s.len() == 36 && s[8] == '-' && s[13] == '-' && s[18] == '-' && s[23] == '-' {
        Some(
            s.subrange(0, 8) + s.subrange(9, 13) + s.subrange(14, 18) + s.subrange(19, 23)
                + s.subrange(24, 36),
        )
    } else {
        None
    }
}

pub open spec fn ascii_lower(c: char) -> char {
    if 'A' <= c && c <= 'Z' {
        (c as int + 32) as char
    } else {
        c
    }
}

/// `s` starts with `urn:uuid:`, in any ASCII case.
pub open spec fn has_urn_prefix(s: Seq<char>) -> bool {
    s.len() >= 9 && forall|i: int| 0 <= i < 9 ==> #[trigger] ascii_lower(s[i]) == "urn:uuid:"@[i]
}

/// The value a UUID text denotes: 32 digits, the hyphenated form, the
/// hyphenated form in braces, or the hyphenated form after `urn:uuid:`.
pub open spec fn uuid_text_value(s: Seq<char>) -> Option<u128> {
    let digits = if s.len() == 32 {
        Some(s)
    } else if s.len() == 36 {
        hyphenated_digits(s)
    } else if s.len() == 38 && s[0] == '{' && s[37] == '}' {
        hyphenated_digits(s.subrange(1, 37))
    } else if s.len() == 45 && has_urn_prefix(s) {
        hyphenated_digits(s.subrange(9, 45))
    } else {
        None
    };
    match digits {
        Some(d) => match hex_number(d) {
            Some(v) => Some(v as u128),
            None => None,
        },
        None => None,
    }
}

proof fn lemma_hex_digit_value(n: int)
    requires
        0 <= n < 16,
    ensures
        hex_value(hex_digit(n)) == Some(n),
{
}

proof fn lemma_pow16_32()
    ensures
        pow(16, 32) == 0x1_0000_0000_0000_0000_0000_0000_0000_0000int,
{
    reveal_with_fuel(pow, 33);
}

/// The digits of the hyphenated form, read back in order.
proof fn lemma_hyphenated_digits(v: u128)
    ensures
        hyphenated_digits(uuid_hyphenated(v)) matches Some(d) && d.len() == 32 && forall|k: int|
            0 <= k < 32 ==> #[trigger] d[k] == hex_digit(nibble(v, k)),
{
    let h = uuid_hyphenated(v);
    assert(h[8] == '-' && h[13] == '-' && h[18] == '-' && h[23] == '-');
    let d = h.subrange(0, 8) + h.subrange(9, 13) + h.subrange(14, 18) + h.subrange(19, 23)
        + h.subrange(24, 36);
    assert forall|k: int| 0 <= k < 32 implies #[trigger] d[k] == hex_digit(nibble(v, k)) by {
        if k < 8 {
            assert(d[k] == h[k]);
        } else if k < 12 {
            assert(d[k] == h[k + 1]);
        } else if k < 16 {
            assert(d[k] == h[k + 2]);
        } else if k < 20 {
            assert(d[k] == h[k + 3]);
        } else {
            assert(d[k] == h[k + 4]);
        }
    }
}

/// The first `k` digits of the text of `v` denote `v / 16^(32 - k)`.
proof fn lemma_digit_prefix(v: u128, d: Seq<char>, k: int)
    requires
        d.len() == 32,
        forall|j: int| 0 <= j < 32 ==> #[trigger] d[j] == hex_digit(nibble(v, j)),
        0 <= k <= 32,
    ensures
        hex_number(d.take(k)) == Some(v as int / pow(16, (32 - k) as nat)),
    decreases k,
{
    if k == 0 {
        assert(d.take(0) =~= Seq::<char>::empty());
        lemma_pow16_32();
    } else {
        lemma_digit_prefix(v, d, k - 1);
        let t = d.take(k);
        assert(t.drop_last() =~= d.take(k - 1));
        assert(t.last() == d[k - 1]);
        let p = pow(16, (32 - k) as nat);
        lemma_pow_positive(16, (32 - k) as nat);
        let x = v as int / p;
        assert(pow(16, (33 - k) as nat) == 16 * p) by {
            reveal(pow);
        }
        lemma_div_denominator(v as int, p, 16);
        assert(p * 16 == 16 * p);
        lemma_fundamental_div_mod(x, 16);
        lemma_hex_digit_value(x % 16);
        assert(nibble(v, k - 1) == x % 16);
    }
}

/// Reading the hyphenated text of a value gives the value back.
pub proof fn lemma_uuid_text_round_trip(v: u128)
    ensures
        uuid_text_value(uuid_hyphenated(v)) == Some(v),
{
    lemma_hyphenated_digits(v);
    let d = hyphenated_digits(uuid_hyphenated(v))->Some_0;
    lemma_digit_prefix(v, d, 32);
    assert(d.take(32) =~= d);
    assert(pow(16, 0) == 1) by {
        reveal(pow);
    }
}

} // verus!
