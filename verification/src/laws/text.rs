//! Laws of numbers and texts.

use vstd::arithmetic::power::{lemma_pow0, lemma_pow1, lemma_pow_adds, lemma_pow_positive, pow};
use vstd::prelude::*;

use crate::clock::whole_secs;
use crate::text::{
    all_decimal_digits, decimal, decimal_text, decimal_value, hex_lower, hex_lower_text, hex_upper,
    hex_upper_text, is_decimal_digit, parse_unsigned, unsigned_digits,
};

verus! {

proof fn lemma_pow_step(base: int, n: nat)
    ensures
        pow(base, n + 1) == base * pow(base, n),
{
    lemma_pow_adds(base, 1, n);
    lemma_pow1(base);
}

/// Dividing once more by ten drops one digit.
proof fn lemma_div_pow(n: nat, base: nat, k: nat)
    requires
        base > 1,
    ensures
        n as int / pow(base as int, k + 1) == (n / base) as int / pow(base as int, k),
        pow(base as int, k) > 0,
{
    lemma_pow_positive(base as int, k);
    lemma_pow_step(base as int, k);
    vstd::arithmetic::div_mod::lemma_div_denominator(n as int, base as int, pow(base as int, k));
}

proof fn lemma_decimal_digits(n: nat)
    ensures
        decimal(n).len() >= 1,
        n < pow(10, decimal(n).len()),
        decimal(n).len() > 1 ==> decimal(n)[0] != '0',
        decimal(n).len() == 1 ==> n < 10,
        n > 0 ==> decimal(n)[0] != '0',
        forall|i: int| #![trigger decimal(n)[i]]
            0 <= i < decimal(n).len() ==> decimal(n)[i] as int == 48 + (n as int / pow(
                10,
                (decimal(n).len() - 1 - i) as nat,
            )) % 10,
    decreases n,
{
    let s = decimal(n);
    lemma_pow0(10);
    lemma_pow1(10);
    if n >= 10 {
        let q = n / 10;
        let t = decimal(q);
        lemma_decimal_digits(q);
        lemma_pow_step(10, t.len());
        assert(s == t.push(crate::text::digit_char(n % 10)));
        assert forall|i: int| #![trigger s[i]] 0 <= i < s.len() implies s[i] as int == 48 + (
        n as int / pow(10, (s.len() - 1 - i) as nat)) % 10 by {
            if i < t.len() {
                assert(s[i] == t[i]);
                let k = (t.len() - 1 - i) as nat;
                lemma_div_pow(n, 10, k);
                assert((s.len() - 1 - i) as nat == k + 1);
            } else {
                assert(s[i] == crate::text::digit_char(n % 10));
                assert((s.len() - 1 - i) as nat == 0);
            }
        }
        assert(s[0] == t[0]);
    } else {
        assert(s[0] == crate::text::digit_char(n));
    }
}

/// A number is written out in decimal: one or more digits without leading zeros, each of which is
/// the number divided by the power of ten that belongs to its place, modulo ten.
pub proof fn law_decimal_text_writes_digits(n: u64, s: String)
    requires
        call_ensures(decimal_text, (n,), s),
    ensures
        s@.len() >= 1,
        s@.len() > 1 ==> s@[0] != '0',
        n < pow(10, s@.len()),
        forall|i: int| #![trigger s@[i]]
            0 <= i < s@.len() ==> s@[i] as int == 48 + (n as int / pow(
                10,
                (s@.len() - 1 - i) as nat,
            )) % 10,
{
    lemma_decimal_digits(n as nat);
}

/// Whether a text is the `width` low hexadecimal digits of a number; `letters_from` is the
/// character code of the letter that stands for ten.
pub open spec fn are_hex_digits(s: Seq<char>, n: int, width: nat, letters_from: int) -> bool {
    &&& s.len() == width
    &&& forall|i: int| #![trigger s[i]]
        0 <= i < width ==> {
            let d = (n / pow(16, (width - 1 - i) as nat)) % 16;
            s[i] as int == if d < 10 {
                48 + d
            } else {
                letters_from + d - 10
            }
        }
}

pub(crate) proof fn lemma_hex_digits(n: nat, width: nat)
    ensures
        are_hex_digits(hex_lower(n, width), n as int, width, 97),
        are_hex_digits(hex_upper(n, width), n as int, width, 65),
    decreases width,
{
    if width > 0 {
        let w = (width - 1) as nat;
        lemma_hex_digits(n / 16, w);
        lemma_pow0(16);
        let lo = hex_lower(n, width);
        let up = hex_upper(n, width);
        let lo2 = hex_lower(n / 16, w);
        let up2 = hex_upper(n / 16, w);
        assert forall|i: int| #![trigger lo[i]] 0 <= i < width implies {
            let d = (n as int / pow(16, (width - 1 - i) as nat)) % 16;
            lo[i] as int == if d < 10 {
                48 + d
            } else {
                97 + d - 10
            }
        } by {
            if i < w {
                assert(lo[i] == lo2[i]);
                let k = (w - 1 - i) as nat;
                lemma_div_pow(n, 16, k);
                assert((width - 1 - i) as nat == k + 1);
            } else {
                assert((width - 1 - i) as nat == 0);
            }
        }
        assert forall|i: int| #![trigger up[i]] 0 <= i < width implies {
            let d = (n as int / pow(16, (width - 1 - i) as nat)) % 16;
            up[i] as int == if d < 10 {
                48 + d
            } else {
                65 + d - 10
            }
        } by {
            if i < w {
                assert(up[i] == up2[i]);
                let k = (w - 1 - i) as nat;
                lemma_div_pow(n, 16, k);
                assert((width - 1 - i) as nat == k + 1);
            } else {
                assert((width - 1 - i) as nat == 0);
            }
        }
    }
}

/// A number is written out in hexadecimal with exactly `width` digits: each is the number divided
/// by the power of sixteen that belongs to its place, modulo sixteen.
pub proof fn law_hex_text_writes_digits(n: u128, m: u16, width: u32, lower: String, upper: String)
    requires
        call_ensures(hex_lower_text, (n, width), lower),
        call_ensures(hex_upper_text, (m, width), upper),
    ensures
        are_hex_digits(lower@, n as int, width as nat, 97),
        are_hex_digits(upper@, m as int, width as nat, 65),
{
    lemma_hex_digits(n as nat, width as nat);
    lemma_hex_digits(m as nat, width as nat);
}

/// Whether a text is an optional plus sign and one or more decimal digits.
pub open spec fn is_unsigned_text(s: Seq<char>) -> bool {
    let from: int = if s.len() > 0 && s[0] == '+' {
        1
    } else {
        0
    };
    &&& s.len() > from
    &&& forall|i: int| from <= i < s.len() ==> 48 <= #[trigger] s[i] as int <= 57
}

/// Only digits with an optional plus sign before them are a number, and one digit is its own
/// value if that is small enough.
pub proof fn law_parse_takes_digits_only(s: &str, max: u32, value: Option<u32>)
    requires
        call_ensures(parse_unsigned, (s, max), value),
    ensures
        !is_unsigned_text(s@) ==> value is None,
        is_unsigned_text(s@) && s@.len() == 1 ==> value == if s@[0] as int - 48 <= max {
            Some((s@[0] as int - 48) as u32)
        } else {
            None
        },
        value matches Some(v) ==> v <= max,
{
    let digits = unsigned_digits(s@);
    let from: int = if s@.len() > 0 && s@[0] == '+' {
        1
    } else {
        0
    };
    assert(digits =~= s@.skip(from));
    if !is_unsigned_text(s@) && digits.len() > 0 {
        let i = choose|i: int| from <= i < s@.len() && !(48 <= #[trigger] s@[i] as int <= 57);
        assert(digits[i - from] == s@[i]);
        assert(!is_decimal_digit(digits[i - from]));
    }
    if is_unsigned_text(s@) && s@.len() == 1 {
        assert(digits.drop_last() =~= Seq::<char>::empty());
        assert(all_decimal_digits(digits));
        reveal_with_fuel(decimal_value, 2);
    }
}

/// A further digit makes the number ten times as large and adds the digit; a plus sign in front
/// changes nothing. A number that is too large stays so.
pub proof fn law_parse_goes_digit_by_digit(
    s: &str,
    longer: &str,
    signed: &str,
    c: char,
    max: u32,
    value: Option<u32>,
    value2: Option<u32>,
    value3: Option<u32>,
)
    requires
        is_unsigned_text(s@),
        48 <= c as int <= 57,
        longer@ == s@.push(c),
        signed@ == seq!['+'] + s@,
        call_ensures(parse_unsigned, (s, max), value),
        call_ensures(parse_unsigned, (longer, max), value2),
        call_ensures(parse_unsigned, (signed, max), value3),
    ensures
        value2 == match value {
            Some(v) => if v * 10 + (c as int - 48) <= max {
                Some((v * 10 + (c as int - 48)) as u32)
            } else {
                None
            },
            None => None,
        },
        s@[0] != '+' ==> value3 == value,
{
    let d = unsigned_digits(s@);
    let d2 = unsigned_digits(longer@);
    let from: int = if s@[0] == '+' {
        1
    } else {
        0
    };
    assert(d =~= s@.skip(from));
    assert(longer@[0] == s@[0]);
    assert(d2 =~= d.push(c));
    assert(d2.drop_last() =~= d);
    assert forall|i: int| 0 <= i < d.len() implies is_decimal_digit(#[trigger] d[i]) by {
        assert(d[i] == s@[i + from]);
    }
    assert(all_decimal_digits(d));
    assert(all_decimal_digits(d2));
    if s@[0] != '+' {
        assert(unsigned_digits(signed@) =~= s@);
        assert(d =~= s@);
    }
}

/// Seconds are counted in full: a second more comes only after a thousand million nanoseconds, and
/// the count starts over after 2^64 seconds.
pub proof fn law_seconds_are_whole(nanos: u128, secs: u64)
    requires
        call_ensures(whole_secs, (nanos,), secs),
    ensures
        exists|turns: int| #[trigger]
            are_seconds_after(nanos as int, turns * 0x1_0000_0000_0000_0000, secs as int) && turns
                >= 0,
        nanos < 0x1_0000_0000_0000_0000 * 1_000_000_000 ==> are_seconds_after(
            nanos as int,
            0,
            secs as int,
        ),
{
    let whole = nanos as int / 1_000_000_000;
    let turns = whole / 0x1_0000_0000_0000_0000;
    assert(are_seconds_after(nanos as int, turns * 0x1_0000_0000_0000_0000, secs as int));
}

/// Whether `secs` full seconds, and no more, have passed after the first `start` seconds.
pub open spec fn are_seconds_after(nanos: int, start: int, secs: int) -> bool {
    (start + secs) * 1_000_000_000 <= nanos < (start + secs + 1) * 1_000_000_000
}

} // verus!
