//! Number formatting and parsing on strings, with their mathematical meaning.

use vstd::prelude::*;
use vstd::string::*;

verus! {

/// The character of one digit in bases up to sixteen; letters are lower case.
pub open spec fn digit_char(d: nat) -> char {
    if d < 10 {
        (48 + d) as char
    } else {
        (87 + d) as char
    }
}

/// The character of one hexadecimal digit; letters are upper case.
pub open spec fn upper_digit_char(d: nat) -> char {
    if d < 10 {
        (48 + d) as char
    } else {
        (55 + d) as char
    }
}

/// `n` in decimal, without leading zeros (zero itself is `"0"`).
pub open spec fn decimal(n: nat) -> Seq<char>
    decreases n,
{
    if n < 10 {
        seq![digit_char(n)]
    } else {
        decimal(n / 10).push(digit_char(n % 10))
    }
}

/// The last `width` hexadecimal digits of `n`, zero-padded on the left, in lower case.
pub open spec fn hex_lower(n: nat, width: nat) -> Seq<char>
    decreases width,
{
    if width == 0 {
        Seq::empty()
    } else {
        hex_lower(n / 16, (width - 1) as nat).push(digit_char(n % 16))
    }
}

/// The last `width` hexadecimal digits of `n`, zero-padded on the left, in upper case.
pub open spec fn hex_upper(n: nat, width: nat) -> Seq<char>
    decreases width,
{
    if width == 0 {
        Seq::empty()
    } else {
        hex_upper(n / 16, (width - 1) as nat).push(upper_digit_char(n % 16))
    }
}

/// One digit as a string slice; letters are lower case.
fn digit_str(d: u8) -> (s: &'static str)
    requires
        d < 16,
    ensures
        s@ == seq![digit_char(d as nat)],
{
    proof {
        reveal_strlit("0");
        reveal_strlit("1");
        reveal_strlit("2");
        reveal_strlit("3");
        reveal_strlit("4");
        reveal_strlit("5");
        reveal_strlit("6");
        reveal_strlit("7");
        reveal_strlit("8");
        reveal_strlit("9");
        reveal_strlit("a");
        reveal_strlit("b");
        reveal_strlit("c");
        reveal_strlit("d");
        reveal_strlit("e");
        reveal_strlit("f");
    }
    match d {
        0 => "0",
        1 => "1",
        2 => "2",
        3 => "3",
        4 => "4",
        5 => "5",
        6 => "6",
        7 => "7",
        8 => "8",
        9 => "9",
        10 => "a",
        11 => "b",
        12 => "c",
        13 => "d",
        14 => "e",
        _ => "f",
    }
}

/// One hexadecimal digit as a string slice; letters are upper case.
fn upper_digit_str(d: u8) -> (s: &'static str)
    requires
        d < 16,
    ensures
        s@ == seq![upper_digit_char(d as nat)],
{
    proof {
        reveal_strlit("A");
        reveal_strlit("B");
        reveal_strlit("C");
        reveal_strlit("D");
        reveal_strlit("E");
        reveal_strlit("F");
    }
    match d {
        10 => "A",
        11 => "B",
        12 => "C",
        13 => "D",
        14 => "E",
        15 => "F",
        _ => digit_str(d),
    }
}

/// Formats `n` in decimal.
pub fn decimal_text(n: u64) -> (s: String)
    ensures
        s@ == decimal(n as nat),
    decreases n,
{
    if n < 10 {
        String::from_str(digit_str(n as u8))
    } else {
        decimal_text(n / 10).concat(digit_str((n % 10) as u8))
    }
}

/// Formats `n` as exactly `width` lower-case hexadecimal digits.
pub fn hex_lower_text(n: u128, width: u32) -> (s: String)
    ensures
        s@ == hex_lower(n as nat, width as nat),
    decreases width,
{
    if width == 0 {
        String::new()
    } else {
        hex_lower_text(n / 16, width - 1).concat(digit_str((n % 16) as u8))
    }
}

/// Formats `n` as exactly `width` upper-case hexadecimal digits.
pub fn hex_upper_text(n: u16, width: u32) -> (s: String)
    ensures
        s@ == hex_upper(n as nat, width as nat),
    decreases width,
{
    if width == 0 {
        String::new()
    } else {
        hex_upper_text(n / 16, width - 1).concat(upper_digit_str((n % 16) as u8))
    }
}

/// Whether two strings hold the same characters.
pub fn same_text(a: &str, b: &str) -> (same: bool)
    ensures
        same == (a@ == b@),
{
    String::from_str(a) == String::from_str(b)
}

/// The bytes of a text whose characters are all ASCII.
pub open spec fn ascii_bytes(s: Seq<char>) -> Seq<u8> {
    s.map_values(|c: char| c as u8)
}

/// Copies a list of strings.
pub fn clone_texts(texts: &[String]) -> (copy: Vec<String>)
    ensures
        copy@ == texts@,
{
    let mut copy: Vec<String> = Vec::new();
    let mut i: usize = 0;
    while i < texts.len()
        invariant
            0 <= i <= texts@.len(),
            copy@ == texts@.take(i as int),
        decreases texts@.len() - i,
    {
        copy.push(texts[i].clone());
        i = i + 1;
        assert(texts@.take(i as int) =~= texts@.take(i - 1).push(texts@[i - 1]));
    }
    assert(texts@.take(i as int) =~= texts@);
    copy
}

/// Whether `c` is one of `'0'..='9'`.
pub open spec fn is_decimal_digit(c: char) -> bool {
    48 <= c as int <= 57
}

/// Whether every character of `s` is a decimal digit.
pub open spec fn all_decimal_digits(s: Seq<char>) -> bool {
    forall|i: int| 0 <= i < s.len() ==> is_decimal_digit(#[trigger] s[i])
}

/// The number that a string of decimal digits denotes.
pub open spec fn decimal_value(s: Seq<char>) -> nat
    decreases s.len(),
{
    if s.len() == 0 {
        0
    } else {
        decimal_value(s.drop_last()) * 10 + (s.last() as nat - 48) as nat
    }
}

/// What remains of a number's text after an optional leading `+`.
pub open spec fn unsigned_digits(s: Seq<char>) -> Seq<char> {
    if s.len() > 0 && s[0] == '+' {
        s.skip(1)
    } else {
        s
    }
}

/// The unsigned number written in `s`: an optional `+` and at least one decimal digit, with a
/// value of at most `max`.
pub open spec fn unsigned_number(s: Seq<char>, max: nat) -> Option<nat> {
    let digits = unsigned_digits(s);
    if digits.len() == 0 || !all_decimal_digits(digits) || decimal_value(digits) > max {
        None
    } else {
        Some(decimal_value(digits))
    }
}

/// Dropping digits from the end never makes the number larger.
proof fn lemma_decimal_value_prefix(s: Seq<char>, k: int)
    requires
        0 <= k <= s.len(),
        all_decimal_digits(s),
    ensures
        decimal_value(s.take(k)) <= decimal_value(s),
    decreases s.len() - k,
{
    if k == s.len() {
        assert(s.take(k) =~= s);
    } else {
        lemma_decimal_value_prefix(s, k + 1);
        assert(s.take(k + 1).drop_last() =~= s.take(k));
        assert(is_decimal_digit(s[k]));
    }
}

/// Parses an unsigned number of at most `max`, with an optional leading `+`.
pub fn parse_unsigned(s: &str, max: u32) -> (value: Option<u32>)
    ensures
        match value {
            Some(v) => unsigned_number(s@, max as nat) == Some(v as nat),
            None => unsigned_number(s@, max as nat) is None,
        },
{
    let n = s.unicode_len();
    let mut start: usize = 0;
    if n > 0 && s.get_char(0) == '+' {
        start = 1;
    }
    let ghost digits = unsigned_digits(s@);
    if start == n {
        return None;
    }
    let mut i: usize = start;
    let mut acc: u64 = 0;
    assert(digits.take(0) =~= Seq::empty());
    while i < n
        invariant
            start <= i <= n,
            n == s@.len(),
            digits == unsigned_digits(s@),
            digits =~= s@.skip(start as int),
            all_decimal_digits(digits.take(i - start)),
            acc == decimal_value(digits.take(i - start)),
            acc <= max,
        decreases n - i,
    {
        let c = s.get_char(i);
        assert(digits[i - start] == c);
        if c < '0' || c > '9' {
            assert(!is_decimal_digit(digits[i - start]));
            return None;
        }
        let d: u64 = (c as u64) - 48;
        let next: u64 = acc * 10 + d;
        proof {
            assert(digits.take(i - start + 1).drop_last() =~= digits.take(i - start));
            assert(digits.take(i - start + 1) =~= digits.take(i - start).push(c));
        }
        if next > max as u64 {
            proof {
                if all_decimal_digits(digits) {
                    lemma_decimal_value_prefix(digits, i - start + 1);
                }
            }
            return None;
        }
        acc = next;
        i = i + 1;
    }
    assert(digits.take(n - start) =~= digits);
    Some(acc as u32)
}

} // verus!
