//! The quality parameter of a conversion, and how it is read from text.
use crate::error::Error;
use vstd::prelude::*;
use vstd::string::StrSliceExecFns;
use vstd::string::StringExecFns;

verus! {

/// Whether `c` is one of the ten decimal digits.
pub open spec fn is_digit(c: char) -> bool {
    '0' <= c && c <= '9'
}

/// The number a decimal digit stands for; 0 for any other character.
pub open spec fn digit_of(c: char) -> nat {
    if is_digit(c) {
        (c as int - '0' as int) as nat
    } else {
        0
    }
}

/// Whether every character of `s` is a decimal digit.
pub open spec fn all_digits(s: Seq<char>) -> bool {
    forall|i: int| 0 <= i < s.len() ==> is_digit(#[trigger] s[i])
}

/// The number that a run of decimal digits writes, most significant digit first.
pub open spec fn digits_value(s: Seq<char>) -> nat
    decreases s.len(),
{
    if s.len() == 0 {
        0
    } else {
        10 * digits_value(s.drop_last()) + digit_of(s.last())
    }
}

/// The digits of a decimal numeral: the text without its leading `+`, if it has one.
pub open spec fn numeral_digits(text: Seq<char>) -> Seq<char> {
    if text.len() > 0 && text[0] == '+' {
        text.skip(1)
    } else {
        text
    }
}

/// The number that `text` writes in decimal, where it fits in eight bits: an
/// optional `+`, then one or more decimal digits and nothing else.
pub open spec fn decimal_u8(text: Seq<char>) -> Option<u8> {
    let digits = numeral_digits(text);
    if digits.len() > 0 && all_digits(digits) && digits_value(digits) <= u8::MAX {
        Some(digits_value(digits) as u8)
    } else {
        None
    }
}

/// A run of digits writes no smaller a number than any of its prefixes.
pub proof fn lemma_digits_value_prefix(s: Seq<char>, k: int)
    requires
        0 <= k <= s.len(),
    ensures
        digits_value(s.take(k)) <= digits_value(s),
    decreases s.len(),
{
    if k == s.len() {
        assert(s.take(k) =~= s);
    } else {
        assert(s.drop_last().take(k) =~= s.take(k));
        lemma_digits_value_prefix(s.drop_last(), k);
    }
}

/// Reads a decimal numeral that fits in eight bits.
fn parse_decimal(val: &str) -> (number: Option<u8>)
    ensures
        number == decimal_u8(val@),
{
    let len: usize = val.unicode_len();
    let start: usize = if len > 0 && val.get_char(0) == '+' {
        1
    } else {
        0
    };
    let ghost digits = numeral_digits(val@);
    proof {
        assert(digits =~= val@.skip(start as int));
    }
    if start == len {
        return None;
    }
    let mut acc: u32 = 0;
    let mut i: usize = start;
    while i < len
        invariant
            start <= i <= len,
            len == val@.len(),
            digits == numeral_digits(val@),
            digits == val@.skip(start as int),
            all_digits(digits.take(i - start)),
            acc == digits_value(digits.take(i - start)),
            acc <= u8::MAX,
        decreases len - i,
    {
        let c: char = val.get_char(i);
        let ghost k = i - start;
        proof {
            assert(digits[k] == c);
            assert(digits.take(k + 1).drop_last() =~= digits.take(k));
        }
        if !(c >= '0' && c <= '9') {
            return None;
        }
        let digit: u32 = c as u32 - '0' as u32;
        let next: u32 = acc * 10 + digit;
        if next > 255 {
            proof {
                lemma_digits_value_prefix(digits, k + 1);
            }
            return None;
        }
        acc = next;
        i += 1;
    }
    proof {
        assert(digits.take(len - start) =~= digits);
    }
    Some(acc as u8)
}

/// Whether two texts hold the same characters.
fn same_text(a: &str, b: &str) -> (same: bool)
    ensures
        same == (a@ == b@),
{
    let len: usize = a.unicode_len();
    if len != b.unicode_len() {
        return false;
    }
    let mut i: usize = 0;
    while i < len
        invariant
            i <= len,
            len == a@.len(),
            len == b@.len(),
            a@.take(i as int) == b@.take(i as int),
        decreases len - i,
    {
        if a.get_char(i) != b.get_char(i) {
            return false;
        }
        proof {
            assert(a@.take(i + 1) =~= a@.take(i as int).push(a@[i as int]));
            assert(b@.take(i + 1) =~= b@.take(i as int).push(b@[i as int]));
        }
        i += 1;
    }
    proof {
        assert(a@.take(len as int) =~= a@);
        assert(b@.take(len as int) =~= b@);
    }
    true
}

/// Quality of the output mesh: the number of points the engine puts on a
/// circle. A higher quality gives more vertices and takes longer.
#[derive(Debug, PartialEq, Eq, Copy, Clone, Structural)]
pub enum Quality {
    /// 10
    Low,
    /// 20
    Medium,
    /// 50
    High,
    /// Any other number. The engine clips it to its own range.
    Custom(u8),
}

impl Default for Quality {
    fn default() -> (quality: Self)
        ensures
            quality == Quality::Medium,
    {
        Quality::Medium
    }
}

impl Quality {
    /// The quality that a number selects: the three named levels for their
    /// numbers, `Custom` for every other.
    pub open spec fn of_number(number: u8) -> Quality {
        if number == 10 {
            Quality::Low
        } else if number == 20 {
            Quality::Medium
        } else if number == 50 {
            Quality::High
        } else {
            Quality::Custom(number)
        }
    }

    /// The number handed to the engine.
    pub open spec fn number(self) -> u8 {
        match self {
            Quality::Low => 10,
            Quality::Medium => 20,
            Quality::High => 50,
            Quality::Custom(value) => value,
        }
    }

    /// The quality that a text names: a decimal numeral that fits in eight
    /// bits, or one of the words `low`, `medium` and `high`.
    pub open spec fn parse(text: Seq<char>) -> Option<Quality> {
        match decimal_u8(text) {
            Some(number) => Some(Quality::of_number(number)),
            None => if text == "low"@ {
                Some(Quality::Low)
            } else if text == "medium"@ {
                Some(Quality::Medium)
            } else if text == "high"@ {
                Some(Quality::High)
            } else {
                None
            },
        }
    }

    /// Reads a quality from text. A text that names none is handed back in
    /// `Error::QualityParse`.
    pub fn from_str(val: &str) -> (result: Result<Self, Error>)
        ensures
            result matches Ok(quality) ==> Quality::parse(val@) == Some(quality),
            result matches Err(error) ==> Quality::parse(val@) is None && error is QualityParse
                && error->QualityParse_0@ == val@,
    {
        let val: u8 = match parse_decimal(val) {
            Some(number) => number,
            None => {
                return if same_text(val, "low") {
                    Ok(Quality::Low)
                } else if same_text(val, "medium") {
                    Ok(Quality::Medium)
                } else if same_text(val, "high") {
                    Ok(Quality::High)
                } else {
                    Err(Error::QualityParse(String::from_str(val)))
                };
            },
        };
        Ok(
            match val {
                10 => Quality::Low,
                20 => Quality::Medium,
                50 => Quality::High,
                _ => Quality::Custom(val),
            },
        )
    }

    /// The number handed to the engine, unchanged for `Custom`.
    pub fn as_u8(&self) -> (number: u8)
        ensures
            number == self.number(),
    {
        match self {
            Quality::Low => 10,
            Quality::Medium => 20,
            Quality::High => 50,
            Quality::Custom(value) => *value,
        }
    }
}

/// The quality that a number selects hands that very number to the engine.
pub proof fn lemma_of_number_keeps_number(number: u8)
    ensures
        Quality::of_number(number).number() == number,
{
}

/// Round trip: a text that writes a number names a quality, and that quality
/// hands the number to the engine unchanged.
pub proof fn lemma_numeral_round_trip(text: Seq<char>)
    requires
        decimal_u8(text) is Some,
    ensures
        Quality::parse(text) is Some,
        Quality::parse(text)->Some_0.number() == decimal_u8(text)->Some_0,
{
}

/// A text that names a quality is a numeral or one of the three words, and
/// never both.
pub proof fn lemma_parse_cases(text: Seq<char>)
    ensures
        Quality::parse(text) is Some <==> decimal_u8(text) is Some || text == "low"@ || text
            == "medium"@ || text == "high"@,
        decimal_u8(text) is Some ==> text != "low"@ && text != "medium"@ && text != "high"@,
{
    reveal_strlit("low");
    reveal_strlit("medium");
    reveal_strlit("high");
    if decimal_u8(text) is Some {
        assert(is_digit(numeral_digits(text)[0]));
    }
}

} // verus!
