//! How integers and decimal literals are written.

use vstd::prelude::*;

verus! {

pub open spec fn is_digit(c: char) -> bool {
    '0' <= c <= '9'
}

pub open spec fn is_sign(c: char) -> bool {
    c == '+' || c == '-'
}

pub open spec fn digit_value(c: char) -> int {
    c as u32 as int - 48
}

/// The number that a run of decimal digits writes.
pub open spec fn digits_value(digits: Seq<char>) -> int
    decreases digits.len(),
{
    if digits.len() == 0 {
        0
    } else {
        digits_value(digits.drop_last()) * 10 + digit_value(digits.last())
    }
}

pub open spec fn all_digits(digits: Seq<char>) -> bool {
    forall|i: int| 0 <= i < digits.len() ==> is_digit(#[trigger] digits[i])
}

/// The 32-bit integer that a text writes: an optional sign, then one or more
/// decimal digits, the whole within range. Nothing else is an integer.
pub open spec fn int_of(text: Seq<char>) -> Option<i32> {
    let signed = text.len() > 0 && is_sign(text[0]);
    let digits = if signed {
        text.skip(1)
    } else {
        text
    };
    let magnitude = digits_value(digits);
    let value = if signed && text[0] == '-' {
        -magnitude
    } else {
        magnitude
    };
    if digits.len() > 0 && all_digits(digits) && i32::MIN <= value <= i32::MAX {
        Some(value as i32)
    } else {
        None
    }
}

/// The index just past the longest run of digits that starts at `from`.
pub open spec fn digit_run(text: Seq<char>, from: int) -> int
    decreases text.len() - from,
{
    if 0 <= from < text.len() && is_digit(text[from]) {
        digit_run(text, from + 1)
    } else {
        from
    }
}

pub open spec fn ascii_lower(c: char) -> char {
    if 'A' <= c <= 'Z' {
        ((c as u32 + 32) as u8) as char
    } else {
        c
    }
}

/// Whether `text`, with its ASCII capitals lowered, reads as `word`.
pub open spec fn reads_as(text: Seq<char>, word: Seq<char>) -> bool {
    &&& text.len() == word.len()
    &&& forall|i: int| 0 <= i < text.len() ==> ascii_lower(#[trigger] text[i]) == word[i]
}

/// Whether `text[from..]` is a decimal number: digits with at most one point
/// among them and at least one digit in all, then optionally an exponent,
/// which is `e` or `E`, an optional sign and one or more digits.
pub open spec fn is_number_text(text: Seq<char>, from: int) -> bool {
    let point = digit_run(text, from);
    let pointed = point < text.len() && text[point] == '.';
    let mantissa_end = if pointed {
        digit_run(text, point + 1)
    } else {
        point
    };
    let digits = if pointed {
        mantissa_end - from - 1
    } else {
        mantissa_end - from
    };
    &&& 0 <= from
    &&& digits > 0
    &&& mantissa_end == text.len() || {
        let exponent = if mantissa_end + 1 < text.len() && is_sign(text[mantissa_end + 1]) {
            mantissa_end + 2
        } else {
            mantissa_end + 1
        };
        &&& mantissa_end < text.len()
        &&& text[mantissa_end] == 'e' || text[mantissa_end] == 'E'
        &&& digit_run(text, exponent) > exponent
        &&& digit_run(text, exponent) == text.len()
    }
}

/// Whether a text is written as a single-precision literal: an optional sign,
/// then a decimal number or, in any mix of cases, `inf`, `infinity` or `nan`.
pub open spec fn is_float_text(text: Seq<char>) -> bool {
    let from: int = if text.len() > 0 && is_sign(text[0]) {
        1
    } else {
        0
    };
    let rest = text.skip(from);
    &&& from < text.len()
    &&& is_number_text(text, from) || reads_as(rest, "inf"@) || reads_as(rest, "infinity"@)
        || reads_as(rest, "nan"@)
}

pub fn char_is_digit(c: char) -> (yes: bool)
    ensures
        yes == is_digit(c),
{
    '0' <= c && c <= '9'
}

pub fn char_is_sign(c: char) -> (yes: bool)
    ensures
        yes == is_sign(c),
{
    c == '+' || c == '-'
}

pub fn lower_char(c: char) -> (lowered: char)
    ensures
        lowered == ascii_lower(c),
{
    if 'A' <= c && c <= 'Z' {
        ((c as u32 + 32) as u8) as char
    } else {
        c
    }
}

/// Whether `text`, lowered, is exactly `word`.
pub fn text_reads_as(text: &[char], word: &str) -> (yes: bool)
    ensures
        yes == reads_as(text@, word@),
{
    let n = word.unicode_len();
    if text.len() != n {
        return false;
    }
    let mut i: usize = 0;
    while i < n
        invariant
            i <= n,
            n == word@.len(),
            n == text@.len(),
            forall|k: int| 0 <= k < i ==> ascii_lower(#[trigger] text@[k]) == word@[k],
        decreases n - i,
    {
        if lower_char(text[i]) != word.get_char(i) {
            return false;
        }
        i += 1;
    }
    true
}

/// Whether `text` is exactly `word`.
pub fn text_is(text: &[char], word: &str) -> (yes: bool)
    ensures
        yes == (text@ == word@),
{
    let n = word.unicode_len();
    if text.len() != n {
        return false;
    }
    let mut i: usize = 0;
    while i < n
        invariant
            i <= n,
            n == word@.len(),
            n == text@.len(),
            forall|k: int| 0 <= k < i ==> text@[k] == word@[k],
        decreases n - i,
    {
        if text[i] != word.get_char(i) {
            return false;
        }
        i += 1;
    }
    assert(text@ =~= word@);
    true
}

/// The end of the run of digits that starts at `from`.
pub fn scan_digits(text: &[char], from: usize) -> (end: usize)
    requires
        from <= text@.len(),
    ensures
        end == digit_run(text@, from as int),
        from <= end <= text@.len(),
{
    let mut i: usize = from;
    while i < text.len() && char_is_digit(text[i])
        invariant
            from <= i <= text@.len(),
            digit_run(text@, i as int) == digit_run(text@, from as int),
        decreases text@.len() - i,
    {
        i += 1;
    }
    i
}

proof fn lemma_digits_value_push(digits: Seq<char>, c: char)
    ensures
        digits_value(digits.push(c)) == digits_value(digits) * 10 + digit_value(c),
{
    assert(digits.push(c).drop_last() =~= digits);
}

proof fn lemma_digits_value_nonnegative(digits: Seq<char>)
    requires
        all_digits(digits),
    ensures
        digits_value(digits) >= 0,
    decreases digits.len(),
{
    if digits.len() > 0 {
        lemma_digits_value_nonnegative(digits.drop_last());
    }
}

/// Reads a 32-bit integer, if the text writes one.
pub fn parse_int(text: &[char]) -> (value: Option<i32>)
    ensures
        value == int_of(text@),
{
    let n = text.len();
    let signed = n > 0 && char_is_sign(text[0]);
    let negative = signed && text[0] == '-';
    let start: usize = if signed {
        1
    } else {
        0
    };
    if start == n {
        return None;
    }
    let ghost digits = if signed {
        text@.skip(1)
    } else {
        text@
    };
    let mut magnitude: i64 = 0;
    let mut beyond = false;
    let mut i: usize = start;
    while i < n
        invariant
            start <= i <= n,
            n == text@.len(),
            start == (if text@.len() > 0 && is_sign(text@[0]) {
                1int
            } else {
                0int
            }),
            digits == (if start == 1 {
                text@.skip(1)
            } else {
                text@
            }),
            all_digits(digits.take(i - start)),
            !beyond ==> magnitude == digits_value(digits.take(i - start)),
            beyond ==> digits_value(digits.take(i - start)) > 2147483648,
            0 <= magnitude <= 2147483648,
        decreases n - i,
    {
        let c = text[i];
        if !char_is_digit(c) {
            proof {
                assert(digits[i - start] == c);
                assert(!is_digit(digits[i - start]));
            }
            return None;
        }
        proof {
            let before = digits.take(i - start);
            assert(digits.take(i + 1 - start) =~= before.push(c));
            lemma_digits_value_push(before, c);
            lemma_digits_value_nonnegative(before);
        }
        if !beyond {
            let next: i64 = magnitude * 10 + (c as u32 as i64 - 48);
            if next > 2147483648 {
                beyond = true;
            } else {
                magnitude = next;
            }
        }
        i += 1;
    }
    proof {
        assert(digits.take(n - start) =~= digits);
    }
    if beyond {
        None
    } else if negative {
        Some((-magnitude) as i32)
    } else if magnitude == 2147483648 {
        None
    } else {
        Some(magnitude as i32)
    }
}

/// Whether the text is written as a single-precision literal.
pub fn is_float(text: &[char]) -> (yes: bool)
    ensures
        yes == is_float_text(text@),
{
    let n = text.len();
    let from: usize = if n > 0 && char_is_sign(text[0]) {
        1
    } else {
        0
    };
    if from >= n {
        return false;
    }
    let rest = &text[from..n];
    assert(rest@ == text@.skip(from as int));
    if text_reads_as(rest, "inf") || text_reads_as(rest, "infinity") || text_reads_as(rest, "nan") {
        return true;
    }
    let point = scan_digits(text, from);
    let pointed = point < n && text[point] == '.';
    let mantissa_end = if pointed {
        scan_digits(text, point + 1)
    } else {
        point
    };
    let digits = if pointed {
        mantissa_end - from - 1
    } else {
        mantissa_end - from
    };
    if digits == 0 {
        return false;
    }
    if mantissa_end == n {
        return true;
    }
    if text[mantissa_end] != 'e' && text[mantissa_end] != 'E' {
        return false;
    }
    let exponent = if mantissa_end + 1 < n && char_is_sign(text[mantissa_end + 1]) {
        mantissa_end + 2
    } else {
        mantissa_end + 1
    };
    let end = scan_digits(text, exponent);
    end > exponent && end == n
}

} // verus!
