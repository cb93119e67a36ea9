//! Real numbers as a person types them: an optional sign, then digits with
//! an optional point among them, and an optional exponent.

use crate::chars::is_ascii_digit;
use vstd::prelude::*;

verus! {

/// A plus or a minus.
pub open spec fn is_sign(c: char) -> bool {
    c == '+' || c == '-'
}

/// Whether every character of `s` from index `from` up to `to` is a digit.
pub open spec fn digits_in(s: Seq<char>, from: int, to: int) -> bool {
    forall|i: int| from <= i < to ==> is_ascii_digit(#[trigger] s[i])
}

/// Digits with at most one point before, among or after them, and at least
/// one digit.
pub open spec fn mantissa_in(s: Seq<char>, from: int, to: int) -> bool {
    ||| from < to && digits_in(s, from, to)
    ||| exists|point: int|
        {
            &&& from <= point < to
            &&& #[trigger] s[point] == '.'
            &&& digits_in(s, from, point)
            &&& digits_in(s, point + 1, to)
            &&& to - from >= 2
        }
}

/// What follows the exponent's letter: an optional sign and at least one
/// digit.
pub open spec fn exponent_in(s: Seq<char>, from: int, to: int) -> bool {
    let digits = if from < to && is_sign(s[from]) {
        from + 1
    } else {
        from
    };
    digits < to && digits_in(s, digits, to)
}

/// A mantissa, alone or followed by `e` or `E` and an exponent.
pub open spec fn decimal_in(s: Seq<char>, from: int, to: int) -> bool {
    ||| mantissa_in(s, from, to)
    ||| exists|letter: int|
        {
            &&& from <= letter < to
            &&& (#[trigger] s[letter] == 'e' || s[letter] == 'E')
            &&& mantissa_in(s, from, letter)
            &&& exponent_in(s, letter + 1, to)
        }
}

/// Where the number starts in `s`: after its sign, if it has one.
pub open spec fn after_sign(s: Seq<char>) -> int {
    if s.len() > 0 && is_sign(s[0]) {
        1
    } else {
        0
    }
}

/// Whether `s` is the text of a real number: an optional sign, then a
/// decimal.
pub open spec fn is_number_text(s: Seq<char>) -> bool {
    decimal_in(s, after_sign(s), s.len() as int)
}

/// Whether `bytes` holds the characters of `s`, all of them ASCII.
spec fn holds_ascii(bytes: Seq<u8>, s: Seq<char>) -> bool {
    &&& bytes.len() == s.len()
    &&& forall|i: int|
        #![trigger bytes[i]]
        #![trigger s[i]]
        0 <= i < s.len() ==> s[i] as int <= 0x7f && bytes[i] as int == s[i] as int
}

/// A number holds ASCII characters only.
pub proof fn lemma_number_text_is_ascii(s: Seq<char>)
    requires
        is_number_text(s),
    ensures
        forall|i: int| 0 <= i < s.len() ==> '\0' <= #[trigger] s[i] <= '\u{7f}',
{
    let from = after_sign(s);
    assert forall|i: int| 0 <= i < s.len() implies '\0' <= #[trigger] s[i] <= '\u{7f}' by {
        if i >= from {
            lemma_decimal_chars(s, from, s.len() as int, i);
        }
    }
}

/// Each character of a decimal is a digit, a sign, a point or the
/// exponent's letter.
proof fn lemma_decimal_chars(s: Seq<char>, from: int, to: int, i: int)
    requires
        decimal_in(s, from, to),
        from <= i < to,
    ensures
        is_ascii_digit(s[i]) || is_sign(s[i]) || s[i] == '.' || s[i] == 'e' || s[i] == 'E',
{
    if mantissa_in(s, from, to) {
        lemma_mantissa_chars(s, from, to, i);
    } else {
        let letter = choose|letter: int|
            {
                &&& from <= letter < to
                &&& (#[trigger] s[letter] == 'e' || s[letter] == 'E')
                &&& mantissa_in(s, from, letter)
                &&& exponent_in(s, letter + 1, to)
            };
        if i < letter {
            lemma_mantissa_chars(s, from, letter, i);
        }
    }
}

/// Each character of a mantissa is a digit or a point.
proof fn lemma_mantissa_chars(s: Seq<char>, from: int, to: int, i: int)
    requires
        mantissa_in(s, from, to),
        from <= i < to,
    ensures
        is_ascii_digit(s[i]) || s[i] == '.',
{
}

/// The end of the run of digits that starts at `from`.
fn skip_digits(bytes: &[u8], from: usize, Ghost(s): Ghost<Seq<char>>) -> (end: usize)
    requires
        holds_ascii(bytes@, s),
        from <= bytes.len(),
    ensures
        from <= end <= bytes.len(),
        digits_in(s, from as int, end as int),
        end < bytes.len() ==> !is_ascii_digit(s[end as int]),
{
    let mut end: usize = from;
    while end < bytes.len() && bytes[end] >= 48 && bytes[end] <= 57
        invariant
            holds_ascii(bytes@, s),
            from <= end <= bytes.len(),
            digits_in(s, from as int, end as int),
        decreases bytes.len() - end,
    {
        end = end + 1;
    }
    end
}

/// Whether the bytes from `from` on are a decimal.
fn is_decimal(bytes: &[u8], from: usize, Ghost(s): Ghost<Seq<char>>) -> (r: bool)
    requires
        holds_ascii(bytes@, s),
        from <= bytes.len(),
    ensures
        r == decimal_in(s, from as int, s.len() as int),
{
    let length: usize = bytes.len();
    let whole_end: usize = skip_digits(bytes, from, Ghost(s));
    let has_point: bool = whole_end < length && bytes[whole_end] == 46;
    let mantissa_end: usize = if has_point {
        skip_digits(bytes, whole_end + 1, Ghost(s))
    } else {
        whole_end
    };
    let digits: usize = if has_point {
        mantissa_end - from - 1
    } else {
        mantissa_end - from
    };
    proof {
        lemma_mantissa_ends(
            s,
            from as int,
            whole_end as int,
            has_point,
            mantissa_end as int,
        );
    }
    if digits == 0 {
        return false;
    }
    if mantissa_end == length {
        return true;
    }
    if bytes[mantissa_end] != 101 && bytes[mantissa_end] != 69 {
        return false;
    }
    let after_letter: usize = mantissa_end + 1;
    let exponent_from: usize = if after_letter < length && (bytes[after_letter] == 43
        || bytes[after_letter] == 45) {
        after_letter + 1
    } else {
        after_letter
    };
    let exponent_end: usize = skip_digits(bytes, exponent_from, Ghost(s));
    exponent_from < exponent_end && exponent_end == length
}

/// What a scan of the mantissa tells of every decimal that starts at
/// `from`. The scan ran over digits to `whole_end`, found a point there or
/// did not, and ran over further digits to `mantissa_end`, where no digit
/// stands. Then a mantissa that starts at `from` and is followed by the
/// exponent's letter or by nothing ends at `mantissa_end`, and what lies
/// between the two is a mantissa exactly if the scan met a digit.
proof fn lemma_mantissa_ends(
    s: Seq<char>,
    from: int,
    whole_end: int,
    has_point: bool,
    mantissa_end: int,
)
    requires
        0 <= from <= whole_end <= mantissa_end <= s.len(),
        digits_in(s, from, whole_end),
        whole_end < s.len() ==> !is_ascii_digit(s[whole_end]),
        has_point == (whole_end < s.len() && s[whole_end] == '.'),
        has_point ==> whole_end < mantissa_end && digits_in(s, whole_end + 1, mantissa_end),
        !has_point ==> mantissa_end == whole_end,
        mantissa_end < s.len() ==> !is_ascii_digit(s[mantissa_end]),
    ensures
        forall|to: int|
            from <= to <= s.len() && #[trigger] mantissa_in(s, from, to) && (to == s.len()
                || s[to] == 'e' || s[to] == 'E') ==> to == mantissa_end,
        mantissa_in(s, from, mantissa_end) == (if has_point {
            mantissa_end - from >= 2
        } else {
            mantissa_end > from
        }),
{
    assert forall|to: int|
        from <= to <= s.len() && #[trigger] mantissa_in(s, from, to) && (to == s.len() || s[to]
            == 'e' || s[to] == 'E') implies to == mantissa_end by {
        if from < to && digits_in(s, from, to) {
            if to > whole_end {
                assert(is_ascii_digit(s[whole_end]));
            }
            if to < whole_end {
                assert(is_ascii_digit(s[to]));
            }
        } else {
            let point = choose|point: int|
                {
                    &&& from <= point < to
                    &&& #[trigger] s[point] == '.'
                    &&& digits_in(s, from, point)
                    &&& digits_in(s, point + 1, to)
                    &&& to - from >= 2
                };
            if point > whole_end {
                assert(is_ascii_digit(s[whole_end]));
            }
            if point < whole_end {
                assert(is_ascii_digit(s[point]));
            }
            if to > mantissa_end {
                assert(is_ascii_digit(s[mantissa_end]));
            }
            if to < mantissa_end {
                assert(is_ascii_digit(s[to]));
            }
        }
    }
    if has_point {
        if mantissa_end - from >= 2 {
            assert(s[whole_end] == '.');
        }
        if mantissa_in(s, from, mantissa_end) {
            if digits_in(s, from, mantissa_end) {
                assert(is_ascii_digit(s[whole_end]));
            }
        }
    } else {
        if mantissa_in(s, from, mantissa_end) && !(from < mantissa_end && digits_in(
            s,
            from,
            mantissa_end,
        )) {
            let point = choose|point: int|
                {
                    &&& from <= point < mantissa_end
                    &&& #[trigger] s[point] == '.'
                    &&& digits_in(s, from, point)
                    &&& digits_in(s, point + 1, mantissa_end)
                    &&& mantissa_end - from >= 2
                };
            assert(is_ascii_digit(s[point]));
        }
    }
}

/// Whether `text` is the text of a real number.
pub fn is_number(text: &str) -> (r: bool)
    ensures
        r == is_number_text(text@),
{
    if !text.is_ascii() {
        proof {
            if is_number_text(text@) {
                lemma_number_text_is_ascii(text@);
            }
        }
        return false;
    }
    let bytes = text.as_bytes();
    proof {
        vstd::string::is_ascii_spec_bytes(text);
        assert(holds_ascii(bytes@, text@));
    }
    let from: usize = if bytes.len() > 0 && (bytes[0] == 43 || bytes[0] == 45) {
        1
    } else {
        0
    };
    is_decimal(bytes, from, Ghost(text@))
}

} // verus!
