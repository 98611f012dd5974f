//! Reading numeric literals out of configuration expressions.
//!
//! Sanitizer and validator options of the numeric families carry decimal
//! literals; they are interpreted at the width of the wrapper's inner type,
//! so the same text can be legal for one width and out of range for
//! another. Float literals are only checked for shape and kept as text:
//! this crate never computes with float values.

use vstd::prelude::*;
use crate::models::{Error, ErrorKind, FloatLiteral, IntLiteral, IntegerInnerType};
use crate::span::Span;

verus! {

/// Is `c` a decimal digit?
pub open spec fn is_digit(c: char) -> bool {
    48 <= c as u32 <= 57
}

/// Numeric value of a digit.
pub open spec fn digit_val(c: char) -> int {
    c as u32 - 48
}

/// Every character of `s` is a decimal digit.
pub open spec fn all_digits(s: Seq<char>) -> bool {
    forall|i: int| 0 <= i < s.len() ==> is_digit(s[i])
}

/// The number a digit string denotes, most significant digit first.
pub open spec fn digits_value(s: Seq<char>) -> int
    decreases s.len(),
{
    if s.len() == 0 {
        0
    } else {
        digits_value(s.drop_last()) * 10 + digit_val(s.last())
    }
}

/// What a decimal integer literal denotes: an optional leading minus sign,
/// then one or more digits. `None` for any other text.
pub open spec fn spec_parse_int(s: Seq<char>) -> Option<(bool, int)> {
    if s.len() >= 2 && s[0] == '-' && all_digits(s.skip(1)) {
        Some((true, digits_value(s.skip(1))))
    } else if s.len() >= 1 && all_digits(s) {
        Some((false, digits_value(s)))
    } else {
        None
    }
}

/// The signed value a parse result denotes.
pub open spec fn parsed_value(p: (bool, int)) -> int {
    if p.0 {
        -p.1
    } else {
        p.1
    }
}

/// The values representable at a given integer width.
pub open spec fn int_fits(v: int, w: IntegerInnerType) -> bool {
    match w {
        IntegerInnerType::U8 => 0 <= v <= u8::MAX,
        IntegerInnerType::U16 => 0 <= v <= u16::MAX,
        IntegerInnerType::U32 => 0 <= v <= u32::MAX,
        IntegerInnerType::U64 => 0 <= v <= u64::MAX,
        IntegerInnerType::U128 => 0 <= v <= u128::MAX,
        IntegerInnerType::Usize => 0 <= v <= usize::MAX,
        IntegerInnerType::I8 => i8::MIN <= v <= i8::MAX,
        IntegerInnerType::I16 => i16::MIN <= v <= i16::MAX,
        IntegerInnerType::I32 => i32::MIN <= v <= i32::MAX,
        IntegerInnerType::I64 => i64::MIN <= v <= i64::MAX,
        IntegerInnerType::I128 => i128::MIN <= v <= i128::MAX,
        IntegerInnerType::Isize => isize::MIN <= v <= isize::MAX,
    }
}

/// A digit string never denotes a negative number.
pub proof fn lemma_digits_value_nonneg(s: Seq<char>)
    requires
        all_digits(s),
    ensures
        digits_value(s) >= 0,
    decreases s.len(),
{
    if s.len() > 0 {
        assert(all_digits(s.drop_last()));
        lemma_digits_value_nonneg(s.drop_last());
    }
}

/// Extending a digit string on the right never shrinks its value.
pub proof fn lemma_digits_value_prefix_le(s: Seq<char>, i: int)
    requires
        all_digits(s),
        0 <= i <= s.len(),
    ensures
        digits_value(s.take(i)) <= digits_value(s),
    decreases s.len() - i,
{
    if i < s.len() {
        let t = s.take(i + 1);
        assert(t.drop_last() =~= s.take(i));
        assert(all_digits(s.take(i)));
        lemma_digits_value_nonneg(s.take(i));
        assert(digits_value(t) == digits_value(s.take(i)) * 10 + digit_val(t.last()));
        lemma_digits_value_prefix_le(s, i + 1);
        assert(s.take(s.len() as int) =~= s);
    } else {
        assert(s.take(i) =~= s);
    }
}

/// Reads the digits of `s` from position `from` to the end, accumulating
/// their value, or reports that the value exceeds `u128`.
fn scan_digits(s: &str, from: usize, len: usize) -> (r: Option<u128>)
    requires
        s@.len() == len,
        from <= len,
        all_digits(s@.skip(from as int)),
    ensures
        r matches Some(v) ==> v == digits_value(s@.skip(from as int)),
        r is None ==> digits_value(s@.skip(from as int)) > u128::MAX,
{
    let mut i: usize = from;
    let mut acc: u128 = 0;
    let ghost d = s@.skip(from as int);
    while i < len
        invariant
            from <= i <= len,
            s@.len() == len,
            all_digits(d),
            d == s@.skip(from as int),
            acc == digits_value(d.take(i - from)),
        decreases len - i,
    {
        let c = s.get_char(i);
        proof {
            assert(d[i - from] == s@[i as int]);
            assert(is_digit(c));
        }
        let dv: u32 = (c as u32) - 48;
        if acc > (u128::MAX - (dv as u128)) / 10 {
            proof {
                let t = d.take(i - from + 1);
                assert(t.drop_last() =~= d.take(i - from));
                assert(t.last() == d[i - from]);
                assert(digits_value(t) == acc * 10 + dv);
                assert(acc * 10 + dv > u128::MAX) by (nonlinear_arith)
                    requires
                        acc > (u128::MAX - (dv as u128)) / 10,
                        dv <= 9,
                ;
                lemma_digits_value_prefix_le(d, i - from + 1);
            }
            return None;
        }
        proof {
            assert(acc * 10 + dv <= u128::MAX) by (nonlinear_arith)
                requires
                    acc <= (u128::MAX - (dv as u128)) / 10,
                    dv <= 9,
            ;
            let t = d.take(i - from + 1);
            assert(t.drop_last() =~= d.take(i - from));
            assert(t.last() == d[i - from]);
        }
        acc = acc * 10 + (dv as u128);
        i = i + 1;
    }
    proof {
        assert(d.take(len - from) =~= d);
    }
    Some(acc)
}

/// Is every character of `s`, from position `from` on, a decimal digit?
fn check_all_digits(s: &str, from: usize, len: usize) -> (r: bool)
    requires
        s@.len() == len,
        from <= len,
    ensures
        r == all_digits(s@.skip(from as int)),
{
    let mut i: usize = from;
    while i < len
        invariant
            from <= i <= len,
            s@.len() == len,
            forall|j: int| from <= j < i ==> is_digit(s@[j]),
        decreases len - i,
    {
        let c = s.get_char(i);
        let u = c as u32;
        if u < 48 || u > 57 {
            proof {
                assert(s@.skip(from as int)[i - from] == s@[i as int]);
            }
            return false;
        }
        i = i + 1;
    }
    proof {
        assert forall|j: int| 0 <= j < s@.skip(from as int).len() implies is_digit(
            s@.skip(from as int)[j],
        ) by {
            assert(s@.skip(from as int)[j] == s@[j + from]);
        }
    }
    true
}

/// What reading an integer literal at a given width yields: the literal,
/// or the positioned error naming the text.
pub open spec fn spec_int_lit_result(text: String, span: Span, width: IntegerInnerType) -> Result<
    IntLiteral,
    Error,
> {
    match spec_parse_int(text@) {
        Option::None => Result::Err(Error { span, kind: ErrorKind::MalformedLiteral(text) }),
        Option::Some(p) => {
            if int_fits(parsed_value(p), width) {
                Result::Ok(IntLiteral { text, neg: p.0, mag: p.1 as u128 })
            } else {
                Result::Err(Error { span, kind: ErrorKind::LiteralOutOfRange(text) })
            }
        },
    }
}

/// Reads a decimal integer literal and checks it against the width of the
/// wrapper's inner type. Fails with `MalformedLiteral` on any text that is
/// not an optional minus sign followed by digits, and with
/// `LiteralOutOfRange` on a well-formed literal the width cannot hold.
pub fn parse_int_literal(text: &String, span: Span, width: IntegerInnerType) -> (r: Result<
    IntLiteral,
    Error,
>)
    ensures
        r == spec_int_lit_result(*text, span, width),
{
    let s = text.as_str();
    let len = s.unicode_len();
    let malformed = Error {
        span,
        kind: ErrorKind::MalformedLiteral(text.clone()),
    };
    if len == 0 {
        return Err(malformed);
    }
    let neg = s.get_char(0) == '-';
    let start: usize = if neg {
        1
    } else {
        0
    };
    if neg && len == 1 {
        return Err(malformed);
    }
    if !check_all_digits(s, start, len) {
        proof {
            if !neg {
                assert(s@.skip(0) =~= s@);
            }
        }
        return Err(malformed);
    }
    proof {
        if !neg {
            assert(s@.skip(0) =~= s@);
        }
    }
    let out_of_range = Error {
        span,
        kind: ErrorKind::LiteralOutOfRange(text.clone()),
    };
    let mag = match scan_digits(s, start, len) {
        Some(v) => v,
        None => {
            return Err(out_of_range);
        },
    };
    let fits: bool = if neg {
        match width {
            IntegerInnerType::U8 => mag == 0,
            IntegerInnerType::U16 => mag == 0,
            IntegerInnerType::U32 => mag == 0,
            IntegerInnerType::U64 => mag == 0,
            IntegerInnerType::U128 => mag == 0,
            IntegerInnerType::Usize => mag == 0,
            IntegerInnerType::I8 => mag <= 128,
            IntegerInnerType::I16 => mag <= 32768,
            IntegerInnerType::I32 => mag <= 2147483648,
            IntegerInnerType::I64 => mag <= 9223372036854775808,
            IntegerInnerType::I128 => mag <= 170141183460469231731687303715884105728,
            IntegerInnerType::Isize => mag <= (isize::MAX as u128) + 1,
        }
    } else {
        match width {
            IntegerInnerType::U8 => mag <= u8::MAX as u128,
            IntegerInnerType::U16 => mag <= u16::MAX as u128,
            IntegerInnerType::U32 => mag <= u32::MAX as u128,
            IntegerInnerType::U64 => mag <= u64::MAX as u128,
            IntegerInnerType::U128 => true,
            IntegerInnerType::Usize => mag <= usize::MAX as u128,
            IntegerInnerType::I8 => mag <= i8::MAX as u128,
            IntegerInnerType::I16 => mag <= i16::MAX as u128,
            IntegerInnerType::I32 => mag <= i32::MAX as u128,
            IntegerInnerType::I64 => mag <= i64::MAX as u128,
            IntegerInnerType::I128 => mag <= i128::MAX as u128,
            IntegerInnerType::Isize => mag <= isize::MAX as u128,
        }
    };
    if !fits {
        return Err(out_of_range);
    }
    Ok(IntLiteral { text: text.clone(), neg, mag })
}

/// What reading an unsigned length bound yields (for `min_len` and
/// `max_len`): the bound, or the positioned error naming the text.
pub open spec fn spec_len_result(text: String, span: Span) -> Result<u64, Error> {
    match spec_parse_int(text@) {
        Option::None => Result::Err(Error { span, kind: ErrorKind::MalformedLiteral(text) }),
        Option::Some(p) => {
            if p.0 {
                Result::Err(Error { span, kind: ErrorKind::MalformedLiteral(text) })
            } else if p.1 <= u64::MAX {
                Result::Ok(p.1 as u64)
            } else {
                Result::Err(Error { span, kind: ErrorKind::LiteralOutOfRange(text) })
            }
        },
    }
}

/// Reads a decimal literal as an unsigned length bound (for `min_len` and
/// `max_len`).
pub fn parse_len_literal(text: &String, span: Span) -> (r: Result<u64, Error>)
    ensures
        r == spec_len_result(*text, span),
{
    let s = text.as_str();
    let len = s.unicode_len();
    let malformed = Error {
        span,
        kind: ErrorKind::MalformedLiteral(text.clone()),
    };
    if len == 0 {
        return Err(malformed);
    }
    if s.get_char(0) == '-' {
        // A length bound cannot be negative, whatever follows the sign.
        proof {
            assert(!is_digit(s@[0]));
        }
        return Err(malformed);
    }
    if !check_all_digits(s, 0, len) {
        proof {
            assert(s@.skip(0) =~= s@);
        }
        return Err(malformed);
    }
    proof {
        assert(s@.skip(0) =~= s@);
    }
    let out_of_range = Error {
        span,
        kind: ErrorKind::LiteralOutOfRange(text.clone()),
    };
    match scan_digits(s, 0, len) {
        Some(v) => {
            if v <= u64::MAX as u128 {
                Ok(v as u64)
            } else {
                Err(out_of_range)
            }
        },
        None => Err(out_of_range),
    }
}

/// The shape of a decimal float literal: an optional minus sign, one or
/// more digits, then optionally a dot followed by one or more digits.
pub open spec fn is_float_lit(s: Seq<char>) -> bool {
    if s.len() >= 1 && s[0] == '-' {
        is_float_body(s.skip(1))
    } else {
        is_float_body(s)
    }
}

/// Digits, optionally split once by a dot with digits on both sides.
pub open spec fn is_float_body(s: Seq<char>) -> bool {
    ||| (s.len() >= 1 && all_digits(s))
    ||| (exists|i: int|
        1 <= i && i + 2 <= s.len() && s[i] == '.' && all_digits(s.take(i)) && all_digits(
            s.skip(i + 1),
        ))
}

/// The position of the first character from `from` on that is not a
/// decimal digit, or `len` if all are.
fn first_non_digit(s: &str, from: usize, len: usize) -> (j: usize)
    requires
        s@.len() == len,
        from <= len,
    ensures
        from <= j <= len,
        forall|k: int| from <= k < j ==> is_digit(s@[k]),
        j < len ==> !is_digit(s@[j as int]),
{
    let mut i: usize = from;
    while i < len
        invariant
            from <= i <= len,
            s@.len() == len,
            forall|k: int| from <= k < i ==> is_digit(s@[k]),
        decreases len - i,
    {
        let c = s.get_char(i);
        let u = c as u32;
        if u < 48 || u > 57 {
            return i;
        }
        i = i + 1;
    }
    i
}

/// Checks a float literal's shape from position `from` on.
fn check_float_body(s: &str, from: usize, len: usize) -> (r: bool)
    requires
        s@.len() == len,
        from <= len,
    ensures
        r == is_float_body(s@.skip(from as int)),
{
    let ghost b = s@.skip(from as int);
    if from == len {
        return false;
    }
    let i = first_non_digit(s, from, len);
    proof {
        assert forall|j: int| 0 <= j < i - from implies is_digit(b[j]) by {
            assert(b[j] == s@[j + from]);
        }
    }
    if i == len {
        // All digits; need at least one.
        proof {
            assert forall|j: int| 0 <= j < b.len() implies is_digit(b[j]) by {
                assert(b[j] == s@[j + from]);
            }
            assert(i > from);
        }
        return true;
    }
    let c = s.get_char(i);
    proof {
        assert(b[i - from] == s@[i as int]);
        assert(!is_digit(s@[i as int]));
    }
    if c != '.' || i == from || i + 1 == len {
        proof {
            assert(!all_digits(b));
            if is_float_body(b) {
                let w = choose|w: int|
                    1 <= w && w + 2 <= b.len() && b[w] == '.' && all_digits(b.take(w))
                        && all_digits(b.skip(w + 1));
                // The first non-digit must be the dot of any valid split.
                if w < i - from {
                    assert(is_digit(b.take(w)[w]) || b[w] == '.');
                    assert(b[w] == '.');
                    assert(is_digit(b[w]));
                } else if w > i - from {
                    assert(is_digit(b.take(w)[i - from]));
                    assert(b.take(w)[i - from] == b[i - from]);
                }
                assert(w == i - from);
                assert(false);
            }
        }
        return false;
    }
    let r = check_all_digits(s, i + 1, len);
    proof {
        let w: int = i - from;
        assert(b.skip(w + 1) =~= s@.skip(i + 1));
        if r {
            assert(all_digits(b.take(w))) by {
                assert forall|j: int| 0 <= j < w implies is_digit(b.take(w)[j]) by {
                    assert(b.take(w)[j] == s@[j + from]);
                }
            }
            assert(1 <= w && w + 2 <= b.len() && b[w] == '.');
        } else {
            if is_float_body(b) {
                assert(!all_digits(b));
                let w2 = choose|w2: int|
                    1 <= w2 && w2 + 2 <= b.len() && b[w2] == '.' && all_digits(b.take(w2))
                        && all_digits(b.skip(w2 + 1));
                if w2 < w {
                    assert(is_digit(s@[w2 + from]));
                    assert(b[w2] == s@[w2 + from]);
                    assert(is_digit(b[w2]));
                } else if w2 > w {
                    assert(is_digit(b.take(w2)[w]));
                    assert(b.take(w2)[w] == b[w]);
                }
                assert(w2 == w);
                assert(false);
            }
        }
    }
    r
}

/// What reading a float literal yields: the literal kept as text, or the
/// positioned error naming the text.
pub open spec fn spec_float_lit_result(text: String, span: Span) -> Result<FloatLiteral, Error> {
    if is_float_lit(text@) {
        Result::Ok(FloatLiteral { text })
    } else {
        Result::Err(Error { span, kind: ErrorKind::MalformedLiteral(text) })
    }
}

/// Checks that `text` has the shape of a decimal float literal; the text
/// itself is what the generator splices into the constructor.
pub fn parse_float_literal(text: &String, span: Span) -> (r: Result<FloatLiteral, Error>)
    ensures
        r == spec_float_lit_result(*text, span),
{
    let s = text.as_str();
    let len = s.unicode_len();
    let ok = if len >= 1 && s.get_char(0) == '-' {
        check_float_body(s, 1, len)
    } else {
        proof {
            assert(s@.skip(0) =~= s@);
        }
        check_float_body(s, 0, len)
    };
    if ok {
        Ok(FloatLiteral { text: text.clone() })
    } else {
        Err(Error { span, kind: ErrorKind::MalformedLiteral(text.clone()) })
    }
}

} // verus!
