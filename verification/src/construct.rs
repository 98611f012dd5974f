//! Reference semantics of the generated constructors.
//!
//! The generator emits the checked constructor as text; these functions
//! are its semantics over the built-in rules, stated and proved once for
//! every guard: the produced value is the input with every sanitizer
//! applied in declaration order, and it satisfies every validator; when a
//! validator rejects, the error names the first one that did, and no value
//! is produced. Custom (`with = ...`) rules carry user-authored code this
//! crate never executes, so the reference semantics is stated for guards
//! whose rules are all built-in.

use vstd::prelude::*;
use crate::models::{Guard, Sanitizer, Validator};

verus! {

/// The whitespace the trim sanitizer removes.
pub open spec fn is_space(c: char) -> bool {
    c == ' ' || c == '\t' || c == '\n' || c == '\r'
}

/// Leading whitespace removed.
pub open spec fn trim_front(s: Seq<char>) -> Seq<char>
    decreases s.len(),
{
    if s.len() > 0 && is_space(s[0]) {
        trim_front(s.drop_first())
    } else {
        s
    }
}

/// Trailing whitespace removed.
pub open spec fn trim_back(s: Seq<char>) -> Seq<char>
    decreases s.len(),
{
    if s.len() > 0 && is_space(s.last()) {
        trim_back(s.drop_last())
    } else {
        s
    }
}

/// Whitespace removed from both ends.
pub open spec fn spec_trim(s: Seq<char>) -> Seq<char> {
    trim_back(trim_front(s))
}

/// An upper-case ASCII letter mapped to its lower-case form.
pub open spec fn lower_char(c: char) -> char {
    if 65 <= c as u32 <= 90 {
        ((c as u8) + 32) as char
    } else {
        c
    }
}

/// A lower-case ASCII letter mapped to its upper-case form.
pub open spec fn upper_char(c: char) -> char {
    if 97 <= c as u32 <= 122 {
        ((c as u8) - 32) as char
    } else {
        c
    }
}

/// What one built-in string sanitizer does. A custom sanitizer is outside
/// the reference semantics and leaves the value untouched here; the
/// constructors below require a guard without one.
pub open spec fn apply_san(s: Sanitizer, v: Seq<char>) -> Seq<char> {
    match s {
        Sanitizer::Trim => spec_trim(v),
        Sanitizer::Lowercase => v.map_values(|c: char| lower_char(c)),
        Sanitizer::Uppercase => v.map_values(|c: char| upper_char(c)),
        Sanitizer::Custom(_) => v,
    }
}

/// All sanitizers applied in declaration order.
pub open spec fn apply_sans(sans: Seq<Sanitizer>, v: Seq<char>) -> Seq<char>
    decreases sans.len(),
{
    if sans.len() == 0 {
        v
    } else {
        apply_san(sans.last(), apply_sans(sans.drop_last(), v))
    }
}

/// Does a sanitized string satisfy one built-in string validator?
pub open spec fn str_val_passes(v: Validator, s: Seq<char>) -> bool {
    match v {
        Validator::MinLen(b) => s.len() >= b,
        Validator::MaxLen(b) => s.len() <= b,
        Validator::NotEmpty => s.len() > 0,
        _ => true,
    }
}

/// A guard whose rules the reference semantics covers: built-in string
/// sanitizers and validators only.
pub open spec fn string_guard_interpretable(g: Guard) -> bool {
    &&& forall|i: int| 0 <= i < g.sanitizers@.len() ==> !(g.sanitizers@[i] is Custom)
    &&& forall|i: int|
        0 <= i < g.validators@.len() ==> (g.validators@[i] is MinLen || g.validators@[i] is MaxLen
            || g.validators@[i] is NotEmpty)
}

/// The failure reasons of a string wrapper's checked constructor, one per
/// built-in validator kind.
#[derive(Clone, Copy, PartialEq, Eq, Structural, Debug)]
pub enum StringViolation {
    TooShort,
    TooLong,
    Empty,
}

/// The failure reason a rejecting string validator names.
pub open spec fn str_violation_of(v: Validator) -> StringViolation {
    match v {
        Validator::MinLen(_) => StringViolation::TooShort,
        Validator::MaxLen(_) => StringViolation::TooLong,
        _ => StringViolation::Empty,
    }
}

/// Relies on `String::push`: appends exactly the one character.
#[verifier::external_body]
fn push_char(s: &mut String, c: char)
    ensures
        final(s)@ == old(s)@.push(c),
{
    s.push(c);
}

/// Is `c` one of the whitespace characters the trim sanitizer removes?
fn is_space_char(c: char) -> (r: bool)
    ensures
        r == is_space(c),
{
    c == ' ' || c == '\t' || c == '\n' || c == '\r'
}

/// The trim sanitizer: whitespace removed from both ends.
fn trim_string(s: &String) -> (r: String)
    ensures
        r@ == spec_trim(s@),
{
    let st = s.as_str();
    let len = st.unicode_len();
    let mut lo: usize = 0;
    proof {
        assert(s@.skip(0) =~= s@);
    }
    while lo < len && is_space_char(st.get_char(lo))
        invariant
            0 <= lo <= len,
            st@.len() == len,
            st@ == s@,
            trim_front(s@) == trim_front(s@.skip(lo as int)),
        decreases len - lo,
    {
        proof {
            assert(s@.skip(lo as int).drop_first() =~= s@.skip(lo + 1));
        }
        lo = lo + 1;
    }
    proof {
        assert(trim_front(s@) == s@.skip(lo as int));
    }
    let mut hi: usize = len;
    while hi > lo && is_space_char(st.get_char(hi - 1))
        invariant
            lo <= hi <= len,
            st@.len() == len,
            st@ == s@,
            trim_front(s@) == s@.skip(lo as int),
            trim_back(s@.skip(lo as int)) == trim_back(s@.subrange(lo as int, hi as int)),
        decreases hi,
    {
        proof {
            assert(s@.subrange(lo as int, hi as int).drop_last() =~= s@.subrange(
                lo as int,
                hi - 1,
            ));
            assert(s@.subrange(lo as int, hi as int).last() == s@[hi - 1]);
        }
        hi = hi - 1;
    }
    proof {
        assert(trim_back(s@.subrange(lo as int, hi as int)) == s@.subrange(lo as int, hi as int));
    }
    let mut out = String::new();
    let mut i: usize = lo;
    while i < hi
        invariant
            lo <= i <= hi <= len,
            st@.len() == len,
            st@ == s@,
            out@ == s@.subrange(lo as int, i as int),
        decreases hi - i,
    {
        push_char(&mut out, st.get_char(i));
        proof {
            assert(s@.subrange(lo as int, i + 1) =~= s@.subrange(lo as int, i as int).push(
                s@[i as int],
            ));
        }
        i = i + 1;
    }
    proof {
        assert(out@ == spec_trim(s@));
    }
    out
}

/// One character through the lower-case map.
fn lower_char_of(c: char) -> (r: char)
    ensures
        r == lower_char(c),
{
    let u = c as u32;
    if 65 <= u && u <= 90 {
        ((c as u8) + 32) as char
    } else {
        c
    }
}

/// One character through the upper-case map.
fn upper_char_of(c: char) -> (r: char)
    ensures
        r == upper_char(c),
{
    let u = c as u32;
    if 97 <= u && u <= 122 {
        ((c as u8) - 32) as char
    } else {
        c
    }
}

/// The lowercase sanitizer, over ASCII letters.
fn lower_string(s: &String) -> (r: String)
    ensures
        r@ == s@.map_values(|c: char| lower_char(c)),
{
    let st = s.as_str();
    let len = st.unicode_len();
    let mut out = String::new();
    let mut i: usize = 0;
    while i < len
        invariant
            0 <= i <= len,
            st@.len() == len,
            st@ == s@,
            out@ == s@.take(i as int).map_values(|c: char| lower_char(c)),
        decreases len - i,
    {
        push_char(&mut out, lower_char_of(st.get_char(i)));
        proof {
            assert(s@.take(i + 1).map_values(|c: char| lower_char(c)) =~= s@.take(
                i as int,
            ).map_values(|c: char| lower_char(c)).push(lower_char(s@[i as int])));
        }
        i = i + 1;
    }
    proof {
        assert(s@.take(len as int) =~= s@);
    }
    out
}

/// The uppercase sanitizer, over ASCII letters.
fn upper_string(s: &String) -> (r: String)
    ensures
        r@ == s@.map_values(|c: char| upper_char(c)),
{
    let st = s.as_str();
    let len = st.unicode_len();
    let mut out = String::new();
    let mut i: usize = 0;
    while i < len
        invariant
            0 <= i <= len,
            st@.len() == len,
            st@ == s@,
            out@ == s@.take(i as int).map_values(|c: char| upper_char(c)),
        decreases len - i,
    {
        push_char(&mut out, upper_char_of(st.get_char(i)));
        proof {
            assert(s@.take(i + 1).map_values(|c: char| upper_char(c)) =~= s@.take(
                i as int,
            ).map_values(|c: char| upper_char(c)).push(upper_char(s@[i as int])));
        }
        i = i + 1;
    }
    proof {
        assert(s@.take(len as int) =~= s@);
    }
    out
}

/// The checked constructor of a string wrapper: every sanitizer applied in
/// declaration order, then every validator checked in declaration order.
/// On success the produced value is exactly the sanitized input and it
/// satisfies every validator; on failure the error names the first
/// validator that rejected, and no value is produced.
pub fn construct_string(guard: &Guard, input: String) -> (r: Result<String, StringViolation>)
    requires
        string_guard_interpretable(*guard),
    ensures
        ({
            let sanitized = apply_sans(guard.sanitizers@, input@);
            match r {
                Result::Ok(v) => v@ == sanitized && (forall|k: int|
                    0 <= k < guard.validators@.len() ==> str_val_passes(
                        guard.validators@[k],
                        sanitized,
                    )),
                Result::Err(e) => exists|k: int|
                    0 <= k < guard.validators@.len() && !str_val_passes(
                        guard.validators@[k],
                        sanitized,
                    ) && e == str_violation_of(guard.validators@[k]) && (forall|j: int|
                        0 <= j < k ==> str_val_passes(guard.validators@[j], sanitized)),
            }
        }),
{
    let mut value = input;
    let mut i: usize = 0;
    while i < guard.sanitizers.len()
        invariant
            0 <= i <= guard.sanitizers@.len(),
            string_guard_interpretable(*guard),
            value@ == apply_sans(guard.sanitizers@.take(i as int), input@),
        decreases guard.sanitizers@.len() - i,
    {
        proof {
            assert(guard.sanitizers@.take(i + 1).drop_last() =~= guard.sanitizers@.take(i as int));
            assert(guard.sanitizers@.take(i + 1).last() == guard.sanitizers@[i as int]);
        }
        match &guard.sanitizers[i] {
            Sanitizer::Trim => {
                value = trim_string(&value);
            },
            Sanitizer::Lowercase => {
                value = lower_string(&value);
            },
            Sanitizer::Uppercase => {
                value = upper_string(&value);
            },
            Sanitizer::Custom(_) => {
                proof {
                    assert(false);
                }
            },
        }
        i = i + 1;
    }
    proof {
        assert(guard.sanitizers@.take(guard.sanitizers@.len() as int) =~= guard.sanitizers@);
    }
    let ghost sanitized = apply_sans(guard.sanitizers@, input@);
    let n = value.as_str().unicode_len();
    let mut j: usize = 0;
    while j < guard.validators.len()
        invariant
            0 <= j <= guard.validators@.len(),
            string_guard_interpretable(*guard),
            sanitized == apply_sans(guard.sanitizers@, input@),
            value@ == sanitized,
            n == sanitized.len(),
            forall|k: int| 0 <= k < j ==> str_val_passes(guard.validators@[k], sanitized),
        decreases guard.validators@.len() - j,
    {
        match &guard.validators[j] {
            Validator::MinLen(b) => {
                if (n as u64) < *b {
                    return Err(StringViolation::TooShort);
                }
            },
            Validator::MaxLen(b) => {
                if (n as u64) > *b {
                    return Err(StringViolation::TooLong);
                }
            },
            Validator::NotEmpty => {
                if n == 0 {
                    return Err(StringViolation::Empty);
                }
            },
            _ => {
                proof {
                    assert(false);
                }
            },
        }
        j = j + 1;
    }
    Ok(value)
}

/// The unchecked constructor of a string wrapper: the input comes back
/// verbatim, whatever the guard holds; no sanitizer and no validator runs.
pub fn construct_string_unchecked(guard: &Guard, input: String) -> (r: String)
    ensures
        r@ == input@,
{
    input
}

/// A runtime integer value of any inner width, as sign and magnitude.
#[derive(Clone, Copy, PartialEq, Eq, Structural, Debug)]
pub struct IntValue {
    pub neg: bool,
    pub mag: u128,
}

impl IntValue {
    /// The integer the value denotes.
    pub open spec fn value(self) -> int {
        if self.neg {
            -(self.mag as int)
        } else {
            self.mag as int
        }
    }
}

/// `a <= b` on sign-and-magnitude integers.
fn int_le(a: IntValue, b: IntValue) -> (r: bool)
    ensures
        r == (a.value() <= b.value()),
{
    if a.neg && b.neg {
        b.mag <= a.mag
    } else if a.neg {
        true
    } else if b.neg {
        a.mag == 0 && b.mag == 0
    } else {
        a.mag <= b.mag
    }
}

/// Does an integer satisfy one built-in integer validator?
pub open spec fn int_val_passes(v: Validator, x: int) -> bool {
    match v {
        Validator::Min(l) => x >= l.value(),
        Validator::Max(l) => x <= l.value(),
        _ => true,
    }
}

/// A guard whose rules the reference semantics covers: no sanitizers (the
/// integer family has only custom ones) and built-in bound validators.
pub open spec fn integer_guard_interpretable(g: Guard) -> bool {
    &&& g.sanitizers@.len() == 0
    &&& forall|i: int|
        0 <= i < g.validators@.len() ==> (g.validators@[i] is Min || g.validators@[i] is Max)
}

/// The failure reasons of an integer wrapper's checked constructor.
#[derive(Clone, Copy, PartialEq, Eq, Structural, Debug)]
pub enum IntViolation {
    TooSmall,
    TooBig,
}

/// The failure reason a rejecting integer validator names.
pub open spec fn int_violation_of(v: Validator) -> IntViolation {
    match v {
        Validator::Min(_) => IntViolation::TooSmall,
        _ => IntViolation::TooBig,
    }
}

/// The checked constructor of an integer wrapper: with no sanitizers in
/// the family, the produced value is the input itself, and it satisfies
/// every bound; on failure the error names the first bound that rejected.
pub fn construct_integer(guard: &Guard, input: IntValue) -> (r: Result<IntValue, IntViolation>)
    requires
        integer_guard_interpretable(*guard),
    ensures
        ({
            match r {
                Result::Ok(v) => v == input && (forall|k: int|
                    0 <= k < guard.validators@.len() ==> int_val_passes(
                        guard.validators@[k],
                        input.value(),
                    )),
                Result::Err(e) => exists|k: int|
                    0 <= k < guard.validators@.len() && !int_val_passes(
                        guard.validators@[k],
                        input.value(),
                    ) && e == int_violation_of(guard.validators@[k]) && (forall|j: int|
                        0 <= j < k ==> int_val_passes(guard.validators@[j], input.value())),
            }
        }),
{
    let mut j: usize = 0;
    while j < guard.validators.len()
        invariant
            0 <= j <= guard.validators@.len(),
            integer_guard_interpretable(*guard),
            forall|k: int| 0 <= k < j ==> int_val_passes(guard.validators@[k], input.value()),
        decreases guard.validators@.len() - j,
    {
        match &guard.validators[j] {
            Validator::Min(l) => {
                let bound = IntValue { neg: l.neg, mag: l.mag };
                if !int_le(bound, input) {
                    return Err(IntViolation::TooSmall);
                }
            },
            Validator::Max(l) => {
                let bound = IntValue { neg: l.neg, mag: l.mag };
                if !int_le(input, bound) {
                    return Err(IntViolation::TooBig);
                }
            },
            _ => {
                proof {
                    assert(false);
                }
            },
        }
        j = j + 1;
    }
    Ok(input)
}

/// The unchecked constructor of an integer wrapper: the input comes back
/// verbatim, whatever the guard holds.
pub fn construct_integer_unchecked(guard: &Guard, input: IntValue) -> (r: IntValue)
    ensures
        r == input,
{
    input
}

} // verus!
