//! The attribute parser: configuration tokens to `Attributes`.
//!
//! The configuration is a comma-separated list drawn from a closed set of
//! options: `sanitize(...)`, `validate(...)`, `default = <expr>` and
//! `new_unchecked`. Each may appear at most once; the items inside
//! `sanitize` and `validate` are family-dependent, and numeric bounds are
//! interpreted at the width of the wrapper's inner type. The grammar of
//! the whole stream is written down once as a spec-level parser
//! (`spec_parse_attributes`), and the executable parser is proved to
//! return exactly its result.

use vstd::prelude::*;
use crate::literal::{
    parse_float_literal, parse_int_literal, parse_len_literal, spec_float_lit_result,
    spec_int_lit_result, spec_len_result,
};
use crate::models::{Attributes, Error, ErrorKind, Guard, InnerType, NewUnchecked, Sanitizer,
    Validator};
use crate::span::{Span, Spanned};

verus! {

/// One configuration token, as the front end hands them over: identifiers,
/// the punctuation of the option grammar, and opaque expression text.
#[derive(Clone, Debug)]
pub enum TokKind {
    Ident(String),
    Expr(String),
    Equals,
    Comma,
    LParen,
    RParen,
}

/// A configuration token with its source position.
#[derive(Clone, Debug)]
pub struct Tok {
    pub kind: TokKind,
    pub span: Span,
}

/// Where an error that ran off the end of the stream points: the last
/// token, or the zero position of an empty stream.
pub open spec fn end_span(toks: Seq<Tok>) -> Span {
    if toks.len() > 0 {
        toks[toks.len() - 1].span
    } else {
        Span { lo: 0, hi: 0 }
    }
}

fn end_span_of(toks: &Vec<Tok>) -> (r: Span)
    ensures
        r == end_span(toks@),
{
    if toks.len() > 0 {
        toks[toks.len() - 1].span
    } else {
        Span::zero()
    }
}

/// Does `s` spell the same characters as `lit`?
fn string_is(s: &String, lit: &str) -> (r: bool)
    ensures
        r == (s@ == lit@),
{
    let other = lit.to_owned();
    *s == other
}

/// One parsed option (spec level; list contents as sequences).
pub enum OptionSpec {
    Unchecked(Span),
    DefaultVal(Spanned<String>),
    Sanitize(Seq<Sanitizer>, Span),
    Validate(Seq<Validator>, Span),
}

/// One parsed option (executable level).
pub enum ParsedOption {
    Unchecked(Span),
    DefaultVal(Spanned<String>),
    Sanitize(Vec<Sanitizer>, Span),
    Validate(Vec<Validator>, Span),
}

/// The spec-level value an executable parsed option stands for.
pub open spec fn option_view(p: ParsedOption) -> OptionSpec {
    match p {
        ParsedOption::Unchecked(sp) => OptionSpec::Unchecked(sp),
        ParsedOption::DefaultVal(d) => OptionSpec::DefaultVal(d),
        ParsedOption::Sanitize(v, sp) => OptionSpec::Sanitize(v@, sp),
        ParsedOption::Validate(v, sp) => OptionSpec::Validate(v@, sp),
    }
}

/// An `=` sign followed by an expression, as in `default = 0`: yields the
/// expression with its position and the index after it.
pub open spec fn spec_expect_eq_expr(toks: Seq<Tok>, i: int) -> Result<(int, Spanned<String>), Error> {
    if i >= toks.len() {
        Result::Err(Error { span: end_span(toks), kind: ErrorKind::UnexpectedEnd })
    } else if !(toks[i].kind is Equals) {
        Result::Err(Error { span: toks[i].span, kind: ErrorKind::UnexpectedToken })
    } else if i + 1 >= toks.len() {
        Result::Err(Error { span: end_span(toks), kind: ErrorKind::UnexpectedEnd })
    } else {
        match toks[i + 1].kind {
            TokKind::Expr(e) => Result::Ok(
                (i + 2, Spanned { item: e, span: toks[i + 1].span }),
            ),
            _ => Result::Err(Error { span: toks[i + 1].span, kind: ErrorKind::UnexpectedToken }),
        }
    }
}

fn expect_eq_expr(toks: &Vec<Tok>, i: usize) -> (r: Result<(usize, Spanned<String>), Error>)
    ensures
        ({
            let sr = spec_expect_eq_expr(toks@, i as int);
            match r {
                Result::Ok((j, d)) => sr matches Result::Ok(t) && t.0 == j as int && t.1 == d && i
                    < j <= toks@.len(),
                Result::Err(e) => sr matches Result::Err(e2) && e2 == e,
            }
        }),
{
    if i >= toks.len() {
        return Err(Error { span: end_span_of(toks), kind: ErrorKind::UnexpectedEnd });
    }
    match &toks[i].kind {
        TokKind::Equals => {},
        _ => {
            return Err(Error { span: toks[i].span, kind: ErrorKind::UnexpectedToken });
        },
    }
    if i + 1 >= toks.len() {
        return Err(Error { span: end_span_of(toks), kind: ErrorKind::UnexpectedEnd });
    }
    match &toks[i + 1].kind {
        TokKind::Expr(e) => Ok((i + 2, Spanned { item: e.clone(), span: toks[i + 1].span })),
        _ => Err(Error { span: toks[i + 1].span, kind: ErrorKind::UnexpectedToken }),
    }
}

/// One item inside `sanitize(...)`. The string family knows `trim`,
/// `lowercase` and `uppercase`; every family accepts `with = <expr>`.
pub open spec fn spec_parse_san_item(family: InnerType, toks: Seq<Tok>, i: int) -> Result<
    (int, Sanitizer),
    Error,
> {
    if i >= toks.len() {
        Result::Err(Error { span: end_span(toks), kind: ErrorKind::UnexpectedEnd })
    } else {
        match toks[i].kind {
            TokKind::Ident(name) => {
                if family is StringType && name@ == "trim"@ {
                    Result::Ok((i + 1, Sanitizer::Trim))
                } else if family is StringType && name@ == "lowercase"@ {
                    Result::Ok((i + 1, Sanitizer::Lowercase))
                } else if family is StringType && name@ == "uppercase"@ {
                    Result::Ok((i + 1, Sanitizer::Uppercase))
                } else if name@ == "with"@ {
                    match spec_expect_eq_expr(toks, i + 1) {
                        Result::Ok((j, d)) => Result::Ok((j, Sanitizer::Custom(d.item))),
                        Result::Err(e) => Result::Err(e),
                    }
                } else {
                    Result::Err(
                        Error { span: toks[i].span, kind: ErrorKind::UnknownSanitizer(name) },
                    )
                }
            },
            _ => Result::Err(Error { span: toks[i].span, kind: ErrorKind::UnexpectedToken }),
        }
    }
}

fn parse_san_item(family: InnerType, toks: &Vec<Tok>, i: usize) -> (r: Result<
    (usize, Sanitizer),
    Error,
>)
    requires
        i < toks@.len(),
    ensures
        ({
            let sr = spec_parse_san_item(family, toks@, i as int);
            match r {
                Result::Ok((j, s)) => sr matches Result::Ok(t) && t.0 == j as int && t.1 == s && i
                    < j <= toks@.len(),
                Result::Err(e) => sr matches Result::Err(e2) && e2 == e,
            }
        }),
{
    // Binding the length ties the sequence to a machine word, so the index
    // arithmetic below cannot overflow.
    let n = toks.len();
    match &toks[i].kind {
        TokKind::Ident(name) => {
            let is_string = match family {
                InnerType::StringType => true,
                _ => false,
            };
            if is_string && string_is(name, "trim") {
                Ok((i + 1, Sanitizer::Trim))
            } else if is_string && string_is(name, "lowercase") {
                Ok((i + 1, Sanitizer::Lowercase))
            } else if is_string && string_is(name, "uppercase") {
                Ok((i + 1, Sanitizer::Uppercase))
            } else if string_is(name, "with") {
                match expect_eq_expr(toks, i + 1) {
                    Ok((j, d)) => Ok((j, Sanitizer::Custom(d.item))),
                    Err(e) => Err(e),
                }
            } else {
                Err(Error { span: toks[i].span, kind: ErrorKind::UnknownSanitizer(name.clone()) })
            }
        },
        _ => Err(Error { span: toks[i].span, kind: ErrorKind::UnexpectedToken }),
    }
}

/// One item inside `validate(...)`: `min_len`/`max_len`/`not_empty` for
/// strings, `min`/`max` at the inner width for integers,
/// `min`/`max`/`finite` for floats, `with = <expr>` everywhere.
pub open spec fn spec_parse_val_item(family: InnerType, toks: Seq<Tok>, i: int) -> Result<
    (int, Validator),
    Error,
> {
    if i >= toks.len() {
        Result::Err(Error { span: end_span(toks), kind: ErrorKind::UnexpectedEnd })
    } else {
        match toks[i].kind {
            TokKind::Ident(name) => {
                match family {
                    InnerType::StringType => {
                        if name@ == "min_len"@ {
                            match spec_expect_eq_expr(toks, i + 1) {
                                Result::Ok((j, d)) => match spec_len_result(d.item, d.span) {
                                    Result::Ok(v) => Result::Ok((j, Validator::MinLen(v))),
                                    Result::Err(e) => Result::Err(e),
                                },
                                Result::Err(e) => Result::Err(e),
                            }
                        } else if name@ == "max_len"@ {
                            match spec_expect_eq_expr(toks, i + 1) {
                                Result::Ok((j, d)) => match spec_len_result(d.item, d.span) {
                                    Result::Ok(v) => Result::Ok((j, Validator::MaxLen(v))),
                                    Result::Err(e) => Result::Err(e),
                                },
                                Result::Err(e) => Result::Err(e),
                            }
                        } else if name@ == "not_empty"@ {
                            Result::Ok((i + 1, Validator::NotEmpty))
                        } else if name@ == "with"@ {
                            match spec_expect_eq_expr(toks, i + 1) {
                                Result::Ok((j, d)) => Result::Ok((j, Validator::Custom(d.item))),
                                Result::Err(e) => Result::Err(e),
                            }
                        } else {
                            Result::Err(
                                Error {
                                    span: toks[i].span,
                                    kind: ErrorKind::UnknownValidator(name),
                                },
                            )
                        }
                    },
                    InnerType::Integer(w) => {
                        if name@ == "min"@ {
                            match spec_expect_eq_expr(toks, i + 1) {
                                Result::Ok((j, d)) => match spec_int_lit_result(d.item, d.span, w) {
                                    Result::Ok(l) => Result::Ok((j, Validator::Min(l))),
                                    Result::Err(e) => Result::Err(e),
                                },
                                Result::Err(e) => Result::Err(e),
                            }
                        } else if name@ == "max"@ {
                            match spec_expect_eq_expr(toks, i + 1) {
                                Result::Ok((j, d)) => match spec_int_lit_result(d.item, d.span, w) {
                                    Result::Ok(l) => Result::Ok((j, Validator::Max(l))),
                                    Result::Err(e) => Result::Err(e),
                                },
                                Result::Err(e) => Result::Err(e),
                            }
                        } else if name@ == "with"@ {
                            match spec_expect_eq_expr(toks, i + 1) {
                                Result::Ok((j, d)) => Result::Ok((j, Validator::Custom(d.item))),
                                Result::Err(e) => Result::Err(e),
                            }
                        } else {
                            Result::Err(
                                Error {
                                    span: toks[i].span,
                                    kind: ErrorKind::UnknownValidator(name),
                                },
                            )
                        }
                    },
                    InnerType::Float(_) => {
                        if name@ == "min"@ {
                            match spec_expect_eq_expr(toks, i + 1) {
                                Result::Ok((j, d)) => match spec_float_lit_result(d.item, d.span) {
                                    Result::Ok(l) => Result::Ok((j, Validator::MinFloat(l))),
                                    Result::Err(e) => Result::Err(e),
                                },
                                Result::Err(e) => Result::Err(e),
                            }
                        } else if name@ == "max"@ {
                            match spec_expect_eq_expr(toks, i + 1) {
                                Result::Ok((j, d)) => match spec_float_lit_result(d.item, d.span) {
                                    Result::Ok(l) => Result::Ok((j, Validator::MaxFloat(l))),
                                    Result::Err(e) => Result::Err(e),
                                },
                                Result::Err(e) => Result::Err(e),
                            }
                        } else if name@ == "finite"@ {
                            Result::Ok((i + 1, Validator::Finite))
                        } else if name@ == "with"@ {
                            match spec_expect_eq_expr(toks, i + 1) {
                                Result::Ok((j, d)) => Result::Ok((j, Validator::Custom(d.item))),
                                Result::Err(e) => Result::Err(e),
                            }
                        } else {
                            Result::Err(
                                Error {
                                    span: toks[i].span,
                                    kind: ErrorKind::UnknownValidator(name),
                                },
                            )
                        }
                    },
                }
            },
            _ => Result::Err(Error { span: toks[i].span, kind: ErrorKind::UnexpectedToken }),
        }
    }
}

fn parse_val_item(family: InnerType, toks: &Vec<Tok>, i: usize) -> (r: Result<
    (usize, Validator),
    Error,
>)
    requires
        i < toks@.len(),
    ensures
        ({
            let sr = spec_parse_val_item(family, toks@, i as int);
            match r {
                Result::Ok((j, v)) => sr matches Result::Ok(t) && t.0 == j as int && t.1 == v && i
                    < j <= toks@.len(),
                Result::Err(e) => sr matches Result::Err(e2) && e2 == e,
            }
        }),
{
    // Binding the length ties the sequence to a machine word, so the index
    // arithmetic below cannot overflow.
    let n = toks.len();
    match &toks[i].kind {
        TokKind::Ident(name) => {
            match family {
                InnerType::StringType => {
                    if string_is(name, "min_len") {
                        match expect_eq_expr(toks, i + 1) {
                            Ok((j, d)) => match parse_len_literal(&d.item, d.span) {
                                Ok(v) => Ok((j, Validator::MinLen(v))),
                                Err(e) => Err(e),
                            },
                            Err(e) => Err(e),
                        }
                    } else if string_is(name, "max_len") {
                        match expect_eq_expr(toks, i + 1) {
                            Ok((j, d)) => match parse_len_literal(&d.item, d.span) {
                                Ok(v) => Ok((j, Validator::MaxLen(v))),
                                Err(e) => Err(e),
                            },
                            Err(e) => Err(e),
                        }
                    } else if string_is(name, "not_empty") {
                        Ok((i + 1, Validator::NotEmpty))
                    } else if string_is(name, "with") {
                        match expect_eq_expr(toks, i + 1) {
                            Ok((j, d)) => Ok((j, Validator::Custom(d.item))),
                            Err(e) => Err(e),
                        }
                    } else {
                        Err(
                            Error {
                                span: toks[i].span,
                                kind: ErrorKind::UnknownValidator(name.clone()),
                            },
                        )
                    }
                },
                InnerType::Integer(w) => {
                    if string_is(name, "min") {
                        match expect_eq_expr(toks, i + 1) {
                            Ok((j, d)) => match parse_int_literal(&d.item, d.span, w) {
                                Ok(l) => Ok((j, Validator::Min(l))),
                                Err(e) => Err(e),
                            },
                            Err(e) => Err(e),
                        }
                    } else if string_is(name, "max") {
                        match expect_eq_expr(toks, i + 1) {
                            Ok((j, d)) => match parse_int_literal(&d.item, d.span, w) {
                                Ok(l) => Ok((j, Validator::Max(l))),
                                Err(e) => Err(e),
                            },
                            Err(e) => Err(e),
                        }
                    } else if string_is(name, "with") {
                        match expect_eq_expr(toks, i + 1) {
                            Ok((j, d)) => Ok((j, Validator::Custom(d.item))),
                            Err(e) => Err(e),
                        }
                    } else {
                        Err(
                            Error {
                                span: toks[i].span,
                                kind: ErrorKind::UnknownValidator(name.clone()),
                            },
                        )
                    }
                },
                InnerType::Float(_) => {
                    if string_is(name, "min") {
                        match expect_eq_expr(toks, i + 1) {
                            Ok((j, d)) => match parse_float_literal(&d.item, d.span) {
                                Ok(l) => Ok((j, Validator::MinFloat(l))),
                                Err(e) => Err(e),
                            },
                            Err(e) => Err(e),
                        }
                    } else if string_is(name, "max") {
                        match expect_eq_expr(toks, i + 1) {
                            Ok((j, d)) => match parse_float_literal(&d.item, d.span) {
                                Ok(l) => Ok((j, Validator::MaxFloat(l))),
                                Err(e) => Err(e),
                            },
                            Err(e) => Err(e),
                        }
                    } else if string_is(name, "finite") {
                        Ok((i + 1, Validator::Finite))
                    } else if string_is(name, "with") {
                        match expect_eq_expr(toks, i + 1) {
                            Ok((j, d)) => Ok((j, Validator::Custom(d.item))),
                            Err(e) => Err(e),
                        }
                    } else {
                        Err(
                            Error {
                                span: toks[i].span,
                                kind: ErrorKind::UnknownValidator(name.clone()),
                            },
                        )
                    }
                },
            }
        },
        _ => Err(Error { span: toks[i].span, kind: ErrorKind::UnexpectedToken }),
    }
}

/// The items of `sanitize(...)` from position `i` up to the closing
/// parenthesis: the sanitizers in declaration order, and the index after
/// the parenthesis.
pub open spec fn spec_parse_sanitizers(
    family: InnerType,
    toks: Seq<Tok>,
    i: int,
    acc: Seq<Sanitizer>,
) -> Result<(int, Seq<Sanitizer>), Error>
    decreases toks.len() - i,
{
    if i >= toks.len() {
        Result::Err(Error { span: end_span(toks), kind: ErrorKind::UnexpectedEnd })
    } else if toks[i].kind is RParen {
        Result::Ok((i + 1, acc))
    } else {
        match spec_parse_san_item(family, toks, i) {
            Result::Err(e) => Result::Err(e),
            Result::Ok((j0, item)) => {
                let j = if j0 > i {
                    j0
                } else {
                    i + 1
                };
                if j >= toks.len() {
                    Result::Err(Error { span: end_span(toks), kind: ErrorKind::UnexpectedEnd })
                } else if toks[j].kind is Comma {
                    spec_parse_sanitizers(family, toks, j + 1, acc.push(item))
                } else if toks[j].kind is RParen {
                    Result::Ok((j + 1, acc.push(item)))
                } else {
                    Result::Err(Error { span: toks[j].span, kind: ErrorKind::UnexpectedToken })
                }
            },
        }
    }
}

fn parse_sanitizers(family: InnerType, toks: &Vec<Tok>, i: usize, acc: Vec<Sanitizer>) -> (r:
    Result<(usize, Vec<Sanitizer>), Error>)
    ensures
        ({
            let sr = spec_parse_sanitizers(family, toks@, i as int, acc@);
            match r {
                Result::Ok((j, v)) => sr matches Result::Ok(t) && t.0 == j as int && t.1 == v@ && i
                    < j <= toks@.len(),
                Result::Err(e) => sr matches Result::Err(e2) && e2 == e,
            }
        }),
    decreases toks@.len() - i,
{
    if i >= toks.len() {
        return Err(Error { span: end_span_of(toks), kind: ErrorKind::UnexpectedEnd });
    }
    match &toks[i].kind {
        TokKind::RParen => {
            return Ok((i + 1, acc));
        },
        _ => {},
    }
    match parse_san_item(family, toks, i) {
        Err(e) => Err(e),
        Ok((j, item)) => {
            if j >= toks.len() {
                return Err(Error { span: end_span_of(toks), kind: ErrorKind::UnexpectedEnd });
            }
            let mut acc2 = acc;
            match &toks[j].kind {
                TokKind::Comma => {
                    acc2.push(item);
                    parse_sanitizers(family, toks, j + 1, acc2)
                },
                TokKind::RParen => {
                    acc2.push(item);
                    Ok((j + 1, acc2))
                },
                _ => Err(Error { span: toks[j].span, kind: ErrorKind::UnexpectedToken }),
            }
        },
    }
}

/// Does `acc` already hold a validator of the same kind as `v`?
fn has_same_kind(acc: &Vec<Validator>, v: &Validator) -> (r: bool)
    ensures
        r == exists|k: int| 0 <= k < acc@.len() && acc@[k].same_kind(*v),
{
    let mut i: usize = 0;
    while i < acc.len()
        invariant
            0 <= i <= acc@.len(),
            forall|k: int| 0 <= k < i ==> !acc@[k].same_kind(*v),
        decreases acc@.len() - i,
    {
        let same = match (&acc[i], v) {
            (Validator::MinLen(_), Validator::MinLen(_)) => true,
            (Validator::MaxLen(_), Validator::MaxLen(_)) => true,
            (Validator::NotEmpty, Validator::NotEmpty) => true,
            (Validator::Min(_), Validator::Min(_)) => true,
            (Validator::Max(_), Validator::Max(_)) => true,
            (Validator::MinFloat(_), Validator::MinFloat(_)) => true,
            (Validator::MaxFloat(_), Validator::MaxFloat(_)) => true,
            (Validator::Finite, Validator::Finite) => true,
            (Validator::Custom(_), Validator::Custom(_)) => true,
            _ => false,
        };
        if same {
            return true;
        }
        i = i + 1;
    }
    false
}

/// The items of `validate(...)` from position `i` up to the closing
/// parenthesis. A second validator of a kind already seen is a
/// `DuplicateOption` error: the generated error type names each failure
/// reason once.
pub open spec fn spec_parse_validators(
    family: InnerType,
    toks: Seq<Tok>,
    i: int,
    acc: Seq<Validator>,
) -> Result<(int, Seq<Validator>), Error>
    decreases toks.len() - i,
{
    if i >= toks.len() {
        Result::Err(Error { span: end_span(toks), kind: ErrorKind::UnexpectedEnd })
    } else if toks[i].kind is RParen {
        Result::Ok((i + 1, acc))
    } else {
        match spec_parse_val_item(family, toks, i) {
            Result::Err(e) => Result::Err(e),
            Result::Ok((j0, item)) => {
                if exists|k: int| 0 <= k < acc.len() && acc[k].same_kind(item) {
                    Result::Err(Error { span: toks[i].span, kind: ErrorKind::DuplicateOption })
                } else {
                    let j = if j0 > i {
                        j0
                    } else {
                        i + 1
                    };
                    if j >= toks.len() {
                        Result::Err(Error { span: end_span(toks), kind: ErrorKind::UnexpectedEnd })
                    } else if toks[j].kind is Comma {
                        spec_parse_validators(family, toks, j + 1, acc.push(item))
                    } else if toks[j].kind is RParen {
                        Result::Ok((j + 1, acc.push(item)))
                    } else {
                        Result::Err(Error { span: toks[j].span, kind: ErrorKind::UnexpectedToken })
                    }
                }
            },
        }
    }
}

fn parse_validators(family: InnerType, toks: &Vec<Tok>, i: usize, acc: Vec<Validator>) -> (r:
    Result<(usize, Vec<Validator>), Error>)
    ensures
        ({
            let sr = spec_parse_validators(family, toks@, i as int, acc@);
            match r {
                Result::Ok((j, v)) => sr matches Result::Ok(t) && t.0 == j as int && t.1 == v@ && i
                    < j <= toks@.len(),
                Result::Err(e) => sr matches Result::Err(e2) && e2 == e,
            }
        }),
    decreases toks@.len() - i,
{
    if i >= toks.len() {
        return Err(Error { span: end_span_of(toks), kind: ErrorKind::UnexpectedEnd });
    }
    match &toks[i].kind {
        TokKind::RParen => {
            return Ok((i + 1, acc));
        },
        _ => {},
    }
    match parse_val_item(family, toks, i) {
        Err(e) => Err(e),
        Ok((j, item)) => {
            if has_same_kind(&acc, &item) {
                return Err(Error { span: toks[i].span, kind: ErrorKind::DuplicateOption });
            }
            if j >= toks.len() {
                return Err(Error { span: end_span_of(toks), kind: ErrorKind::UnexpectedEnd });
            }
            let mut acc2 = acc;
            match &toks[j].kind {
                TokKind::Comma => {
                    acc2.push(item);
                    parse_validators(family, toks, j + 1, acc2)
                },
                TokKind::RParen => {
                    acc2.push(item);
                    Ok((j + 1, acc2))
                },
                _ => Err(Error { span: toks[j].span, kind: ErrorKind::UnexpectedToken }),
            }
        },
    }
}

/// One option of the closed set, starting at `i`: `new_unchecked`,
/// `default = <expr>`, `sanitize(...)` or `validate(...)`.
pub open spec fn spec_parse_option(family: InnerType, toks: Seq<Tok>, i: int) -> Result<
    (int, OptionSpec),
    Error,
> {
    if i >= toks.len() {
        Result::Err(Error { span: end_span(toks), kind: ErrorKind::UnexpectedEnd })
    } else {
        match toks[i].kind {
            TokKind::Ident(name) => {
                if name@ == "new_unchecked"@ {
                    Result::Ok((i + 1, OptionSpec::Unchecked(toks[i].span)))
                } else if name@ == "default"@ {
                    match spec_expect_eq_expr(toks, i + 1) {
                        Result::Ok((j, d)) => Result::Ok((j, OptionSpec::DefaultVal(d))),
                        Result::Err(e) => Result::Err(e),
                    }
                } else if name@ == "sanitize"@ {
                    if i + 1 >= toks.len() {
                        Result::Err(Error { span: end_span(toks), kind: ErrorKind::UnexpectedEnd })
                    } else if !(toks[i + 1].kind is LParen) {
                        Result::Err(
                            Error { span: toks[i + 1].span, kind: ErrorKind::UnexpectedToken },
                        )
                    } else {
                        match spec_parse_sanitizers(family, toks, i + 2, Seq::empty()) {
                            Result::Ok((j, v)) => Result::Ok(
                                (j, OptionSpec::Sanitize(v, toks[i].span)),
                            ),
                            Result::Err(e) => Result::Err(e),
                        }
                    }
                } else if name@ == "validate"@ {
                    if i + 1 >= toks.len() {
                        Result::Err(Error { span: end_span(toks), kind: ErrorKind::UnexpectedEnd })
                    } else if !(toks[i + 1].kind is LParen) {
                        Result::Err(
                            Error { span: toks[i + 1].span, kind: ErrorKind::UnexpectedToken },
                        )
                    } else {
                        match spec_parse_validators(family, toks, i + 2, Seq::empty()) {
                            Result::Ok((j, v)) => Result::Ok(
                                (j, OptionSpec::Validate(v, toks[i].span)),
                            ),
                            Result::Err(e) => Result::Err(e),
                        }
                    }
                } else {
                    Result::Err(Error { span: toks[i].span, kind: ErrorKind::UnknownOption(name) })
                }
            },
            _ => Result::Err(Error { span: toks[i].span, kind: ErrorKind::UnexpectedToken }),
        }
    }
}

fn parse_option(family: InnerType, toks: &Vec<Tok>, i: usize) -> (r: Result<
    (usize, ParsedOption),
    Error,
>)
    requires
        i < toks@.len(),
    ensures
        ({
            let sr = spec_parse_option(family, toks@, i as int);
            match r {
                Result::Ok((j, p)) => sr matches Result::Ok(t) && t.0 == j as int && t.1
                    == option_view(p) && i < j <= toks@.len(),
                Result::Err(e) => sr matches Result::Err(e2) && e2 == e,
            }
        }),
{
    // Binding the length ties the sequence to a machine word, so the index
    // arithmetic below cannot overflow.
    let n = toks.len();
    match &toks[i].kind {
        TokKind::Ident(name) => {
            if string_is(name, "new_unchecked") {
                Ok((i + 1, ParsedOption::Unchecked(toks[i].span)))
            } else if string_is(name, "default") {
                match expect_eq_expr(toks, i + 1) {
                    Ok((j, d)) => Ok((j, ParsedOption::DefaultVal(d))),
                    Err(e) => Err(e),
                }
            } else if string_is(name, "sanitize") {
                if i + 1 >= toks.len() {
                    return Err(Error { span: end_span_of(toks), kind: ErrorKind::UnexpectedEnd });
                }
                match &toks[i + 1].kind {
                    TokKind::LParen => {},
                    _ => {
                        return Err(
                            Error { span: toks[i + 1].span, kind: ErrorKind::UnexpectedToken },
                        );
                    },
                }
                let empty_sans: Vec<Sanitizer> = Vec::new();
                proof {
                    assert(empty_sans@ =~= Seq::<Sanitizer>::empty());
                }
                match parse_sanitizers(family, toks, i + 2, empty_sans) {
                    Ok((j, v)) => Ok((j, ParsedOption::Sanitize(v, toks[i].span))),
                    Err(e) => Err(e),
                }
            } else if string_is(name, "validate") {
                if i + 1 >= toks.len() {
                    return Err(Error { span: end_span_of(toks), kind: ErrorKind::UnexpectedEnd });
                }
                match &toks[i + 1].kind {
                    TokKind::LParen => {},
                    _ => {
                        return Err(
                            Error { span: toks[i + 1].span, kind: ErrorKind::UnexpectedToken },
                        );
                    },
                }
                let empty_vals: Vec<Validator> = Vec::new();
                proof {
                    assert(empty_vals@ =~= Seq::<Validator>::empty());
                }
                match parse_validators(family, toks, i + 2, empty_vals) {
                    Ok((j, v)) => Ok((j, ParsedOption::Validate(v, toks[i].span))),
                    Err(e) => Err(e),
                }
            } else {
                Err(Error { span: toks[i].span, kind: ErrorKind::UnknownOption(name.clone()) })
            }
        },
        _ => Err(Error { span: toks[i].span, kind: ErrorKind::UnexpectedToken }),
    }
}

/// The view of a partially collected sanitizer list.
pub open spec fn osv(o: Option<Vec<Sanitizer>>) -> Option<Seq<Sanitizer>> {
    match o {
        Option::None => Option::None,
        Option::Some(v) => Option::Some(v@),
    }
}

/// The view of a partially collected validator list.
pub open spec fn ovv(o: Option<Vec<Validator>>) -> Option<Seq<Validator>> {
    match o {
        Option::None => Option::None,
        Option::Some(v) => Option::Some(v@),
    }
}

/// Folds one parsed option into the partial result; a second occurrence of
/// an option already given is a `DuplicateOption` error.
pub open spec fn spec_apply_option(
    opt: OptionSpec,
    gs: Option<Seq<Sanitizer>>,
    gv: Option<Seq<Validator>>,
    nu: NewUnchecked,
    dflt: Option<Spanned<String>>,
) -> Result<
    (Option<Seq<Sanitizer>>, Option<Seq<Validator>>, NewUnchecked, Option<Spanned<String>>),
    Error,
> {
    match opt {
        OptionSpec::Unchecked(sp) => {
            if nu is On {
                Result::Err(Error { span: sp, kind: ErrorKind::DuplicateOption })
            } else {
                Result::Ok((gs, gv, NewUnchecked::On(sp), dflt))
            }
        },
        OptionSpec::DefaultVal(d) => {
            if dflt is Some {
                Result::Err(Error { span: d.span, kind: ErrorKind::DuplicateOption })
            } else {
                Result::Ok((gs, gv, nu, Option::Some(d)))
            }
        },
        OptionSpec::Sanitize(v, sp) => {
            if gs is Some {
                Result::Err(Error { span: sp, kind: ErrorKind::DuplicateOption })
            } else {
                Result::Ok((Option::Some(v), gv, nu, dflt))
            }
        },
        OptionSpec::Validate(v, sp) => {
            if gv is Some {
                Result::Err(Error { span: sp, kind: ErrorKind::DuplicateOption })
            } else {
                Result::Ok((gs, Option::Some(v), nu, dflt))
            }
        },
    }
}

/// The completed parse: absent lists mean no sanitizers and no validators.
pub open spec fn spec_finish_attrs(
    gs: Option<Seq<Sanitizer>>,
    gv: Option<Seq<Validator>>,
    nu: NewUnchecked,
    dflt: Option<Spanned<String>>,
) -> (Seq<Sanitizer>, Seq<Validator>, NewUnchecked, Option<Spanned<String>>) {
    (
        match gs {
            Option::Some(v) => v,
            Option::None => Seq::empty(),
        },
        match gv {
            Option::Some(v) => v,
            Option::None => Seq::empty(),
        },
        nu,
        dflt,
    )
}

/// The option list from position `i` to the end of the stream, folded over
/// the partial result. An empty remainder completes the attributes; absent
/// lists mean no sanitizers and no validators.
pub open spec fn spec_parse_opts(
    family: InnerType,
    toks: Seq<Tok>,
    i: int,
    gs: Option<Seq<Sanitizer>>,
    gv: Option<Seq<Validator>>,
    nu: NewUnchecked,
    dflt: Option<Spanned<String>>,
) -> Result<(Seq<Sanitizer>, Seq<Validator>, NewUnchecked, Option<Spanned<String>>), Error>
    decreases toks.len() - i,
{
    if i >= toks.len() {
        Result::Ok(spec_finish_attrs(gs, gv, nu, dflt))
    } else {
        match spec_parse_option(family, toks, i) {
            Result::Err(e) => Result::Err(e),
            Result::Ok((j0, opt)) => {
                match spec_apply_option(opt, gs, gv, nu, dflt) {
                    Result::Err(e) => Result::Err(e),
                    Result::Ok(acc) => {
                        let j = if j0 > i {
                            j0
                        } else {
                            i + 1
                        };
                        if j >= toks.len() {
                            Result::Ok(spec_finish_attrs(acc.0, acc.1, acc.2, acc.3))
                        } else if toks[j].kind is Comma {
                            spec_parse_opts(family, toks, j + 1, acc.0, acc.1, acc.2, acc.3)
                        } else {
                            Result::Err(
                                Error { span: toks[j].span, kind: ErrorKind::UnexpectedToken },
                            )
                        }
                    },
                }
            },
        }
    }
}

/// What parsing a whole configuration stream yields.
pub open spec fn spec_parse_attributes(family: InnerType, toks: Seq<Tok>) -> Result<
    (Seq<Sanitizer>, Seq<Validator>, NewUnchecked, Option<Spanned<String>>),
    Error,
> {
    spec_parse_opts(
        family,
        toks,
        0,
        Option::None,
        Option::None,
        NewUnchecked::Off,
        Option::None,
    )
}

fn apply_option(
    opt: ParsedOption,
    gs: Option<Vec<Sanitizer>>,
    gv: Option<Vec<Validator>>,
    nu: NewUnchecked,
    dflt: Option<Spanned<String>>,
) -> (r: Result<
    (Option<Vec<Sanitizer>>, Option<Vec<Validator>>, NewUnchecked, Option<Spanned<String>>),
    Error,
>)
    ensures
        ({
            let sr = spec_apply_option(option_view(opt), osv(gs), ovv(gv), nu, dflt);
            match r {
                Result::Ok(t) => sr matches Result::Ok(t2) && t2.0 == osv(t.0) && t2.1 == ovv(t.1)
                    && t2.2 == t.2 && t2.3 == t.3,
                Result::Err(e) => sr matches Result::Err(e2) && e2 == e,
            }
        }),
{
    match opt {
        ParsedOption::Unchecked(sp) => {
            match nu {
                NewUnchecked::On(_) => Err(Error { span: sp, kind: ErrorKind::DuplicateOption }),
                NewUnchecked::Off => Ok((gs, gv, NewUnchecked::On(sp), dflt)),
            }
        },
        ParsedOption::DefaultVal(d) => {
            if dflt.is_some() {
                Err(Error { span: d.span, kind: ErrorKind::DuplicateOption })
            } else {
                Ok((gs, gv, nu, Some(d)))
            }
        },
        ParsedOption::Sanitize(v, sp) => {
            if gs.is_some() {
                Err(Error { span: sp, kind: ErrorKind::DuplicateOption })
            } else {
                Ok((Some(v), gv, nu, dflt))
            }
        },
        ParsedOption::Validate(v, sp) => {
            if gv.is_some() {
                Err(Error { span: sp, kind: ErrorKind::DuplicateOption })
            } else {
                Ok((gs, Some(v), nu, dflt))
            }
        },
    }
}

fn parse_opts(
    family: InnerType,
    toks: &Vec<Tok>,
    i: usize,
    gs: Option<Vec<Sanitizer>>,
    gv: Option<Vec<Validator>>,
    nu: NewUnchecked,
    dflt: Option<Spanned<String>>,
) -> (r: Result<Attributes, Error>)
    ensures
        ({
            let sr = spec_parse_opts(family, toks@, i as int, osv(gs), ovv(gv), nu, dflt);
            match r {
                Result::Ok(a) => sr matches Result::Ok(t) && a.guard.sanitizers@ == t.0
                    && a.guard.validators@ == t.1 && a.new_unchecked == t.2
                    && a.maybe_default_value == t.3,
                Result::Err(e) => sr matches Result::Err(e2) && e2 == e,
            }
        }),
    decreases toks@.len() - i,
{
    if i >= toks.len() {
        let sanitizers = match gs {
            Some(v) => v,
            None => Vec::new(),
        };
        let validators = match gv {
            Some(v) => v,
            None => Vec::new(),
        };
        return Ok(
            Attributes {
                guard: Guard { sanitizers, validators },
                new_unchecked: nu,
                maybe_default_value: dflt,
            },
        );
    }
    match parse_option(family, toks, i) {
        Err(e) => Err(e),
        Ok((j, opt)) => {
            match apply_option(opt, gs, gv, nu, dflt) {
                Err(e) => Err(e),
                Ok((gs2, gv2, nu2, dflt2)) => {
                    if j >= toks.len() {
                        parse_opts(family, toks, j, gs2, gv2, nu2, dflt2)
                    } else {
                        match &toks[j].kind {
                            TokKind::Comma => parse_opts(family, toks, j + 1, gs2, gv2, nu2, dflt2),
                            _ => Err(
                                Error { span: toks[j].span, kind: ErrorKind::UnexpectedToken },
                            ),
                        }
                    }
                },
            }
        },
    }
}

/// Parses a configuration token stream into the attributes of a wrapper of
/// the given family: the guard, the unchecked-constructor flag, and the
/// default expression if one was given. Returns exactly what the grammar
/// `spec_parse_attributes` denotes; in particular an empty stream is legal
/// and yields an unconstrained guard.
pub fn parse_attributes(family: InnerType, toks: &Vec<Tok>) -> (r: Result<Attributes, Error>)
    ensures
        ({
            let sr = spec_parse_attributes(family, toks@);
            match r {
                Result::Ok(a) => sr matches Result::Ok(t) && a.guard.sanitizers@ == t.0
                    && a.guard.validators@ == t.1 && a.new_unchecked == t.2
                    && a.maybe_default_value == t.3,
                Result::Err(e) => sr matches Result::Err(e2) && e2 == e,
            }
        }),
{
    parse_opts(family, toks, 0, None, None, NewUnchecked::Off, None)
}

} // verus!
