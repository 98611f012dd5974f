//! The code generator: a validated request to the wrapper's source text.
//!
//! Generation is a pure function of `GenerateParams`: the exact output is
//! written down as the spec function `spec_generate`, and the executable
//! generator is proved to return precisely that text, so two runs on equal
//! parameters yield byte-identical output. The emitted artifact is the
//! wrapper declaration, an error type with one variant per validator (only
//! when a validator exists), a checked constructor that sanitizes in
//! declaration order and then validates in declaration order, the optional
//! unchecked constructor, an accessor for the inner value, and one
//! implementation block per approved trait in canonical order.

use vstd::prelude::*;
use vstd::string::StringExecFns;
use crate::models::{DeriveTrait, FloatInnerType, GenerateParams, Guard, InnerType,
    IntegerInnerType, NewUnchecked, Sanitizer, Validator, Visibility};
use crate::span::Spanned;

verus! {

/// The source spelling of the inner primitive.
pub open spec fn spec_inner(it: InnerType) -> Seq<char> {
    match it {
        InnerType::StringType => "String"@,
        InnerType::Integer(w) => match w {
            IntegerInnerType::U8 => "u8"@,
            IntegerInnerType::U16 => "u16"@,
            IntegerInnerType::U32 => "u32"@,
            IntegerInnerType::U64 => "u64"@,
            IntegerInnerType::U128 => "u128"@,
            IntegerInnerType::Usize => "usize"@,
            IntegerInnerType::I8 => "i8"@,
            IntegerInnerType::I16 => "i16"@,
            IntegerInnerType::I32 => "i32"@,
            IntegerInnerType::I64 => "i64"@,
            IntegerInnerType::I128 => "i128"@,
            IntegerInnerType::Isize => "isize"@,
        },
        InnerType::Float(w) => match w {
            FloatInnerType::F32 => "f32"@,
            FloatInnerType::F64 => "f64"@,
        },
    }
}

fn inner_text(it: InnerType) -> (r: &'static str)
    ensures
        r@ == spec_inner(it),
{
    match it {
        InnerType::StringType => "String",
        InnerType::Integer(w) => match w {
            IntegerInnerType::U8 => "u8",
            IntegerInnerType::U16 => "u16",
            IntegerInnerType::U32 => "u32",
            IntegerInnerType::U64 => "u64",
            IntegerInnerType::U128 => "u128",
            IntegerInnerType::Usize => "usize",
            IntegerInnerType::I8 => "i8",
            IntegerInnerType::I16 => "i16",
            IntegerInnerType::I32 => "i32",
            IntegerInnerType::I64 => "i64",
            IntegerInnerType::I128 => "i128",
            IntegerInnerType::Isize => "isize",
        },
        InnerType::Float(w) => match w {
            FloatInnerType::F32 => "f32",
            FloatInnerType::F64 => "f64",
        },
    }
}

/// The source spelling of the visibility, with its trailing space.
pub open spec fn spec_vis(v: Visibility) -> Seq<char> {
    match v {
        Visibility::Inherited => ""@,
        Visibility::Public => "pub "@,
        Visibility::PubCrate => "pub(crate) "@,
    }
}

fn vis_text(v: Visibility) -> (r: &'static str)
    ensures
        r@ == spec_vis(v),
{
    match v {
        Visibility::Inherited => "",
        Visibility::Public => "pub ",
        Visibility::PubCrate => "pub(crate) ",
    }
}

/// The decimal digit character of `d` (for `d` in 0..10).
pub open spec fn digit_char(d: nat) -> char {
    if d == 0 {
        '0'
    } else if d == 1 {
        '1'
    } else if d == 2 {
        '2'
    } else if d == 3 {
        '3'
    } else if d == 4 {
        '4'
    } else if d == 5 {
        '5'
    } else if d == 6 {
        '6'
    } else if d == 7 {
        '7'
    } else if d == 8 {
        '8'
    } else {
        '9'
    }
}

/// The decimal spelling of `n`, most significant digit first.
pub open spec fn spec_dec(n: nat) -> Seq<char>
    decreases n,
{
    if n < 10 {
        seq![digit_char(n)]
    } else {
        spec_dec(n / 10).push(digit_char(n % 10))
    }
}

fn digit_text(d: u64) -> (r: &'static str)
    requires
        d < 10,
    ensures
        r@ == seq![digit_char(d as nat)],
{
    let r: &'static str = if d == 0 {
        "0"
    } else if d == 1 {
        "1"
    } else if d == 2 {
        "2"
    } else if d == 3 {
        "3"
    } else if d == 4 {
        "4"
    } else if d == 5 {
        "5"
    } else if d == 6 {
        "6"
    } else if d == 7 {
        "7"
    } else if d == 8 {
        "8"
    } else {
        "9"
    };
    proof {
        reveal_strlit("0");
        reveal_strlit("1");
        reveal_strlit("2");
        reveal_strlit("3");
        reveal_strlit("4");
        reveal_strlit("5");
        reveal_strlit("6");
        reveal_strlit("7");
        reveal_strlit("8");
        reveal_strlit("9");
        assert(r@ =~= seq![digit_char(d as nat)]);
    }
    r
}

/// Appends the decimal spelling of `n`.
fn append_u64(out: &mut String, n: u64)
    ensures
        final(out)@ == old(out)@ + spec_dec(n as nat),
    decreases n,
{
    if n < 10 {
        out.append(digit_text(n));
        proof {
            assert(final(out)@ =~= old(out)@ + spec_dec(n as nat));
        }
    } else {
        append_u64(out, n / 10);
        out.append(digit_text(n % 10));
        proof {
            assert(final(out)@ =~= old(out)@ + spec_dec(n as nat));
        }
    }
}

/// The error-variant name a validator contributes.
pub open spec fn spec_variant(v: Validator) -> Seq<char> {
    match v {
        Validator::MinLen(_) => "TooShort"@,
        Validator::MaxLen(_) => "TooLong"@,
        Validator::NotEmpty => "Empty"@,
        Validator::Min(_) => "TooSmall"@,
        Validator::Max(_) => "TooBig"@,
        Validator::MinFloat(_) => "TooSmall"@,
        Validator::MaxFloat(_) => "TooBig"@,
        Validator::Finite => "NotFinite"@,
        Validator::Custom(_) => "Invalid"@,
    }
}

fn variant_text(v: &Validator) -> (r: &'static str)
    ensures
        r@ == spec_variant(*v),
{
    match v {
        Validator::MinLen(_) => "TooShort",
        Validator::MaxLen(_) => "TooLong",
        Validator::NotEmpty => "Empty",
        Validator::Min(_) => "TooSmall",
        Validator::Max(_) => "TooBig",
        Validator::MinFloat(_) => "TooSmall",
        Validator::MaxFloat(_) => "TooBig",
        Validator::Finite => "NotFinite",
        Validator::Custom(_) => "Invalid",
    }
}

/// One `/// ...` line per doc attribute.
pub open spec fn spec_doc_lines(docs: Seq<String>) -> Seq<char>
    decreases docs.len(),
{
    if docs.len() == 0 {
        Seq::empty()
    } else {
        spec_doc_lines(docs.drop_last()) + "/// "@ + docs.last()@ + "\n"@
    }
}

fn gen_doc_lines(out: &mut String, docs: &Vec<String>)
    ensures
        final(out)@ == old(out)@ + spec_doc_lines(docs@),
{
    let mut i: usize = 0;
    proof {
        assert(out@ =~= out@ + spec_doc_lines(docs@.take(0)));
    }
    while i < docs.len()
        invariant
            0 <= i <= docs@.len(),
            out@ == old(out)@ + spec_doc_lines(docs@.take(i as int)),
        decreases docs@.len() - i,
    {
        out.append("/// ");
        out.append(docs[i].as_str());
        out.append("\n");
        proof {
            assert(docs@.take(i + 1).drop_last() =~= docs@.take(i as int));
            assert(docs@.take(i + 1).last() == docs@[i as int]);
            assert(out@ =~= old(out)@ + spec_doc_lines(docs@.take(i + 1)));
        }
        i = i + 1;
    }
    proof {
        assert(docs@.take(docs@.len() as int) =~= docs@);
    }
}

/// The wrapper declaration.
pub open spec fn spec_struct_decl(vis: Visibility, n: Seq<char>, it: InnerType) -> Seq<char> {
    spec_vis(vis) + "struct "@ + n + "("@ + spec_inner(it) + ");\n"@
}

/// The error type: one variant per validator, emitted only when a
/// validator exists.
pub open spec fn spec_variant_lines(vals: Seq<Validator>) -> Seq<char>
    decreases vals.len(),
{
    if vals.len() == 0 {
        Seq::empty()
    } else {
        spec_variant_lines(vals.drop_last()) + "    "@ + spec_variant(vals.last()) + ",\n"@
    }
}

pub open spec fn spec_error_enum(vis: Visibility, n: Seq<char>, vals: Seq<Validator>) -> Seq<
    char,
> {
    if vals.len() == 0 {
        Seq::empty()
    } else {
        spec_vis(vis) + "enum "@ + n + "Error {\n"@ + spec_variant_lines(vals) + "}\n"@
    }
}

fn gen_error_enum(out: &mut String, vis: Visibility, name: &String, vals: &Vec<Validator>)
    ensures
        final(out)@ == old(out)@ + spec_error_enum(vis, name@, vals@),
{
    if vals.len() == 0 {
        proof {
            assert(out@ =~= out@ + spec_error_enum(vis, name@, vals@));
        }
        return ;
    }
    out.append(vis_text(vis));
    out.append("enum ");
    out.append(name.as_str());
    out.append("Error {\n");
    let ghost mid = out@;
    let mut i: usize = 0;
    proof {
        assert(out@ =~= mid + spec_variant_lines(vals@.take(0)));
    }
    while i < vals.len()
        invariant
            0 <= i <= vals@.len(),
            out@ == mid + spec_variant_lines(vals@.take(i as int)),
        decreases vals@.len() - i,
    {
        out.append("    ");
        out.append(variant_text(&vals[i]));
        out.append(",\n");
        proof {
            assert(vals@.take(i + 1).drop_last() =~= vals@.take(i as int));
            assert(vals@.take(i + 1).last() == vals@[i as int]);
            assert(out@ =~= mid + spec_variant_lines(vals@.take(i + 1)));
        }
        i = i + 1;
    }
    out.append("}\n");
    proof {
        assert(vals@.take(vals@.len() as int) =~= vals@);
        assert(out@ =~= old(out)@ + spec_error_enum(vis, name@, vals@));
    }
}

/// One sanitizer step of the checked constructor.
pub open spec fn spec_san_line(s: Sanitizer) -> Seq<char> {
    match s {
        Sanitizer::Trim => "        value = value.trim().to_string();\n"@,
        Sanitizer::Lowercase => "        value = value.to_lowercase();\n"@,
        Sanitizer::Uppercase => "        value = value.to_uppercase();\n"@,
        Sanitizer::Custom(e) => "        value = ("@ + e@ + ")(value);\n"@,
    }
}

pub open spec fn spec_san_lines(sans: Seq<Sanitizer>) -> Seq<char>
    decreases sans.len(),
{
    if sans.len() == 0 {
        Seq::empty()
    } else {
        spec_san_lines(sans.drop_last()) + spec_san_line(sans.last())
    }
}

fn gen_san_line(out: &mut String, s: &Sanitizer)
    ensures
        final(out)@ == old(out)@ + spec_san_line(*s),
{
    match s {
        Sanitizer::Trim => {
            out.append("        value = value.trim().to_string();\n");
        },
        Sanitizer::Lowercase => {
            out.append("        value = value.to_lowercase();\n");
        },
        Sanitizer::Uppercase => {
            out.append("        value = value.to_uppercase();\n");
        },
        Sanitizer::Custom(e) => {
            out.append("        value = (");
            out.append(e.as_str());
            out.append(")(value);\n");
            proof {
                assert(final(out)@ =~= old(out)@ + spec_san_line(*s));
            }
        },
    }
}

/// One validator step of the checked constructor: the test, and the error
/// variant returned when it rejects.
pub open spec fn spec_val_line(v: Validator, n: Seq<char>) -> Seq<char> {
    match v {
        Validator::MinLen(b) => "        if value.len() < "@ + spec_dec(b as nat)
            + " { return Err("@ + n + "Error::TooShort); }\n"@,
        Validator::MaxLen(b) => "        if value.len() > "@ + spec_dec(b as nat)
            + " { return Err("@ + n + "Error::TooLong); }\n"@,
        Validator::NotEmpty => "        if value.is_empty() { return Err("@ + n
            + "Error::Empty); }\n"@,
        Validator::Min(l) => "        if value < "@ + l.text@ + " { return Err("@ + n
            + "Error::TooSmall); }\n"@,
        Validator::Max(l) => "        if value > "@ + l.text@ + " { return Err("@ + n
            + "Error::TooBig); }\n"@,
        Validator::MinFloat(l) => "        if value < "@ + l.text@ + " { return Err("@ + n
            + "Error::TooSmall); }\n"@,
        Validator::MaxFloat(l) => "        if value > "@ + l.text@ + " { return Err("@ + n
            + "Error::TooBig); }\n"@,
        Validator::Finite => "        if !value.is_finite() { return Err("@ + n
            + "Error::NotFinite); }\n"@,
        Validator::Custom(e) => "        if !("@ + e@ + ")(&value) { return Err("@ + n
            + "Error::Invalid); }\n"@,
    }
}

pub open spec fn spec_val_lines(vals: Seq<Validator>, n: Seq<char>) -> Seq<char>
    decreases vals.len(),
{
    if vals.len() == 0 {
        Seq::empty()
    } else {
        spec_val_lines(vals.drop_last(), n) + spec_val_line(vals.last(), n)
    }
}

fn gen_val_line(out: &mut String, v: &Validator, name: &String)
    ensures
        final(out)@ == old(out)@ + spec_val_line(*v, name@),
{
    match v {
        Validator::MinLen(b) => {
            out.append("        if value.len() < ");
            append_u64(out, *b);
            out.append(" { return Err(");
            out.append(name.as_str());
            out.append("Error::TooShort); }\n");
        },
        Validator::MaxLen(b) => {
            out.append("        if value.len() > ");
            append_u64(out, *b);
            out.append(" { return Err(");
            out.append(name.as_str());
            out.append("Error::TooLong); }\n");
        },
        Validator::NotEmpty => {
            out.append("        if value.is_empty() { return Err(");
            out.append(name.as_str());
            out.append("Error::Empty); }\n");
        },
        Validator::Min(l) => {
            out.append("        if value < ");
            out.append(l.text.as_str());
            out.append(" { return Err(");
            out.append(name.as_str());
            out.append("Error::TooSmall); }\n");
        },
        Validator::Max(l) => {
            out.append("        if value > ");
            out.append(l.text.as_str());
            out.append(" { return Err(");
            out.append(name.as_str());
            out.append("Error::TooBig); }\n");
        },
        Validator::MinFloat(l) => {
            out.append("        if value < ");
            out.append(l.text.as_str());
            out.append(" { return Err(");
            out.append(name.as_str());
            out.append("Error::TooSmall); }\n");
        },
        Validator::MaxFloat(l) => {
            out.append("        if value > ");
            out.append(l.text.as_str());
            out.append(" { return Err(");
            out.append(name.as_str());
            out.append("Error::TooBig); }\n");
        },
        Validator::Finite => {
            out.append("        if !value.is_finite() { return Err(");
            out.append(name.as_str());
            out.append("Error::NotFinite); }\n");
        },
        Validator::Custom(e) => {
            out.append("        if !(");
            out.append(e.as_str());
            out.append(")(&value) { return Err(");
            out.append(name.as_str());
            out.append("Error::Invalid); }\n");
        },
    }
    proof {
        assert(final(out)@ =~= old(out)@ + spec_val_line(*v, name@));
    }
}

/// The checked constructor: every sanitizer in order, then every validator
/// in order, short-circuiting on the first rejection; fallible only when a
/// validator exists.
pub open spec fn spec_new_fn(
    vis: Visibility,
    n: Seq<char>,
    it: InnerType,
    sans: Seq<Sanitizer>,
    vals: Seq<Validator>,
) -> Seq<char> {
    if vals.len() > 0 {
        "    "@ + spec_vis(vis) + "fn new(raw_value: "@ + spec_inner(it) + ") -> Result<"@ + n
            + ", "@ + n + "Error> {\n        let mut value = raw_value;\n"@ + spec_san_lines(sans)
            + spec_val_lines(vals, n) + "        Ok("@ + n + "(value))\n    }\n"@
    } else {
        "    "@ + spec_vis(vis) + "fn new(raw_value: "@ + spec_inner(it) + ") -> "@ + n
            + " {\n        let mut value = raw_value;\n"@ + spec_san_lines(sans) + "        "@
            + n + "(value)\n    }\n"@
    }
}

fn gen_new_fn(out: &mut String, vis: Visibility, name: &String, it: InnerType, g: &Guard)
    ensures
        final(out)@ == old(out)@ + spec_new_fn(vis, name@, it, g.sanitizers@, g.validators@),
{
    out.append("    ");
    out.append(vis_text(vis));
    out.append("fn new(raw_value: ");
    out.append(inner_text(it));
    if g.has_validation() {
        out.append(") -> Result<");
        out.append(name.as_str());
        out.append(", ");
        out.append(name.as_str());
        out.append("Error> {\n        let mut value = raw_value;\n");
    } else {
        out.append(") -> ");
        out.append(name.as_str());
        out.append(" {\n        let mut value = raw_value;\n");
    }
    let ghost mid = out@;
    let mut i: usize = 0;
    proof {
        assert(out@ =~= mid + spec_san_lines(g.sanitizers@.take(0)));
    }
    while i < g.sanitizers.len()
        invariant
            0 <= i <= g.sanitizers@.len(),
            out@ == mid + spec_san_lines(g.sanitizers@.take(i as int)),
        decreases g.sanitizers@.len() - i,
    {
        gen_san_line(out, &g.sanitizers[i]);
        proof {
            assert(g.sanitizers@.take(i + 1).drop_last() =~= g.sanitizers@.take(i as int));
            assert(g.sanitizers@.take(i + 1).last() == g.sanitizers@[i as int]);
            assert(out@ =~= mid + spec_san_lines(g.sanitizers@.take(i + 1)));
        }
        i = i + 1;
    }
    proof {
        assert(g.sanitizers@.take(g.sanitizers@.len() as int) =~= g.sanitizers@);
    }
    if g.has_validation() {
        let ghost mid2 = out@;
        let mut j: usize = 0;
        proof {
            assert(out@ =~= mid2 + spec_val_lines(g.validators@.take(0), name@));
        }
        while j < g.validators.len()
            invariant
                0 <= j <= g.validators@.len(),
                out@ == mid2 + spec_val_lines(g.validators@.take(j as int), name@),
            decreases g.validators@.len() - j,
        {
            gen_val_line(out, &g.validators[j], name);
            proof {
                assert(g.validators@.take(j + 1).drop_last() =~= g.validators@.take(j as int));
                assert(g.validators@.take(j + 1).last() == g.validators@[j as int]);
                assert(out@ =~= mid2 + spec_val_lines(g.validators@.take(j + 1), name@));
            }
            j = j + 1;
        }
        proof {
            assert(g.validators@.take(g.validators@.len() as int) =~= g.validators@);
        }
        out.append("        Ok(");
        out.append(name.as_str());
        out.append("(value))\n    }\n");
    } else {
        out.append("        ");
        out.append(name.as_str());
        out.append("(value)\n    }\n");
    }
    proof {
        assert(final(out)@ =~= old(out)@ + spec_new_fn(
            vis,
            name@,
            it,
            g.sanitizers@,
            g.validators@,
        ));
    }
}

/// The unchecked constructor: stores its input verbatim; no sanitizer and
/// no validator is applied, whatever the guard holds.
pub open spec fn spec_unchecked_fn(vis: Visibility, n: Seq<char>, it: InnerType) -> Seq<char> {
    "    "@ + spec_vis(vis) + "fn new_unchecked(value: "@ + spec_inner(it) + ") -> "@ + n
        + " {\n        "@ + n + "(value)\n    }\n"@
}

fn gen_unchecked_fn(out: &mut String, vis: Visibility, name: &String, it: InnerType)
    ensures
        final(out)@ == old(out)@ + spec_unchecked_fn(vis, name@, it),
{
    out.append("    ");
    out.append(vis_text(vis));
    out.append("fn new_unchecked(value: ");
    out.append(inner_text(it));
    out.append(") -> ");
    out.append(name.as_str());
    out.append(" {\n        ");
    out.append(name.as_str());
    out.append("(value)\n    }\n");
    proof {
        assert(final(out)@ =~= old(out)@ + spec_unchecked_fn(vis, name@, it));
    }
}

/// The accessor handing the inner value out.
pub open spec fn spec_into_inner_fn(vis: Visibility, it: InnerType) -> Seq<char> {
    "    "@ + spec_vis(vis) + "fn into_inner(self) -> "@ + spec_inner(it)
        + " {\n        self.0\n    }\n"@
}

fn gen_into_inner_fn(out: &mut String, vis: Visibility, it: InnerType)
    ensures
        final(out)@ == old(out)@ + spec_into_inner_fn(vis, it),
{
    out.append("    ");
    out.append(vis_text(vis));
    out.append("fn into_inner(self) -> ");
    out.append(inner_text(it));
    out.append(" {\n        self.0\n    }\n");
    proof {
        assert(final(out)@ =~= old(out)@ + spec_into_inner_fn(vis, it));
    }
}

/// The default expression spliced into a default-trait implementation; the
/// validator admits that trait only when one was supplied.
pub open spec fn spec_default_expr(o: Option<Spanned<String>>) -> Seq<char> {
    match o {
        Option::Some(d) => d.item@,
        Option::None => Seq::empty(),
    }
}

/// One implementation block per approved trait, delegating structurally to
/// the inner primitive, or splicing the supplied default expression for
/// the default-producing trait.
pub open spec fn spec_trait_impl(
    t: DeriveTrait,
    n: Seq<char>,
    it: InnerType,
    hasval: bool,
    dflt: Seq<char>,
) -> Seq<char> {
    let inner = spec_inner(it);
    match t {
        DeriveTrait::Debug => "impl core::fmt::Debug for "@ + n
            + " { fn fmt(&self, f: &mut core::fmt::Formatter) -> core::fmt::Result { self.0.fmt(f) } }\n"@,
        DeriveTrait::Display => "impl core::fmt::Display for "@ + n
            + " { fn fmt(&self, f: &mut core::fmt::Formatter) -> core::fmt::Result { self.0.fmt(f) } }\n"@,
        DeriveTrait::Clone => "impl Clone for "@ + n + " { fn clone(&self) -> Self { "@ + n
            + "(self.0.clone()) } }\n"@,
        DeriveTrait::Copy => "impl Copy for "@ + n + " {}\n"@,
        DeriveTrait::PartialEq => "impl PartialEq for "@ + n
            + " { fn eq(&self, other: &Self) -> bool { self.0 == other.0 } }\n"@,
        DeriveTrait::Eq => "impl Eq for "@ + n + " {}\n"@,
        DeriveTrait::PartialOrd => "impl PartialOrd for "@ + n
            + " { fn partial_cmp(&self, other: &Self) -> Option<core::cmp::Ordering> { self.0.partial_cmp(&other.0) } }\n"@,
        DeriveTrait::Ord => {
            if it is Float {
                "impl Ord for "@ + n
                    + " { fn cmp(&self, other: &Self) -> core::cmp::Ordering { self.partial_cmp(other).unwrap() } }\n"@
            } else {
                "impl Ord for "@ + n
                    + " { fn cmp(&self, other: &Self) -> core::cmp::Ordering { self.0.cmp(&other.0) } }\n"@
            }
        },
        DeriveTrait::Hash => "impl core::hash::Hash for "@ + n
            + " { fn hash<H: core::hash::Hasher>(&self, state: &mut H) { self.0.hash(state) } }\n"@,
        DeriveTrait::Default => "impl Default for "@ + n + " { fn default() -> Self { "@ + n + "("@
            + dflt + ") } }\n"@,
        DeriveTrait::FromStr => "impl core::str::FromStr for "@ + n
            + " { type Err = (); fn from_str(raw: &str) -> Result<Self, ()> { match raw.parse::<"@
            + inner + ">() { Ok(value) => Ok("@ + n + "::new(value)), Err(_) => Err(()) } } }\n"@,
        DeriveTrait::AsRef => "impl AsRef<"@ + inner + "> for "@ + n + " { fn as_ref(&self) -> &"@
            + inner + " { &self.0 } }\n"@,
        DeriveTrait::Borrow => "impl core::borrow::Borrow<"@ + inner + "> for "@ + n
            + " { fn borrow(&self) -> &"@ + inner + " { &self.0 } }\n"@,
        DeriveTrait::From => "impl From<"@ + inner + "> for "@ + n + " { fn from(value: "@ + inner
            + ") -> Self { "@ + n + "::new(value) } }\n"@,
        DeriveTrait::TryFrom => {
            if hasval {
                "impl TryFrom<"@ + inner + "> for "@ + n + " { type Error = "@ + n
                    + "Error; fn try_from(value: "@ + inner + ") -> Result<Self, Self::Error> { "@
                    + n + "::new(value) } }\n"@
            } else {
                "impl TryFrom<"@ + inner + "> for "@ + n
                    + " { type Error = core::convert::Infallible; fn try_from(value: "@ + inner
                    + ") -> Result<Self, Self::Error> { Ok("@ + n + "::new(value)) } }\n"@
            }
        },
        DeriveTrait::Into => "impl From<"@ + n + "> for "@ + inner + " { fn from(value: "@ + n
            + ") -> "@ + inner + " { value.0 } }\n"@,
        DeriveTrait::Add => "impl core::ops::Add for "@ + n + " { type Output = Self; fn "@ + "add"@
            + "(self, rhs: Self) -> Self { "@ + n + "(self.0 + rhs.0) } }\n"@,
        DeriveTrait::Sub => "impl core::ops::Sub for "@ + n + " { type Output = Self; fn "@ + "sub"@
            + "(self, rhs: Self) -> Self { "@ + n + "(self.0 - rhs.0) } }\n"@,
        DeriveTrait::Mul => "impl core::ops::Mul for "@ + n + " { type Output = Self; fn "@ + "mul"@
            + "(self, rhs: Self) -> Self { "@ + n + "(self.0 * rhs.0) } }\n"@,
        DeriveTrait::Div => "impl core::ops::Div for "@ + n + " { type Output = Self; fn "@ + "div"@
            + "(self, rhs: Self) -> Self { "@ + n + "(self.0 / rhs.0) } }\n"@,
    }
}

pub open spec fn spec_trait_impls(
    ts: Seq<DeriveTrait>,
    n: Seq<char>,
    it: InnerType,
    hasval: bool,
    dflt: Seq<char>,
) -> Seq<char>
    decreases ts.len(),
{
    if ts.len() == 0 {
        Seq::empty()
    } else {
        spec_trait_impls(ts.drop_last(), n, it, hasval, dflt) + spec_trait_impl(
            ts.last(),
            n,
            it,
            hasval,
            dflt,
        )
    }
}

#[verifier::rlimit(100)]
fn gen_trait_impl_head(
    out: &mut String,
    t: DeriveTrait,
    name: &String,
    it: InnerType,
    hasval: bool,
    dflt: &String,
)
    requires
        t is Debug || t is Display || t is Clone || t is Copy || t is PartialEq || t is Eq
            || t is PartialOrd || t is Ord || t is Hash || t is Default,
    ensures
        final(out)@ == old(out)@ + spec_trait_impl(t, name@, it, hasval, dflt@),
{
    let inner = inner_text(it);
    match t {
        DeriveTrait::Debug => {
            out.append("impl core::fmt::Debug for ");
            out.append(name.as_str());
            out.append(
                " { fn fmt(&self, f: &mut core::fmt::Formatter) -> core::fmt::Result { self.0.fmt(f) } }\n",
            );
            proof {
                assert(out@ =~= old(out)@ + spec_trait_impl(t, name@, it, hasval, dflt@));
            }
        },
        DeriveTrait::Display => {
            out.append("impl core::fmt::Display for ");
            out.append(name.as_str());
            out.append(
                " { fn fmt(&self, f: &mut core::fmt::Formatter) -> core::fmt::Result { self.0.fmt(f) } }\n",
            );
            proof {
                assert(out@ =~= old(out)@ + spec_trait_impl(t, name@, it, hasval, dflt@));
            }
        },
        DeriveTrait::Clone => {
            out.append("impl Clone for ");
            out.append(name.as_str());
            out.append(" { fn clone(&self) -> Self { ");
            out.append(name.as_str());
            out.append("(self.0.clone()) } }\n");
            proof {
                assert(out@ =~= old(out)@ + spec_trait_impl(t, name@, it, hasval, dflt@));
            }
        },
        DeriveTrait::Copy => {
            out.append("impl Copy for ");
            out.append(name.as_str());
            out.append(" {}\n");
            proof {
                assert(out@ =~= old(out)@ + spec_trait_impl(t, name@, it, hasval, dflt@));
            }
        },
        DeriveTrait::PartialEq => {
            out.append("impl PartialEq for ");
            out.append(name.as_str());
            out.append(" { fn eq(&self, other: &Self) -> bool { self.0 == other.0 } }\n");
            proof {
                assert(out@ =~= old(out)@ + spec_trait_impl(t, name@, it, hasval, dflt@));
            }
        },
        DeriveTrait::Eq => {
            out.append("impl Eq for ");
            out.append(name.as_str());
            out.append(" {}\n");
            proof {
                assert(out@ =~= old(out)@ + spec_trait_impl(t, name@, it, hasval, dflt@));
            }
        },
        DeriveTrait::PartialOrd => {
            out.append("impl PartialOrd for ");
            out.append(name.as_str());
            out.append(
                " { fn partial_cmp(&self, other: &Self) -> Option<core::cmp::Ordering> { self.0.partial_cmp(&other.0) } }\n",
            );
            proof {
                assert(out@ =~= old(out)@ + spec_trait_impl(t, name@, it, hasval, dflt@));
            }
        },
        DeriveTrait::Ord => {
            let float = match it {
                InnerType::Float(_) => true,
                _ => false,
            };
            out.append("impl Ord for ");
            out.append(name.as_str());
            if float {
                out.append(
                    " { fn cmp(&self, other: &Self) -> core::cmp::Ordering { self.partial_cmp(other).unwrap() } }\n",
                );
            } else {
                out.append(
                    " { fn cmp(&self, other: &Self) -> core::cmp::Ordering { self.0.cmp(&other.0) } }\n",
                );
            }
            proof {
                assert(out@ =~= old(out)@ + spec_trait_impl(t, name@, it, hasval, dflt@));
            }
        },
        DeriveTrait::Hash => {
            out.append("impl core::hash::Hash for ");
            out.append(name.as_str());
            out.append(
                " { fn hash<H: core::hash::Hasher>(&self, state: &mut H) { self.0.hash(state) } }\n",
            );
            proof {
                assert(out@ =~= old(out)@ + spec_trait_impl(t, name@, it, hasval, dflt@));
            }
        },
        DeriveTrait::Default => {
            out.append("impl Default for ");
            out.append(name.as_str());
            out.append(" { fn default() -> Self { ");
            out.append(name.as_str());
            out.append("(");
            out.append(dflt.as_str());
            out.append(") } }\n");
            proof {
                assert(out@ =~= old(out)@ + spec_trait_impl(t, name@, it, hasval, dflt@));
            }
        },
        _ => {
            proof {
                assert(false);
            }
        },
    }
}

#[verifier::rlimit(100)]
fn gen_trait_impl_tail(
    out: &mut String,
    t: DeriveTrait,
    name: &String,
    it: InnerType,
    hasval: bool,
    dflt: &String,
)
    requires
        t is FromStr || t is AsRef || t is Borrow || t is From || t is TryFrom || t is Into
            || t is Add || t is Sub || t is Mul || t is Div,
    ensures
        final(out)@ == old(out)@ + spec_trait_impl(t, name@, it, hasval, dflt@),
{
    let inner = inner_text(it);
    match t {
        DeriveTrait::FromStr => {
            out.append("impl core::str::FromStr for ");
            out.append(name.as_str());
            out.append(
                " { type Err = (); fn from_str(raw: &str) -> Result<Self, ()> { match raw.parse::<",
            );
            out.append(inner);
            out.append(">() { Ok(value) => Ok(");
            out.append(name.as_str());
            out.append("::new(value)), Err(_) => Err(()) } } }\n");
            proof {
                assert(out@ =~= old(out)@ + spec_trait_impl(t, name@, it, hasval, dflt@));
            }
        },
        DeriveTrait::AsRef => {
            out.append("impl AsRef<");
            out.append(inner);
            out.append("> for ");
            out.append(name.as_str());
            out.append(" { fn as_ref(&self) -> &");
            out.append(inner);
            out.append(" { &self.0 } }\n");
            proof {
                assert(out@ =~= old(out)@ + spec_trait_impl(t, name@, it, hasval, dflt@));
            }
        },
        DeriveTrait::Borrow => {
            out.append("impl core::borrow::Borrow<");
            out.append(inner);
            out.append("> for ");
            out.append(name.as_str());
            out.append(" { fn borrow(&self) -> &");
            out.append(inner);
            out.append(" { &self.0 } }\n");
            proof {
                assert(out@ =~= old(out)@ + spec_trait_impl(t, name@, it, hasval, dflt@));
            }
        },
        DeriveTrait::From => {
            out.append("impl From<");
            out.append(inner);
            out.append("> for ");
            out.append(name.as_str());
            out.append(" { fn from(value: ");
            out.append(inner);
            out.append(") -> Self { ");
            out.append(name.as_str());
            out.append("::new(value) } }\n");
            proof {
                assert(out@ =~= old(out)@ + spec_trait_impl(t, name@, it, hasval, dflt@));
            }
        },
        DeriveTrait::TryFrom => {
            out.append("impl TryFrom<");
            out.append(inner);
            out.append("> for ");
            out.append(name.as_str());
            if hasval {
                out.append(" { type Error = ");
                out.append(name.as_str());
                out.append("Error; fn try_from(value: ");
                out.append(inner);
                out.append(") -> Result<Self, Self::Error> { ");
                out.append(name.as_str());
                out.append("::new(value) } }\n");
            } else {
                out.append(" { type Error = core::convert::Infallible; fn try_from(value: ");
                out.append(inner);
                out.append(") -> Result<Self, Self::Error> { Ok(");
                out.append(name.as_str());
                out.append("::new(value)) } }\n");
            }
            proof {
                assert(out@ =~= old(out)@ + spec_trait_impl(t, name@, it, hasval, dflt@));
            }
        },
        DeriveTrait::Into => {
            out.append("impl From<");
            out.append(name.as_str());
            out.append("> for ");
            out.append(inner);
            out.append(" { fn from(value: ");
            out.append(name.as_str());
            out.append(") -> ");
            out.append(inner);
            out.append(" { value.0 } }\n");
            proof {
                assert(out@ =~= old(out)@ + spec_trait_impl(t, name@, it, hasval, dflt@));
            }
        },
        DeriveTrait::Add => {
            out.append("impl core::ops::Add for ");
            out.append(name.as_str());
            out.append(" { type Output = Self; fn ");
            out.append("add");
            out.append("(self, rhs: Self) -> Self { ");
            out.append(name.as_str());
            out.append("(self.0 + rhs.0) } }\n");
            proof {
                assert(out@ =~= old(out)@ + spec_trait_impl(t, name@, it, hasval, dflt@));
            }
        },
        DeriveTrait::Sub => {
            out.append("impl core::ops::Sub for ");
            out.append(name.as_str());
            out.append(" { type Output = Self; fn ");
            out.append("sub");
            out.append("(self, rhs: Self) -> Self { ");
            out.append(name.as_str());
            out.append("(self.0 - rhs.0) } }\n");
            proof {
                assert(out@ =~= old(out)@ + spec_trait_impl(t, name@, it, hasval, dflt@));
            }
        },
        DeriveTrait::Mul => {
            out.append("impl core::ops::Mul for ");
            out.append(name.as_str());
            out.append(" { type Output = Self; fn ");
            out.append("mul");
            out.append("(self, rhs: Self) -> Self { ");
            out.append(name.as_str());
            out.append("(self.0 * rhs.0) } }\n");
            proof {
                assert(out@ =~= old(out)@ + spec_trait_impl(t, name@, it, hasval, dflt@));
            }
        },
        DeriveTrait::Div => {
            out.append("impl core::ops::Div for ");
            out.append(name.as_str());
            out.append(" { type Output = Self; fn ");
            out.append("div");
            out.append("(self, rhs: Self) -> Self { ");
            out.append(name.as_str());
            out.append("(self.0 / rhs.0) } }\n");
            proof {
                assert(out@ =~= old(out)@ + spec_trait_impl(t, name@, it, hasval, dflt@));
            }
        },
        _ => {
            proof {
                assert(false);
            }
        },
    }
}

fn gen_trait_impl(
    out: &mut String,
    t: DeriveTrait,
    name: &String,
    it: InnerType,
    hasval: bool,
    dflt: &String,
)
    ensures
        final(out)@ == old(out)@ + spec_trait_impl(t, name@, it, hasval, dflt@),
{
    match t {
        DeriveTrait::Debug | DeriveTrait::Display | DeriveTrait::Clone | DeriveTrait::Copy
            | DeriveTrait::PartialEq | DeriveTrait::Eq | DeriveTrait::PartialOrd
            | DeriveTrait::Ord | DeriveTrait::Hash | DeriveTrait::Default => {
            gen_trait_impl_head(out, t, name, it, hasval, dflt);
        },
        _ => {
            gen_trait_impl_tail(out, t, name, it, hasval, dflt);
        },
    }
}

/// Everything of the artifact that precedes the optional unchecked
/// constructor.
pub open spec fn spec_gen_before_parts(
    docs: Seq<String>,
    vis: Visibility,
    n: Seq<char>,
    it: InnerType,
    sans: Seq<Sanitizer>,
    vals: Seq<Validator>,
) -> Seq<char> {
    spec_doc_lines(docs) + spec_struct_decl(vis, n, it) + spec_error_enum(vis, n, vals) + "impl "@
        + n + " {\n"@ + spec_new_fn(vis, n, it, sans, vals)
}

/// Everything of the artifact that follows the optional unchecked
/// constructor.
pub open spec fn spec_gen_after_parts(
    vis: Visibility,
    n: Seq<char>,
    it: InnerType,
    hasval: bool,
    dflt: Option<Spanned<String>>,
    traits: Seq<DeriveTrait>,
) -> Seq<char> {
    spec_into_inner_fn(vis, it) + "}\n"@ + spec_trait_impls(
        traits,
        n,
        it,
        hasval,
        spec_default_expr(dflt),
    )
}

/// The whole generated artifact from its parts. The unchecked constructor
/// stands in the middle exactly when the request opted in.
pub open spec fn spec_generate_parts(
    docs: Seq<String>,
    vis: Visibility,
    n: Seq<char>,
    it: InnerType,
    sans: Seq<Sanitizer>,
    vals: Seq<Validator>,
    nu: NewUnchecked,
    dflt: Option<Spanned<String>>,
    traits: Seq<DeriveTrait>,
) -> Seq<char> {
    spec_gen_before_parts(docs, vis, n, it, sans, vals) + (
    match nu {
        NewUnchecked::On(_) => spec_unchecked_fn(vis, n, it),
        NewUnchecked::Off => Seq::empty(),
    }) + spec_gen_after_parts(vis, n, it, vals.len() > 0, dflt, traits)
}

/// Everything of the artifact that precedes the optional unchecked
/// constructor.
pub open spec fn spec_gen_before_unchecked(p: GenerateParams) -> Seq<char> {
    spec_gen_before_parts(
        p.doc_attrs@,
        p.vis,
        p.ty_name.name@,
        p.inner_type,
        p.guard.sanitizers@,
        p.guard.validators@,
    )
}

/// Everything of the artifact that follows the optional unchecked
/// constructor.
pub open spec fn spec_gen_after_unchecked(p: GenerateParams) -> Seq<char> {
    spec_gen_after_parts(
        p.vis,
        p.ty_name.name@,
        p.inner_type,
        p.guard.spec_has_validation(),
        p.maybe_default_value,
        p.traits@,
    )
}

/// The whole generated artifact. The unchecked constructor stands in the
/// middle exactly when the request opted in.
pub open spec fn spec_generate(p: GenerateParams) -> Seq<char> {
    spec_generate_parts(
        p.doc_attrs@,
        p.vis,
        p.ty_name.name@,
        p.inner_type,
        p.guard.sanitizers@,
        p.guard.validators@,
        p.new_unchecked,
        p.maybe_default_value,
        p.traits@,
    )
}

/// Emits the wrapper's source text. The output is exactly
/// `spec_generate(*p)`: a pure function of the validated parameters, so
/// repeated generation from equal parameters is byte-identical.
#[verifier::rlimit(100)]
pub fn generate(p: &GenerateParams) -> (out: String)
    ensures
        out@ == spec_generate(*p),
{
    let mut out = String::new();
    gen_doc_lines(&mut out, &p.doc_attrs);
    out.append(vis_text(p.vis));
    out.append("struct ");
    out.append(p.ty_name.name.as_str());
    out.append("(");
    out.append(inner_text(p.inner_type));
    out.append(");\n");
    gen_error_enum(&mut out, p.vis, &p.ty_name.name, &p.guard.validators);
    out.append("impl ");
    out.append(p.ty_name.name.as_str());
    out.append(" {\n");
    gen_new_fn(&mut out, p.vis, &p.ty_name.name, p.inner_type, &p.guard);
    proof {
        assert(out@ =~= spec_gen_before_unchecked(*p));
    }
    match p.new_unchecked {
        NewUnchecked::On(_) => {
            gen_unchecked_fn(&mut out, p.vis, &p.ty_name.name, p.inner_type);
        },
        NewUnchecked::Off => {},
    }
    gen_into_inner_fn(&mut out, p.vis, p.inner_type);
    out.append("}\n");
    let dflt = match &p.maybe_default_value {
        Some(d) => d.item.clone(),
        None => String::new(),
    };
    proof {
        assert(dflt@ == spec_default_expr(p.maybe_default_value));
    }
    let ghost mid = out@;
    let hasval = p.guard.has_validation();
    let mut i: usize = 0;
    proof {
        assert(out@ =~= mid + spec_trait_impls(
            p.traits@.take(0),
            p.ty_name.name@,
            p.inner_type,
            hasval,
            dflt@,
        ));
    }
    while i < p.traits.len()
        invariant
            0 <= i <= p.traits@.len(),
            hasval == p.guard.spec_has_validation(),
            out@ == mid + spec_trait_impls(
                p.traits@.take(i as int),
                p.ty_name.name@,
                p.inner_type,
                hasval,
                dflt@,
            ),
        decreases p.traits@.len() - i,
    {
        gen_trait_impl(&mut out, p.traits[i], &p.ty_name.name, p.inner_type, hasval, &dflt);
        proof {
            assert(p.traits@.take(i + 1).drop_last() =~= p.traits@.take(i as int));
            assert(p.traits@.take(i + 1).last() == p.traits@[i as int]);
            assert(out@ =~= mid + spec_trait_impls(
                p.traits@.take(i + 1),
                p.ty_name.name@,
                p.inner_type,
                hasval,
                dflt@,
            ));
        }
        i = i + 1;
    }
    proof {
        assert(p.traits@.take(p.traits@.len() as int) =~= p.traits@);
        assert(out@ =~= spec_generate(*p));
    }
    out
}

/// With the unchecked constructor requested, the artifact holds it,
/// verbatim between the fixed prefix and suffix; without the request it is
/// absent and the artifact is the prefix and suffix alone.
pub proof fn lemma_unchecked_bypass_emitted(p: GenerateParams)
    ensures
        p.new_unchecked is On ==> spec_generate(p) == spec_gen_before_unchecked(p)
            + spec_unchecked_fn(p.vis, p.ty_name.name@, p.inner_type) + spec_gen_after_unchecked(p),
        p.new_unchecked is Off ==> spec_generate(p) == spec_gen_before_unchecked(p)
            + spec_gen_after_unchecked(p),
{
    if p.new_unchecked is Off {
        assert(spec_generate(p) =~= spec_gen_before_unchecked(p) + spec_gen_after_unchecked(p));
    }
}

/// A supplied default value without an approved default-producing trait
/// has no effect on generation: two parameter bundles that differ only in
/// the default expression generate identical text.
pub proof fn lemma_default_without_trait_no_effect(p1: GenerateParams, p2: GenerateParams)
    requires
        p1.doc_attrs@ == p2.doc_attrs@,
        p1.traits@ == p2.traits@,
        p1.vis == p2.vis,
        p1.ty_name.name@ == p2.ty_name.name@,
        p1.inner_type == p2.inner_type,
        p1.guard.sanitizers@ == p2.guard.sanitizers@,
        p1.guard.validators@ == p2.guard.validators@,
        p1.new_unchecked == p2.new_unchecked,
        !p1.traits@.contains(DeriveTrait::Default),
    ensures
        spec_generate(p1) == spec_generate(p2),
{
    lemma_trait_impls_ignore_default(
        p1.traits@,
        p1.ty_name.name@,
        p1.inner_type,
        p1.guard.spec_has_validation(),
        spec_default_expr(p1.maybe_default_value),
        spec_default_expr(p2.maybe_default_value),
    );
    assert(spec_generate(p1) =~= spec_generate(p2));
}

/// Only the default-producing trait's implementation reads the default
/// expression.
proof fn lemma_trait_impls_ignore_default(
    ts: Seq<DeriveTrait>,
    n: Seq<char>,
    it: InnerType,
    hasval: bool,
    d1: Seq<char>,
    d2: Seq<char>,
)
    requires
        !ts.contains(DeriveTrait::Default),
    ensures
        spec_trait_impls(ts, n, it, hasval, d1) == spec_trait_impls(ts, n, it, hasval, d2),
    decreases ts.len(),
{
    if ts.len() > 0 {
        assert(!ts.drop_last().contains(DeriveTrait::Default)) by {
            if ts.drop_last().contains(DeriveTrait::Default) {
                let w = choose|w: int|
                    0 <= w < ts.drop_last().len() && ts.drop_last()[w] == DeriveTrait::Default;
                assert(ts[w] == DeriveTrait::Default);
            }
        }
        lemma_trait_impls_ignore_default(ts.drop_last(), n, it, hasval, d1, d2);
        assert(ts.last() != DeriveTrait::Default) by {
            assert(ts[ts.len() - 1] == ts.last());
        }
    }
}

} // verus!
