//! Generator of constrained newtype wrappers.
//!
//! Given a structured description of a wrapper type over a primitive
//! (string, integer or float) and a stream of configuration tokens, the
//! crate parses the configuration into a [`models::Guard`] (ordered
//! sanitizers followed by validators), decides which requested derived
//! traits are compatible with that guard, and emits the full source text
//! of the wrapper type: a checked constructor, an optional unchecked
//! constructor, an error type with one variant per validator, and one
//! implementation block per approved trait.
//!
//! The pipeline is a straight line — dispatch, parse, validate, generate —
//! with no state across invocations: the first error anywhere aborts the
//! expansion, and the whole result is a pure function of the request, as
//! [`spec_expand`] states it.

pub mod construct;
pub mod generate;
pub mod literal;
pub mod models;
pub mod parse;
pub mod span;
pub mod validate;

use vstd::prelude::*;
use crate::generate::{generate, spec_generate_parts};
use crate::models::{Attributes, Error, FloatInnerType, GenerateParams, InnerType,
    IntegerInnerType, NewtypeMeta, SpannedTraitRequest, TypeName, Visibility, seq_has_finite};
use crate::parse::{parse_attributes, spec_parse_attributes, Tok};
use crate::validate::{spec_validate, validate_derive_traits};

verus! {

/// The spec-level value of an expansion result.
pub open spec fn expand_result_view(r: Result<String, Error>) -> Result<Seq<char>, Error> {
    match r {
        Result::Ok(s) => Result::Ok(s@),
        Result::Err(e) => Result::Err(e),
    }
}

/// What one whole expansion yields, from the request's parts: the
/// configuration parsed into a guard, the requested traits validated
/// against its shape, and the artifact generated from the validated
/// bundle; the first error of any stage is the expansion's error.
pub open spec fn spec_expand_parts(
    family: InnerType,
    docs: Seq<String>,
    vis: Visibility,
    tn: TypeName,
    reqs: Seq<SpannedTraitRequest>,
    toks: Seq<Tok>,
) -> Result<Seq<char>, Error> {
    match spec_parse_attributes(family, toks) {
        Result::Err(e) => Result::Err(e),
        Result::Ok(t) => {
            match spec_validate(family, reqs, t.1.len() > 0, t.3 is Some, seq_has_finite(t.1)) {
                Result::Err(e) => Result::Err(e),
                Result::Ok(traits) => Result::Ok(
                    spec_generate_parts(docs, vis, tn.name@, family, t.0, t.1, t.2, t.3, traits),
                ),
            }
        },
    }
}

/// What expanding a whole request yields. Expansion is a pure function of
/// the request and its configuration tokens: equal requests yield
/// byte-identical artifacts.
pub open spec fn spec_expand(meta: NewtypeMeta, toks: Seq<Tok>) -> Result<Seq<char>, Error> {
    spec_expand_parts(
        meta.inner_type,
        meta.doc_attrs@,
        meta.vis,
        meta.ty_name,
        meta.derive_traits@,
        toks,
    )
}

/// One family pipeline: parse the configuration at this family (and, for
/// numeric families, at this width), validate the requested traits against
/// the guard's shape, and generate the artifact.
fn expand_family(
    family: InnerType,
    doc_attrs: Vec<String>,
    vis: Visibility,
    ty_name: TypeName,
    derive_traits: Vec<SpannedTraitRequest>,
    attrs: &Vec<Tok>,
) -> (r: Result<String, Error>)
    ensures
        expand_result_view(r) == spec_expand_parts(
            family,
            doc_attrs@,
            vis,
            ty_name,
            derive_traits@,
            attrs@,
        ),
{
    let attributes = match parse_attributes(family, attrs) {
        Ok(a) => a,
        Err(e) => {
            return Err(e);
        },
    };
    let Attributes { guard, new_unchecked, maybe_default_value } = attributes;
    let has_default = maybe_default_value.is_some();
    let traits = match validate_derive_traits(family, &guard, has_default, &derive_traits) {
        Ok(ts) => ts,
        Err(e) => {
            return Err(e);
        },
    };
    let params = GenerateParams {
        doc_attrs,
        traits,
        vis,
        ty_name,
        inner_type: family,
        guard,
        new_unchecked,
        maybe_default_value,
    };
    Ok(generate(&params))
}

/// The string-family pipeline.
pub fn expand_string_newtype(
    doc_attrs: Vec<String>,
    vis: Visibility,
    ty_name: TypeName,
    derive_traits: Vec<SpannedTraitRequest>,
    attrs: &Vec<Tok>,
) -> (r: Result<String, Error>)
    ensures
        expand_result_view(r) == spec_expand_parts(
            InnerType::StringType,
            doc_attrs@,
            vis,
            ty_name,
            derive_traits@,
            attrs@,
        ),
{
    expand_family(InnerType::StringType, doc_attrs, vis, ty_name, derive_traits, attrs)
}

/// The integer-family pipeline, at the concrete width: the bounds in the
/// configuration are interpreted against that width's range.
pub fn parse_integer_attrs_and_gen(
    tp: IntegerInnerType,
    doc_attrs: Vec<String>,
    vis: Visibility,
    ty_name: TypeName,
    derive_traits: Vec<SpannedTraitRequest>,
    attrs: &Vec<Tok>,
) -> (r: Result<String, Error>)
    ensures
        expand_result_view(r) == spec_expand_parts(
            InnerType::Integer(tp),
            doc_attrs@,
            vis,
            ty_name,
            derive_traits@,
            attrs@,
        ),
{
    expand_family(InnerType::Integer(tp), doc_attrs, vis, ty_name, derive_traits, attrs)
}

/// The float-family pipeline, at the concrete precision: bound literals
/// are shape-checked and kept as text.
pub fn parse_float_attrs_and_gen(
    tp: FloatInnerType,
    doc_attrs: Vec<String>,
    vis: Visibility,
    ty_name: TypeName,
    derive_traits: Vec<SpannedTraitRequest>,
    attrs: &Vec<Tok>,
) -> (r: Result<String, Error>)
    ensures
        expand_result_view(r) == spec_expand_parts(
            InnerType::Float(tp),
            doc_attrs@,
            vis,
            ty_name,
            derive_traits@,
            attrs@,
        ),
{
    expand_family(InnerType::Float(tp), doc_attrs, vis, ty_name, derive_traits, attrs)
}

/// The whole expansion: routes the request to its family's pipeline and
/// returns that pipeline's artifact or its first error. Returns exactly
/// what [`spec_expand`] denotes, so repeated expansion of one request
/// yields byte-identical output.
pub fn expand_nutype(meta: NewtypeMeta, attrs: &Vec<Tok>) -> (r: Result<String, Error>)
    ensures
        expand_result_view(r) == spec_expand(meta, attrs@),
{
    let NewtypeMeta { doc_attrs, ty_name, inner_type, vis, derive_traits } = meta;
    match inner_type {
        InnerType::StringType => expand_string_newtype(
            doc_attrs,
            vis,
            ty_name,
            derive_traits,
            attrs,
        ),
        InnerType::Integer(tp) => parse_integer_attrs_and_gen(
            tp,
            doc_attrs,
            vis,
            ty_name,
            derive_traits,
            attrs,
        ),
        InnerType::Float(tp) => parse_float_attrs_and_gen(
            tp,
            doc_attrs,
            vis,
            ty_name,
            derive_traits,
            attrs,
        ),
    }
}

} // verus!
