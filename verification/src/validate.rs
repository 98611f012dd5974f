//! The trait-compatibility validator.
//!
//! A trait that is safe to derive on the raw primitive is not
//! automatically safe on the guarded wrapper. The policy is a declarative
//! table per family (`trait_rule`): a trait is admitted always, only when
//! a default value is present (it must construct a wrapper from scratch),
//! only when no validator is present (it composes values without
//! re-running the guard), only when a `finite` validator is present (float
//! equality and ordering must not see a non-comparable value), or never
//! for this family. A request outside the closed set is always rejected:
//! the policy fails closed.

use vstd::prelude::*;
use crate::models::{DeriveTrait, Error, ErrorKind, Guard, InnerType, SpannedTraitRequest,
    TraitRequest};
use crate::span::{Span, Spanned};

verus! {

/// The precondition a family's table attaches to a trait.
#[derive(Clone, Copy, PartialEq, Eq, Structural, Debug)]
pub enum TraitRule {
    Always,
    NeedsDefault,
    NeedsNoValidation,
    NeedsFinite,
    Never,
}

/// The compatibility table: what each family requires of the guard before
/// a trait may be derived.
pub open spec fn trait_rule(family: InnerType, t: DeriveTrait) -> TraitRule {
    match family {
        InnerType::StringType => match t {
            DeriveTrait::Copy => TraitRule::Never,
            DeriveTrait::Add => TraitRule::Never,
            DeriveTrait::Sub => TraitRule::Never,
            DeriveTrait::Mul => TraitRule::Never,
            DeriveTrait::Div => TraitRule::Never,
            DeriveTrait::Default => TraitRule::NeedsDefault,
            DeriveTrait::From => TraitRule::NeedsNoValidation,
            DeriveTrait::FromStr => TraitRule::NeedsNoValidation,
            _ => TraitRule::Always,
        },
        InnerType::Integer(_) => match t {
            DeriveTrait::Default => TraitRule::NeedsDefault,
            DeriveTrait::From => TraitRule::NeedsNoValidation,
            DeriveTrait::FromStr => TraitRule::NeedsNoValidation,
            DeriveTrait::Add => TraitRule::NeedsNoValidation,
            DeriveTrait::Sub => TraitRule::NeedsNoValidation,
            DeriveTrait::Mul => TraitRule::NeedsNoValidation,
            DeriveTrait::Div => TraitRule::NeedsNoValidation,
            _ => TraitRule::Always,
        },
        InnerType::Float(_) => match t {
            DeriveTrait::Hash => TraitRule::Never,
            DeriveTrait::Eq => TraitRule::NeedsFinite,
            DeriveTrait::Ord => TraitRule::NeedsFinite,
            DeriveTrait::Default => TraitRule::NeedsDefault,
            DeriveTrait::From => TraitRule::NeedsNoValidation,
            DeriveTrait::FromStr => TraitRule::NeedsNoValidation,
            DeriveTrait::Add => TraitRule::NeedsNoValidation,
            DeriveTrait::Sub => TraitRule::NeedsNoValidation,
            DeriveTrait::Mul => TraitRule::NeedsNoValidation,
            DeriveTrait::Div => TraitRule::NeedsNoValidation,
            _ => TraitRule::Always,
        },
    }
}

fn trait_rule_of(family: InnerType, t: DeriveTrait) -> (r: TraitRule)
    ensures
        r == trait_rule(family, t),
{
    match family {
        InnerType::StringType => match t {
            DeriveTrait::Copy => TraitRule::Never,
            DeriveTrait::Add => TraitRule::Never,
            DeriveTrait::Sub => TraitRule::Never,
            DeriveTrait::Mul => TraitRule::Never,
            DeriveTrait::Div => TraitRule::Never,
            DeriveTrait::Default => TraitRule::NeedsDefault,
            DeriveTrait::From => TraitRule::NeedsNoValidation,
            DeriveTrait::FromStr => TraitRule::NeedsNoValidation,
            _ => TraitRule::Always,
        },
        InnerType::Integer(_) => match t {
            DeriveTrait::Default => TraitRule::NeedsDefault,
            DeriveTrait::From => TraitRule::NeedsNoValidation,
            DeriveTrait::FromStr => TraitRule::NeedsNoValidation,
            DeriveTrait::Add => TraitRule::NeedsNoValidation,
            DeriveTrait::Sub => TraitRule::NeedsNoValidation,
            DeriveTrait::Mul => TraitRule::NeedsNoValidation,
            DeriveTrait::Div => TraitRule::NeedsNoValidation,
            _ => TraitRule::Always,
        },
        InnerType::Float(_) => match t {
            DeriveTrait::Hash => TraitRule::Never,
            DeriveTrait::Eq => TraitRule::NeedsFinite,
            DeriveTrait::Ord => TraitRule::NeedsFinite,
            DeriveTrait::Default => TraitRule::NeedsDefault,
            DeriveTrait::From => TraitRule::NeedsNoValidation,
            DeriveTrait::FromStr => TraitRule::NeedsNoValidation,
            DeriveTrait::Add => TraitRule::NeedsNoValidation,
            DeriveTrait::Sub => TraitRule::NeedsNoValidation,
            DeriveTrait::Mul => TraitRule::NeedsNoValidation,
            DeriveTrait::Div => TraitRule::NeedsNoValidation,
            _ => TraitRule::Always,
        },
    }
}

/// The error one request draws, if any, under the given guard shape:
/// `hv` = a validator is present, `hd` = a default value is present,
/// `hf` = a `finite` validator is present.
pub open spec fn request_error(
    family: InnerType,
    req: SpannedTraitRequest,
    hv: bool,
    hd: bool,
    hf: bool,
) -> Option<Error> {
    match req.item {
        TraitRequest::Unknown(name) => Option::Some(
            Error { span: req.span, kind: ErrorKind::UnknownTrait(name) },
        ),
        TraitRequest::Known(t) => match trait_rule(family, t) {
            TraitRule::Always => Option::None,
            TraitRule::NeedsDefault => {
                if hd {
                    Option::None
                } else {
                    Option::Some(Error { span: req.span, kind: ErrorKind::TraitMissingDefault(t) })
                }
            },
            TraitRule::NeedsNoValidation => {
                if !hv {
                    Option::None
                } else {
                    Option::Some(
                        Error {
                            span: req.span,
                            kind: ErrorKind::TraitIncompatibleWithValidation(t),
                        },
                    )
                }
            },
            TraitRule::NeedsFinite => {
                if hf {
                    Option::None
                } else {
                    Option::Some(
                        Error { span: req.span, kind: ErrorKind::TraitIncompatibleWithFamily(t) },
                    )
                }
            },
            TraitRule::Never => Option::Some(
                Error { span: req.span, kind: ErrorKind::TraitIncompatibleWithFamily(t) },
            ),
        },
    }
}

/// The first rejected request from position `i` on, in request order.
pub open spec fn spec_first_error(
    family: InnerType,
    reqs: Seq<SpannedTraitRequest>,
    i: int,
    hv: bool,
    hd: bool,
    hf: bool,
) -> Option<Error>
    decreases reqs.len() - i,
{
    if i < 0 || i >= reqs.len() {
        Option::None
    } else {
        match request_error(family, reqs[i], hv, hd, hf) {
            Option::Some(e) => Option::Some(e),
            Option::None => spec_first_error(family, reqs, i + 1, hv, hd, hf),
        }
    }
}

/// Was `t` requested (as a known trait)?
pub open spec fn requested(reqs: Seq<SpannedTraitRequest>, t: DeriveTrait) -> bool {
    exists|k: int| 0 <= k < reqs.len() && reqs[k].item == TraitRequest::Known(t)
}

/// The closed trait set, in the canonical order of the generated output.
pub open spec fn spec_all_traits() -> Seq<DeriveTrait> {
    seq![
        DeriveTrait::Debug,
        DeriveTrait::Display,
        DeriveTrait::Clone,
        DeriveTrait::Copy,
        DeriveTrait::PartialEq,
        DeriveTrait::Eq,
        DeriveTrait::PartialOrd,
        DeriveTrait::Ord,
        DeriveTrait::Hash,
        DeriveTrait::Default,
        DeriveTrait::FromStr,
        DeriveTrait::AsRef,
        DeriveTrait::Borrow,
        DeriveTrait::From,
        DeriveTrait::TryFrom,
        DeriveTrait::Into,
        DeriveTrait::Add,
        DeriveTrait::Sub,
        DeriveTrait::Mul,
        DeriveTrait::Div,
    ]
}

fn all_traits() -> (r: Vec<DeriveTrait>)
    ensures
        r@ == spec_all_traits(),
{
    let mut v: Vec<DeriveTrait> = Vec::new();
    v.push(DeriveTrait::Debug);
    v.push(DeriveTrait::Display);
    v.push(DeriveTrait::Clone);
    v.push(DeriveTrait::Copy);
    v.push(DeriveTrait::PartialEq);
    v.push(DeriveTrait::Eq);
    v.push(DeriveTrait::PartialOrd);
    v.push(DeriveTrait::Ord);
    v.push(DeriveTrait::Hash);
    v.push(DeriveTrait::Default);
    v.push(DeriveTrait::FromStr);
    v.push(DeriveTrait::AsRef);
    v.push(DeriveTrait::Borrow);
    v.push(DeriveTrait::From);
    v.push(DeriveTrait::TryFrom);
    v.push(DeriveTrait::Into);
    v.push(DeriveTrait::Add);
    v.push(DeriveTrait::Sub);
    v.push(DeriveTrait::Mul);
    v.push(DeriveTrait::Div);
    proof {
        assert(v@ =~= spec_all_traits());
    }
    v
}

/// The approved traits among `all`, in the order of `all`: requested
/// traits kept, everything else dropped. Duplicate requests collapse,
/// since only membership in the requests is consulted.
pub open spec fn spec_approved_from(
    reqs: Seq<SpannedTraitRequest>,
    all: Seq<DeriveTrait>,
) -> Seq<DeriveTrait>
    decreases all.len(),
{
    if all.len() == 0 {
        Seq::empty()
    } else {
        let rest = spec_approved_from(reqs, all.drop_last());
        if requested(reqs, all.last()) {
            rest.push(all.last())
        } else {
            rest
        }
    }
}

/// The approved trait set of a request list, in canonical order.
pub open spec fn spec_approved(reqs: Seq<SpannedTraitRequest>) -> Seq<DeriveTrait> {
    spec_approved_from(reqs, spec_all_traits())
}

/// What validation yields: the first rejected request's error, or the
/// approved traits in canonical order.
pub open spec fn spec_validate(
    family: InnerType,
    reqs: Seq<SpannedTraitRequest>,
    hv: bool,
    hd: bool,
    hf: bool,
) -> Result<Seq<DeriveTrait>, Error> {
    match spec_first_error(family, reqs, 0, hv, hd, hf) {
        Option::Some(e) => Result::Err(e),
        Option::None => Result::Ok(spec_approved(reqs)),
    }
}

/// The spec-level value of an executable validation result.
pub open spec fn validate_result_view(r: Result<Vec<DeriveTrait>, Error>) -> Result<
    Seq<DeriveTrait>,
    Error,
> {
    match r {
        Result::Ok(v) => Result::Ok(v@),
        Result::Err(e) => Result::Err(e),
    }
}

/// Does the guard hold a `finite` validator?
fn guard_has_finite(guard: &Guard) -> (r: bool)
    ensures
        r == guard.has_finite_validator(),
{
    let mut i: usize = 0;
    while i < guard.validators.len()
        invariant
            0 <= i <= guard.validators@.len(),
            forall|k: int| 0 <= k < i ==> !(guard.validators@[k] is Finite),
        decreases guard.validators@.len() - i,
    {
        match &guard.validators[i] {
            crate::models::Validator::Finite => {
                return true;
            },
            _ => {},
        }
        i = i + 1;
    }
    false
}

/// Was `t` requested (as a known trait)?
fn is_requested(reqs: &Vec<SpannedTraitRequest>, t: DeriveTrait) -> (r: bool)
    ensures
        r == requested(reqs@, t),
{
    let mut i: usize = 0;
    while i < reqs.len()
        invariant
            0 <= i <= reqs@.len(),
            forall|k: int| 0 <= k < i ==> reqs@[k].item != TraitRequest::Known(t),
        decreases reqs@.len() - i,
    {
        match &reqs[i].item {
            TraitRequest::Known(t2) => {
                if *t2 == t {
                    return true;
                }
            },
            _ => {},
        }
        i = i + 1;
    }
    false
}

/// Decides which requested traits may be derived under the given guard,
/// failing on the first request the family's table rejects, on the first
/// default-producing request without a default value, and on every request
/// outside the closed set. On success the approved traits come back in
/// canonical order, each at most once, whatever order and multiplicity the
/// requests had.
pub fn validate_derive_traits(
    family: InnerType,
    guard: &Guard,
    has_default: bool,
    reqs: &Vec<SpannedTraitRequest>,
) -> (r: Result<Vec<DeriveTrait>, Error>)
    ensures
        validate_result_view(r) == spec_validate(
            family,
            reqs@,
            guard.has_validation(),
            has_default,
            guard.has_finite_validator(),
        ),
{
    let hv = guard.has_validation();
    let hf = guard_has_finite(guard);
    let mut i: usize = 0;
    while i < reqs.len()
        invariant
            0 <= i <= reqs@.len(),
            hv == guard.has_validation(),
            hf == guard.has_finite_validator(),
            spec_first_error(family, reqs@, 0, hv, has_default, hf) == spec_first_error(
                family,
                reqs@,
                i as int,
                hv,
                has_default,
                hf,
            ),
        decreases reqs@.len() - i,
    {
        let req = &reqs[i];
        match &req.item {
            TraitRequest::Unknown(name) => {
                return Err(Error { span: req.span, kind: ErrorKind::UnknownTrait(name.clone()) });
            },
            TraitRequest::Known(t) => {
                match trait_rule_of(family, *t) {
                    TraitRule::Always => {},
                    TraitRule::NeedsDefault => {
                        if !has_default {
                            return Err(
                                Error { span: req.span, kind: ErrorKind::TraitMissingDefault(*t) },
                            );
                        }
                    },
                    TraitRule::NeedsNoValidation => {
                        if hv {
                            return Err(
                                Error {
                                    span: req.span,
                                    kind: ErrorKind::TraitIncompatibleWithValidation(*t),
                                },
                            );
                        }
                    },
                    TraitRule::NeedsFinite => {
                        if !hf {
                            return Err(
                                Error {
                                    span: req.span,
                                    kind: ErrorKind::TraitIncompatibleWithFamily(*t),
                                },
                            );
                        }
                    },
                    TraitRule::Never => {
                        return Err(
                            Error {
                                span: req.span,
                                kind: ErrorKind::TraitIncompatibleWithFamily(*t),
                            },
                        );
                    },
                }
            },
        }
        i = i + 1;
    }
    let all = all_traits();
    let mut approved: Vec<DeriveTrait> = Vec::new();
    let mut j: usize = 0;
    while j < all.len()
        invariant
            0 <= j <= all@.len(),
            all@ == spec_all_traits(),
            approved@ == spec_approved_from(reqs@, all@.take(j as int)),
        decreases all@.len() - j,
    {
        let t = all[j];
        proof {
            assert(all@.take(j + 1).drop_last() =~= all@.take(j as int));
            assert(all@.take(j + 1).last() == all@[j as int]);
        }
        if is_requested(reqs, t) {
            approved.push(t);
        }
        j = j + 1;
    }
    proof {
        assert(all@.take(all@.len() as int) =~= all@);
    }
    Ok(approved)
}

/// Extending the requests by one more leaves the earlier requests' first
/// error in place; with none, the outcome is the new request's own error.
proof fn lemma_first_error_push(
    family: InnerType,
    reqs: Seq<SpannedTraitRequest>,
    d: SpannedTraitRequest,
    i: int,
    hv: bool,
    hd: bool,
    hf: bool,
)
    requires
        0 <= i <= reqs.len(),
    ensures
        spec_first_error(family, reqs.push(d), i, hv, hd, hf) == (
        match spec_first_error(family, reqs, i, hv, hd, hf) {
            Option::Some(e) => Option::Some(e),
            Option::None => request_error(family, d, hv, hd, hf),
        }),
    decreases reqs.len() - i,
{
    if i < reqs.len() {
        assert(reqs.push(d)[i] == reqs[i]);
        lemma_first_error_push(family, reqs, d, i + 1, hv, hd, hf);
    } else {
        assert(reqs.push(d)[i] == d);
        assert(spec_first_error(family, reqs.push(d), i + 1, hv, hd, hf) is None);
    }
}

/// Membership among the requests is blind to a duplicate.
proof fn lemma_requested_push_dup(
    reqs: Seq<SpannedTraitRequest>,
    d: SpannedTraitRequest,
    k: int,
)
    requires
        0 <= k < reqs.len(),
        d.item == reqs[k].item,
    ensures
        forall|t: DeriveTrait| requested(reqs.push(d), t) == requested(reqs, t),
{
    assert forall|t: DeriveTrait| requested(reqs.push(d), t) == requested(reqs, t) by {
        if requested(reqs, t) {
            let w = choose|w: int| 0 <= w < reqs.len() && reqs[w].item == TraitRequest::Known(t);
            assert(reqs.push(d)[w] == reqs[w]);
        }
        if requested(reqs.push(d), t) {
            let w = choose|w: int|
                0 <= w < reqs.push(d).len() && reqs.push(d)[w].item == TraitRequest::Known(t);
            if w < reqs.len() {
                assert(reqs[w].item == TraitRequest::Known(t));
            } else {
                assert(reqs.push(d)[w] == d);
                assert(reqs[k].item == TraitRequest::Known(t));
            }
        }
    }
}

/// The approved list only consults membership among the requests.
proof fn lemma_approved_same_membership(
    r1: Seq<SpannedTraitRequest>,
    r2: Seq<SpannedTraitRequest>,
    all: Seq<DeriveTrait>,
)
    requires
        forall|t: DeriveTrait| requested(r1, t) == requested(r2, t),
    ensures
        spec_approved_from(r1, all) == spec_approved_from(r2, all),
    decreases all.len(),
{
    if all.len() > 0 {
        lemma_approved_same_membership(r1, r2, all.drop_last());
    }
}

/// Requesting a trait twice yields the same outcome as requesting it once:
/// a duplicate of any earlier request, wherever it is appended and whatever
/// position it carries, changes neither the approved set nor the error.
pub proof fn lemma_duplicate_request_same_outcome(
    family: InnerType,
    reqs: Seq<SpannedTraitRequest>,
    k: int,
    sp: Span,
    hv: bool,
    hd: bool,
    hf: bool,
)
    requires
        0 <= k < reqs.len(),
    ensures
        spec_validate(family, reqs.push(Spanned { item: reqs[k].item, span: sp }), hv, hd, hf)
            == spec_validate(family, reqs, hv, hd, hf),
{
    let d = Spanned { item: reqs[k].item, span: sp };
    lemma_first_error_push(family, reqs, d, 0, hv, hd, hf);
    match spec_first_error(family, reqs, 0, hv, hd, hf) {
        Option::Some(_) => {},
        Option::None => {
            // Every request is accepted, in particular the one at `k`,
            // so its duplicate is accepted too: acceptance depends only
            // on the requested item.
            lemma_first_error_none_means_each_ok(family, reqs, 0, hv, hd, hf);
            assert(request_error(family, reqs[k], hv, hd, hf) is None);
            assert(request_error(family, d, hv, hd, hf) is None);
            lemma_requested_push_dup(reqs, d, k);
            lemma_approved_same_membership(reqs.push(d), reqs, spec_all_traits());
        },
    }
}

/// With no rejected request from `i` on, each single request from `i` on
/// is accepted.
proof fn lemma_first_error_none_means_each_ok(
    family: InnerType,
    reqs: Seq<SpannedTraitRequest>,
    i: int,
    hv: bool,
    hd: bool,
    hf: bool,
)
    requires
        0 <= i <= reqs.len(),
        spec_first_error(family, reqs, i, hv, hd, hf) is None,
    ensures
        forall|k: int| i <= k < reqs.len() ==> request_error(family, reqs[k], hv, hd, hf) is None,
    decreases reqs.len() - i,
{
    if i < reqs.len() {
        lemma_first_error_none_means_each_ok(family, reqs, i + 1, hv, hd, hf);
    }
}

/// Fail-closed: a request outside the closed trait set is never silently
/// ignored; validation always fails on it.
pub proof fn lemma_unknown_trait_rejected(
    family: InnerType,
    reqs: Seq<SpannedTraitRequest>,
    k: int,
    hv: bool,
    hd: bool,
    hf: bool,
)
    requires
        0 <= k < reqs.len(),
        reqs[k].item is Unknown,
    ensures
        spec_validate(family, reqs, hv, hd, hf) is Err,
{
    if spec_first_error(family, reqs, 0, hv, hd, hf) is None {
        lemma_first_error_none_means_each_ok(family, reqs, 0, hv, hd, hf);
        assert(request_error(family, reqs[k], hv, hd, hf) is Some);
    }
}

/// Requesting the default-producing trait without a default value always
/// fails, and that request's own reason is the missing default, in every
/// family.
pub proof fn lemma_default_trait_needs_default(
    family: InnerType,
    reqs: Seq<SpannedTraitRequest>,
    k: int,
    hv: bool,
    hf: bool,
)
    requires
        0 <= k < reqs.len(),
        reqs[k].item == TraitRequest::Known(DeriveTrait::Default),
    ensures
        spec_validate(family, reqs, hv, false, hf) is Err,
        request_error(family, reqs[k], hv, false, hf) == Option::Some(
            Error {
                span: reqs[k].span,
                kind: ErrorKind::TraitMissingDefault(DeriveTrait::Default),
            },
        ),
{
    assert(trait_rule(family, DeriveTrait::Default) == TraitRule::NeedsDefault);
    if spec_first_error(family, reqs, 0, hv, false, hf) is None {
        lemma_first_error_none_means_each_ok(family, reqs, 0, hv, false, hf);
        assert(request_error(family, reqs[k], hv, false, hf) is Some);
    }
}

} // verus!
