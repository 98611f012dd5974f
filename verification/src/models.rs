//! The data the pipeline runs on.
//!
//! A request names a wrapper type over one primitive family (string,
//! integer of a width, float of a precision) and lists the derived traits
//! it wants. The configuration tokens beside it describe the `Guard`: the
//! ordered sanitizers and validators every checked construction runs
//! through, an optional default expression, and the opt-in unchecked
//! constructor flag.

use vstd::prelude::*;
use crate::span::{Span, Spanned};

verus! {

/// Width of an integer inner type.
#[derive(Clone, Copy, PartialEq, Eq, Structural, Debug)]
pub enum IntegerInnerType {
    U8,
    U16,
    U32,
    U64,
    U128,
    Usize,
    I8,
    I16,
    I32,
    I64,
    I128,
    Isize,
}

/// Precision of a float inner type.
#[derive(Clone, Copy, PartialEq, Eq, Structural, Debug)]
pub enum FloatInnerType {
    F32,
    F64,
}

/// The primitive a wrapper is built over; decides which family pipeline
/// handles the request.
#[derive(Clone, Copy, PartialEq, Eq, Structural, Debug)]
pub enum InnerType {
    StringType,
    Integer(IntegerInnerType),
    Float(FloatInnerType),
}

/// The identifier of the generated wrapper, with its source position.
#[derive(Clone, Debug)]
pub struct TypeName {
    pub name: String,
    pub span: Span,
}

/// Declared visibility of the wrapper type.
#[derive(Clone, Copy, PartialEq, Eq, Structural, Debug)]
pub enum Visibility {
    Inherited,
    Public,
    PubCrate,
}

/// An always-succeeding transformation, applied before any validator.
/// `Trim`, `Lowercase` and `Uppercase` belong to the string family alone;
/// `Custom` carries a user-authored expression this crate never interprets.
#[derive(Clone, Debug)]
pub enum Sanitizer {
    Trim,
    Lowercase,
    Uppercase,
    Custom(String),
}

/// A decimal integer literal, kept both as the text the user wrote and as
/// the sign and magnitude it denotes.
#[derive(Clone, Debug)]
pub struct IntLiteral {
    pub text: String,
    pub neg: bool,
    pub mag: u128,
}

impl IntLiteral {
    /// The integer the literal denotes.
    pub open spec fn value(self) -> int {
        if self.neg {
            -(self.mag as int)
        } else {
            self.mag as int
        }
    }
}

/// A decimal float literal, kept as text only: this crate never computes
/// with float values, it only checks the literal's shape and splices its
/// text into the generated constructor.
#[derive(Clone, Debug)]
pub struct FloatLiteral {
    pub text: String,
}

/// A possibly-rejecting check, applied after all sanitizers. Each variant
/// contributes one named failure reason to the generated error type.
/// `MinLen`/`MaxLen`/`NotEmpty` belong to the string family, `Min`/`Max`
/// to the integer family, `MinFloat`/`MaxFloat`/`Finite` to the float
/// family, and `Custom` carries an uninterpreted user predicate.
#[derive(Clone, Debug)]
pub enum Validator {
    MinLen(u64),
    MaxLen(u64),
    NotEmpty,
    Min(IntLiteral),
    Max(IntLiteral),
    MinFloat(FloatLiteral),
    MaxFloat(FloatLiteral),
    Finite,
    Custom(String),
}

impl Validator {
    /// Two validators of the same kind would yield two error variants of
    /// the same name, so the parser admits each kind at most once.
    pub open spec fn same_kind(self, other: Validator) -> bool {
        match (self, other) {
            (Validator::MinLen(_), Validator::MinLen(_)) => true,
            (Validator::MaxLen(_), Validator::MaxLen(_)) => true,
            (Validator::NotEmpty, Validator::NotEmpty) => true,
            (Validator::Min(_), Validator::Min(_)) => true,
            (Validator::Max(_), Validator::Max(_)) => true,
            (Validator::MinFloat(_), Validator::MinFloat(_)) => true,
            (Validator::MaxFloat(_), Validator::MaxFloat(_)) => true,
            (Validator::Finite, Validator::Finite) => true,
            (Validator::Custom(_), Validator::Custom(_)) => true,
            _ => false,
        }
    }
}

/// The sanitization and validation policy of a wrapper: every checked
/// construction applies the sanitizers in order, then the validators in
/// order, and fails on the first validator that rejects.
#[derive(Clone, Debug)]
pub struct Guard {
    pub sanitizers: Vec<Sanitizer>,
    pub validators: Vec<Validator>,
}

impl Guard {
    /// True iff at least one validator is present, i.e. the checked
    /// constructor can reject an input.
    pub open spec fn spec_has_validation(&self) -> bool {
        self.validators@.len() > 0
    }

    #[verifier::when_used_as_spec(spec_has_validation)]
    pub fn has_validation(&self) -> (r: bool)
        ensures
            r == self.spec_has_validation(),
    {
        self.validators.len() > 0
    }

    /// True iff a `Finite` validator is present: only then can a float
    /// wrapper never hold a non-comparable value.
    pub open spec fn has_finite_validator(self) -> bool {
        seq_has_finite(self.validators@)
    }
}

/// Does a validator list hold a `Finite` validator?
pub open spec fn seq_has_finite(vals: Seq<Validator>) -> bool {
    exists|i: int| 0 <= i < vals.len() && vals[i] is Finite
}

/// Whether the request opted into an unchecked constructor that bypasses
/// the guard, and where it did.
#[derive(Clone, Copy, PartialEq, Eq, Structural, Debug)]
pub enum NewUnchecked {
    Off,
    On(Span),
}

/// The attribute parser's output: the guard, the unchecked-constructor
/// flag, and the default expression if one was supplied. The default
/// expression is the type author's own and is stored without running the
/// guard over it — a deliberate trust boundary, as the author, unlike a
/// caller, also chose the validators.
#[derive(Clone, Debug)]
pub struct Attributes {
    pub guard: Guard,
    pub new_unchecked: NewUnchecked,
    pub maybe_default_value: Option<Spanned<String>>,
}

/// The closed set of derived behaviors a request may ask for.
#[derive(Clone, Copy, PartialEq, Eq, Structural, Debug)]
pub enum DeriveTrait {
    Debug,
    Display,
    Clone,
    Copy,
    PartialEq,
    Eq,
    PartialOrd,
    Ord,
    Hash,
    Default,
    FromStr,
    AsRef,
    Borrow,
    From,
    TryFrom,
    Into,
    Add,
    Sub,
    Mul,
    Div,
}

/// One requested trait as the front end hands it over: either a member of
/// the closed set, or the verbatim name of something outside it, which
/// validation always rejects.
#[derive(Clone, Debug)]
pub enum TraitRequest {
    Known(DeriveTrait),
    Unknown(String),
}

/// A requested trait with the position it was requested at.
pub type SpannedTraitRequest = Spanned<TraitRequest>;

/// The structured request the front end produces: doc lines, the wrapper's
/// name, its inner primitive, its visibility, and the requested traits.
#[derive(Clone, Debug)]
pub struct NewtypeMeta {
    pub doc_attrs: Vec<String>,
    pub ty_name: TypeName,
    pub inner_type: InnerType,
    pub vis: Visibility,
    pub derive_traits: Vec<SpannedTraitRequest>,
}

/// Why the pipeline rejected a request.
#[derive(Clone, Debug)]
pub enum ErrorKind {
    /// A token appeared where the option grammar allows none.
    UnexpectedToken,
    /// The token stream ended in the middle of an option.
    UnexpectedEnd,
    /// An identifier at option position is not one of `sanitize`,
    /// `validate`, `default`, `new_unchecked`.
    UnknownOption(String),
    /// The same option, or a validator of the same kind, was given twice.
    DuplicateOption,
    /// An identifier inside `sanitize(...)` is not a sanitizer of the
    /// requested family.
    UnknownSanitizer(String),
    /// An identifier inside `validate(...)` is not a validator of the
    /// requested family.
    UnknownValidator(String),
    /// A value that had to be a numeric literal of the family could not be
    /// read as one.
    MalformedLiteral(String),
    /// A well-formed integer literal does not fit the inner type's width.
    LiteralOutOfRange(String),
    /// A requested trait is outside the closed set.
    UnknownTrait(String),
    /// A default-producing trait was requested without a default value.
    TraitMissingDefault(DeriveTrait),
    /// The trait would compose values without re-running the validators.
    TraitIncompatibleWithValidation(DeriveTrait),
    /// The trait cannot be derived for this primitive family at all.
    TraitIncompatibleWithFamily(DeriveTrait),
}

/// A positioned diagnostic; the first error anywhere aborts the pipeline.
#[derive(Clone, Debug)]
pub struct Error {
    pub span: Span,
    pub kind: ErrorKind,
}

/// The validated bundle the code generator consumes.
#[derive(Clone, Debug)]
pub struct GenerateParams {
    pub doc_attrs: Vec<String>,
    pub traits: Vec<DeriveTrait>,
    pub vis: Visibility,
    pub ty_name: TypeName,
    pub inner_type: InnerType,
    pub guard: Guard,
    pub new_unchecked: NewUnchecked,
    pub maybe_default_value: Option<Spanned<String>>,
}

} // verus!
