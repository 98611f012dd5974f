use nutype_core::expand_nutype;
use nutype_core::models::{
    DeriveTrait, ErrorKind, FloatInnerType, InnerType, IntegerInnerType, NewtypeMeta,
    TraitRequest, TypeName, Visibility,
};
use nutype_core::parse::{Tok, TokKind};
use nutype_core::span::{Span, Spanned};

fn sp(i: usize) -> Span {
    Span { lo: i, hi: i + 1 }
}

fn ident(s: &str, i: usize) -> Tok {
    Tok { kind: TokKind::Ident(s.to_string()), span: sp(i) }
}

fn expr(s: &str, i: usize) -> Tok {
    Tok { kind: TokKind::Expr(s.to_string()), span: sp(i) }
}

fn equals(i: usize) -> Tok {
    Tok { kind: TokKind::Equals, span: sp(i) }
}

fn comma(i: usize) -> Tok {
    Tok { kind: TokKind::Comma, span: sp(i) }
}

fn lparen(i: usize) -> Tok {
    Tok { kind: TokKind::LParen, span: sp(i) }
}

fn rparen(i: usize) -> Tok {
    Tok { kind: TokKind::RParen, span: sp(i) }
}

fn known(t: DeriveTrait, i: usize) -> Spanned<TraitRequest> {
    Spanned { item: TraitRequest::Known(t), span: sp(i) }
}

fn meta(
    inner: InnerType,
    traits: Vec<Spanned<TraitRequest>>,
) -> NewtypeMeta {
    NewtypeMeta {
        doc_attrs: vec!["A guarded wrapper.".to_string()],
        ty_name: TypeName { name: "Amount".to_string(), span: sp(0) },
        inner_type: inner,
        vis: Visibility::Public,
        derive_traits: traits,
    }
}

#[test]
fn expansion_is_deterministic() {
    let attrs = vec![
        ident("validate", 1),
        lparen(2),
        ident("min", 3),
        equals(4),
        expr("1", 5),
        rparen(6),
    ];
    let m1 = meta(InnerType::Integer(IntegerInnerType::I32), vec![known(DeriveTrait::Ord, 7)]);
    let m2 = meta(InnerType::Integer(IntegerInnerType::I32), vec![known(DeriveTrait::Ord, 7)]);
    let out1 = expand_nutype(m1, &attrs).unwrap();
    let out2 = expand_nutype(m2, &attrs).unwrap();
    assert_eq!(out1, out2);
}

#[test]
fn integer_positive_validator_with_ordering() {
    // A positive-integer wrapper: ordering is generated, the positive
    // bound appears in the constructor, and no unchecked constructor
    // exists since none was requested.
    let attrs = vec![
        ident("validate", 1),
        lparen(2),
        ident("min", 3),
        equals(4),
        expr("1", 5),
        rparen(6),
    ];
    let m = meta(
        InnerType::Integer(IntegerInnerType::I32),
        vec![known(DeriveTrait::Ord, 7)],
    );
    let out = expand_nutype(m, &attrs).unwrap();
    assert!(out.contains("pub struct Amount(i32);"));
    assert!(out.contains("if value < 1 { return Err(AmountError::TooSmall); }"));
    assert!(out.contains("impl Ord for Amount"));
    assert!(!out.contains("new_unchecked"));
    assert!(out.contains("-> Result<Amount, AmountError>"));
}

#[test]
fn string_trim_not_empty_with_default() {
    let attrs = vec![
        ident("sanitize", 1),
        lparen(2),
        ident("trim", 3),
        rparen(4),
        comma(5),
        ident("validate", 6),
        lparen(7),
        ident("not_empty", 8),
        rparen(9),
        comma(10),
        ident("default", 11),
        equals(12),
        expr("\"x\"", 13),
    ];
    let m = meta(InnerType::StringType, vec![known(DeriveTrait::Default, 14)]);
    let out = expand_nutype(m, &attrs).unwrap();
    assert!(out.contains("value = value.trim().to_string();"));
    assert!(out.contains("if value.is_empty() { return Err(AmountError::Empty); }"));
    // The default implementation stores the author's expression without
    // re-validating it.
    assert!(out.contains("impl Default for Amount { fn default() -> Self { Amount(\"x\") } }"));
}

#[test]
fn float_arithmetic_without_validators_is_approved() {
    let attrs: Vec<Tok> = vec![];
    let m = meta(InnerType::Float(FloatInnerType::F64), vec![known(DeriveTrait::Add, 1)]);
    let out = expand_nutype(m, &attrs).unwrap();
    assert!(out.contains("impl core::ops::Add for Amount"));
}

#[test]
fn float_arithmetic_with_finite_validator_is_rejected() {
    let attrs = vec![
        ident("validate", 1),
        lparen(2),
        ident("finite", 3),
        rparen(4),
    ];
    let m = meta(InnerType::Float(FloatInnerType::F64), vec![known(DeriveTrait::Add, 5)]);
    let err = expand_nutype(m, &attrs).unwrap_err();
    assert!(matches!(
        err.kind,
        ErrorKind::TraitIncompatibleWithValidation(DeriveTrait::Add)
    ));
    assert_eq!(err.span, sp(5));
}

#[test]
fn integer_new_unchecked_generates_both_constructors() {
    let attrs = vec![ident("new_unchecked", 1)];
    let m = meta(InnerType::Integer(IntegerInnerType::U64), vec![]);
    let out = expand_nutype(m, &attrs).unwrap();
    assert!(out.contains("pub fn new(raw_value: u64) -> Amount"));
    assert!(out.contains("pub fn new_unchecked(value: u64) -> Amount"));
}

#[test]
fn unchecked_constructor_absent_without_the_flag() {
    let attrs: Vec<Tok> = vec![];
    let m = meta(InnerType::Integer(IntegerInnerType::U64), vec![]);
    let out = expand_nutype(m, &attrs).unwrap();
    assert!(!out.contains("new_unchecked"));
}

#[test]
fn duplicate_trait_request_yields_same_output() {
    let attrs: Vec<Tok> = vec![];
    let m_once = meta(
        InnerType::Integer(IntegerInnerType::I32),
        vec![known(DeriveTrait::Eq, 1), known(DeriveTrait::Hash, 2)],
    );
    let m_twice = meta(
        InnerType::Integer(IntegerInnerType::I32),
        vec![
            known(DeriveTrait::Eq, 1),
            known(DeriveTrait::Hash, 2),
            known(DeriveTrait::Eq, 3),
        ],
    );
    assert_eq!(
        expand_nutype(m_once, &attrs).unwrap(),
        expand_nutype(m_twice, &attrs).unwrap()
    );
}

#[test]
fn unknown_trait_is_always_rejected() {
    let attrs: Vec<Tok> = vec![];
    let m = meta(
        InnerType::StringType,
        vec![Spanned { item: TraitRequest::Unknown("Serialize".to_string()), span: sp(3) }],
    );
    let err = expand_nutype(m, &attrs).unwrap_err();
    match err.kind {
        ErrorKind::UnknownTrait(name) => assert_eq!(name, "Serialize"),
        other => panic!("expected an unknown-trait error, got {:?}", other),
    }
    assert_eq!(err.span, sp(3));
}

#[test]
fn default_trait_without_default_value_is_missing_default() {
    let attrs: Vec<Tok> = vec![];
    let m = meta(InnerType::StringType, vec![known(DeriveTrait::Default, 2)]);
    let err = expand_nutype(m, &attrs).unwrap_err();
    assert!(matches!(
        err.kind,
        ErrorKind::TraitMissingDefault(DeriveTrait::Default)
    ));
}

#[test]
fn default_value_without_default_trait_has_no_effect() {
    let with_default = vec![ident("default", 1), equals(2), expr("7", 3)];
    let without: Vec<Tok> = vec![];
    let m1 = meta(InnerType::Integer(IntegerInnerType::I8), vec![known(DeriveTrait::Eq, 4)]);
    let m2 = meta(InnerType::Integer(IntegerInnerType::I8), vec![known(DeriveTrait::Eq, 4)]);
    assert_eq!(
        expand_nutype(m1, &with_default).unwrap(),
        expand_nutype(m2, &without).unwrap()
    );
}

#[test]
fn copy_on_a_string_wrapper_is_family_incompatible() {
    let attrs: Vec<Tok> = vec![];
    let m = meta(InnerType::StringType, vec![known(DeriveTrait::Copy, 1)]);
    let err = expand_nutype(m, &attrs).unwrap_err();
    assert!(matches!(
        err.kind,
        ErrorKind::TraitIncompatibleWithFamily(DeriveTrait::Copy)
    ));
}

#[test]
fn from_with_validation_is_rejected() {
    let attrs = vec![
        ident("validate", 1),
        lparen(2),
        ident("min", 3),
        equals(4),
        expr("0", 5),
        rparen(6),
    ];
    let m = meta(InnerType::Integer(IntegerInnerType::I64), vec![known(DeriveTrait::From, 7)]);
    let err = expand_nutype(m, &attrs).unwrap_err();
    assert!(matches!(
        err.kind,
        ErrorKind::TraitIncompatibleWithValidation(DeriveTrait::From)
    ));
}

#[test]
fn float_eq_requires_finite_validator() {
    let attrs: Vec<Tok> = vec![];
    let m = meta(InnerType::Float(FloatInnerType::F32), vec![known(DeriveTrait::Eq, 1)]);
    let err = expand_nutype(m, &attrs).unwrap_err();
    assert!(matches!(
        err.kind,
        ErrorKind::TraitIncompatibleWithFamily(DeriveTrait::Eq)
    ));

    let finite = vec![ident("validate", 1), lparen(2), ident("finite", 3), rparen(4)];
    let m2 = meta(InnerType::Float(FloatInnerType::F32), vec![known(DeriveTrait::Eq, 5)]);
    let out = expand_nutype(m2, &finite).unwrap();
    assert!(out.contains("impl Eq for Amount {}"));
}

#[test]
fn unknown_option_is_rejected() {
    let attrs = vec![ident("sanitise", 1)];
    let m = meta(InnerType::StringType, vec![]);
    let err = expand_nutype(m, &attrs).unwrap_err();
    match err.kind {
        ErrorKind::UnknownOption(name) => assert_eq!(name, "sanitise"),
        other => panic!("expected an unknown-option error, got {:?}", other),
    }
    assert_eq!(err.span, sp(1));
}

#[test]
fn duplicate_option_is_rejected() {
    let attrs = vec![
        ident("new_unchecked", 1),
        comma(2),
        ident("new_unchecked", 3),
    ];
    let m = meta(InnerType::StringType, vec![]);
    let err = expand_nutype(m, &attrs).unwrap_err();
    assert!(matches!(err.kind, ErrorKind::DuplicateOption));
    assert_eq!(err.span, sp(3));
}

#[test]
fn duplicate_validator_kind_is_rejected() {
    let attrs = vec![
        ident("validate", 1),
        lparen(2),
        ident("min", 3),
        equals(4),
        expr("1", 5),
        comma(6),
        ident("min", 7),
        equals(8),
        expr("2", 9),
        rparen(10),
    ];
    let m = meta(InnerType::Integer(IntegerInnerType::I32), vec![]);
    let err = expand_nutype(m, &attrs).unwrap_err();
    assert!(matches!(err.kind, ErrorKind::DuplicateOption));
    assert_eq!(err.span, sp(7));
}

#[test]
fn unknown_sanitizer_and_validator_are_rejected() {
    let attrs = vec![ident("sanitize", 1), lparen(2), ident("trim", 3), rparen(4)];
    let m = meta(InnerType::Integer(IntegerInnerType::I32), vec![]);
    let err = expand_nutype(m, &attrs).unwrap_err();
    match err.kind {
        ErrorKind::UnknownSanitizer(name) => assert_eq!(name, "trim"),
        other => panic!("expected an unknown-sanitizer error, got {:?}", other),
    }

    let attrs2 = vec![ident("validate", 1), lparen(2), ident("not_empty", 3), rparen(4)];
    let m2 = meta(InnerType::Integer(IntegerInnerType::I32), vec![]);
    let err2 = expand_nutype(m2, &attrs2).unwrap_err();
    assert!(matches!(err2.kind, ErrorKind::UnknownValidator(_)));
}

#[test]
fn malformed_and_out_of_range_literals_are_rejected() {
    let attrs = vec![
        ident("validate", 1),
        lparen(2),
        ident("min", 3),
        equals(4),
        expr("1x", 5),
        rparen(6),
    ];
    let m = meta(InnerType::Integer(IntegerInnerType::U8), vec![]);
    let err = expand_nutype(m, &attrs).unwrap_err();
    match err.kind {
        ErrorKind::MalformedLiteral(text) => assert_eq!(text, "1x"),
        other => panic!("expected a malformed-literal error, got {:?}", other),
    }
    assert_eq!(err.span, sp(5));

    let attrs2 = vec![
        ident("validate", 1),
        lparen(2),
        ident("max", 3),
        equals(4),
        expr("256", 5),
        rparen(6),
    ];
    let m2 = meta(InnerType::Integer(IntegerInnerType::U8), vec![]);
    let err2 = expand_nutype(m2, &attrs2).unwrap_err();
    match err2.kind {
        ErrorKind::LiteralOutOfRange(text) => assert_eq!(text, "256"),
        other => panic!("expected an out-of-range error, got {:?}", other),
    }
}

#[test]
fn width_boundaries_are_respected() {
    // 255 fits u8; -128 fits i8; -129 does not.
    let ok = vec![
        ident("validate", 1),
        lparen(2),
        ident("max", 3),
        equals(4),
        expr("255", 5),
        rparen(6),
    ];
    let m = meta(InnerType::Integer(IntegerInnerType::U8), vec![]);
    assert!(expand_nutype(m, &ok).is_ok());

    let ok2 = vec![
        ident("validate", 1),
        lparen(2),
        ident("min", 3),
        equals(4),
        expr("-128", 5),
        rparen(6),
    ];
    let m2 = meta(InnerType::Integer(IntegerInnerType::I8), vec![]);
    assert!(expand_nutype(m2, &ok2).is_ok());

    let bad = vec![
        ident("validate", 1),
        lparen(2),
        ident("min", 3),
        equals(4),
        expr("-129", 5),
        rparen(6),
    ];
    let m3 = meta(InnerType::Integer(IntegerInnerType::I8), vec![]);
    let err = expand_nutype(m3, &bad).unwrap_err();
    assert!(matches!(err.kind, ErrorKind::LiteralOutOfRange(_)));
}

#[test]
fn float_literals_are_shape_checked() {
    let ok = vec![
        ident("validate", 1),
        lparen(2),
        ident("min", 3),
        equals(4),
        expr("-0.25", 5),
        rparen(6),
    ];
    let m = meta(InnerType::Float(FloatInnerType::F32), vec![]);
    let out = expand_nutype(m, &ok).unwrap();
    assert!(out.contains("if value < -0.25 { return Err(AmountError::TooSmall); }"));

    let bad = vec![
        ident("validate", 1),
        lparen(2),
        ident("min", 3),
        equals(4),
        expr("1.", 5),
        rparen(6),
    ];
    let m2 = meta(InnerType::Float(FloatInnerType::F32), vec![]);
    let err = expand_nutype(m2, &bad).unwrap_err();
    assert!(matches!(err.kind, ErrorKind::MalformedLiteral(_)));
}

#[test]
fn empty_configuration_is_legal_and_infallible() {
    let attrs: Vec<Tok> = vec![];
    let m = meta(InnerType::StringType, vec![]);
    let out = expand_nutype(m, &attrs).unwrap();
    assert!(out.contains("pub fn new(raw_value: String) -> Amount"));
    assert!(!out.contains("enum AmountError"));
}

#[test]
fn unexpected_token_and_end_are_reported() {
    let attrs = vec![comma(1)];
    let m = meta(InnerType::StringType, vec![]);
    let err = expand_nutype(m, &attrs).unwrap_err();
    assert!(matches!(err.kind, ErrorKind::UnexpectedToken));

    let attrs2 = vec![ident("sanitize", 1)];
    let m2 = meta(InnerType::StringType, vec![]);
    let err2 = expand_nutype(m2, &attrs2).unwrap_err();
    assert!(matches!(err2.kind, ErrorKind::UnexpectedEnd));
}

#[test]
fn error_enum_lists_one_variant_per_validator() {
    let attrs = vec![
        ident("validate", 1),
        lparen(2),
        ident("min_len", 3),
        equals(4),
        expr("2", 5),
        comma(6),
        ident("max_len", 7),
        equals(8),
        expr("10", 9),
        rparen(10),
    ];
    let m = meta(InnerType::StringType, vec![]);
    let out = expand_nutype(m, &attrs).unwrap();
    assert!(out.contains("pub enum AmountError {\n    TooShort,\n    TooLong,\n}"));
    assert!(out.contains("if value.len() < 2 { return Err(AmountError::TooShort); }"));
    assert!(out.contains("if value.len() > 10 { return Err(AmountError::TooLong); }"));
}

#[test]
fn conversion_traits_follow_the_guard_shape() {
    let attrs = vec![
        ident("validate", 1),
        lparen(2),
        ident("min", 3),
        equals(4),
        expr("0", 5),
        rparen(6),
    ];
    let m = meta(
        InnerType::Integer(IntegerInnerType::I32),
        vec![known(DeriveTrait::TryFrom, 7), known(DeriveTrait::Into, 8)],
    );
    let out = expand_nutype(m, &attrs).unwrap();
    // With validation, the fallible conversion uses the generated error
    // type; the conversion back out never fails.
    assert!(out.contains("impl TryFrom<i32> for Amount { type Error = AmountError;"));
    assert!(out.contains("impl From<Amount> for i32"));

    // Parsing-style construction bypasses no guard: it is rejected while
    // validators are present, in the numeric families too.
    let m2 = meta(
        InnerType::Integer(IntegerInnerType::I32),
        vec![known(DeriveTrait::FromStr, 7)],
    );
    let err = expand_nutype(m2, &attrs).unwrap_err();
    assert!(matches!(
        err.kind,
        ErrorKind::TraitIncompatibleWithValidation(DeriveTrait::FromStr)
    ));
}

#[test]
fn exact_artifact_for_unconstrained_string() {
    let attrs: Vec<Tok> = vec![];
    let m = meta(InnerType::StringType, vec![]);
    let out = expand_nutype(m, &attrs).unwrap();
    assert_eq!(
        out,
        "/// A guarded wrapper.\n\
         pub struct Amount(String);\n\
         impl Amount {\n\
        \x20   pub fn new(raw_value: String) -> Amount {\n\
        \x20       let mut value = raw_value;\n\
        \x20       Amount(value)\n\
        \x20   }\n\
        \x20   pub fn into_inner(self) -> String {\n\
        \x20       self.0\n\
        \x20   }\n\
         }\n"
    );
}

#[test]
fn approved_traits_come_out_in_canonical_order() {
    let attrs: Vec<Tok> = vec![];
    let m1 = meta(
        InnerType::Integer(IntegerInnerType::I16),
        vec![known(DeriveTrait::Hash, 1), known(DeriveTrait::Eq, 2)],
    );
    let m2 = meta(
        InnerType::Integer(IntegerInnerType::I16),
        vec![known(DeriveTrait::Eq, 1), known(DeriveTrait::Hash, 2)],
    );
    let out1 = expand_nutype(m1, &attrs).unwrap();
    let out2 = expand_nutype(m2, &attrs).unwrap();
    assert_eq!(out1, out2);
    let eq_at = out1.find("impl Eq for Amount").unwrap();
    let hash_at = out1.find("impl core::hash::Hash for Amount").unwrap();
    assert!(eq_at < hash_at);
}

#[test]
fn doc_attributes_and_visibility_are_emitted() {
    let attrs: Vec<Tok> = vec![];
    let m = NewtypeMeta {
        doc_attrs: vec!["Line one.".to_string(), "Line two.".to_string()],
        ty_name: TypeName { name: "Tag".to_string(), span: sp(0) },
        inner_type: InnerType::StringType,
        vis: Visibility::PubCrate,
        derive_traits: vec![],
    };
    let out = expand_nutype(m, &attrs).unwrap();
    assert!(out.starts_with("/// Line one.\n/// Line two.\npub(crate) struct Tag(String);\n"));
}
