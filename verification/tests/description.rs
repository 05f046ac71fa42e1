use init4_bin_base::derive::field::{Field, Input, LeafType, Source, TraitName, Variant};
use init4_bin_base::derive::names::decimal_string;
use init4_bin_base::derive::value::{Cause, FieldError, IntType, LeafError, Value};
use init4_bin_base::derive::{DeriveError, DeriveInput, FieldDecl, FieldFault, FieldType, Shape};
use init4_bin_base::utils::decimal::ParseIntError;
use init4_bin_base::utils::from_env::{Env, FromEnvErr, Millis, VarError};
use init4_bin_base::utils::level::{Level, ParseLevelError};
use init4_bin_base::utils::primitives::{Address, Bytes, HexError, UintError, U256};
use init4_bin_base::utils::url::UrlParseError;

fn decl(ident: Option<&'static str>, ty: FieldType) -> FieldDecl {
    FieldDecl { ident, ty, var: None, desc: None, optional: false, infallible: false, skip: false }
}

fn var(ident: &'static str, ty: LeafType, name: &'static str) -> FieldDecl {
    FieldDecl { var: Some(name), desc: Some("a variable"), ..decl(Some(ident), FieldType::Leaf(ty)) }
}

fn optional_var(ident: &'static str, ty: LeafType, name: &'static str) -> FieldDecl {
    FieldDecl {
        var: Some(name),
        desc: Some("a variable"),
        optional: true,
        ..decl(Some(ident), FieldType::OptionalLeaf(ty))
    }
}

fn structure(ident: &'static str, fields: Vec<FieldDecl>) -> Input {
    init4_bin_base::derive::derive(DeriveInput {
        ident,
        shape: Shape::Named,
        crate_name: None,
        fields,
    })
    .unwrap()
}

fn fault(field: FieldDecl) -> FieldFault {
    Field::try_from(field).unwrap_err()
}

/// A structure that reads `A`, `B`, `C` and `D`, the last one into an
/// `Option`.
fn inner() -> Input {
    structure(
        "Inner",
        vec![
            var("a", LeafType::Int(IntType::I32), "A"),
            var("b", LeafType::Text, "B"),
            var("c", LeafType::Flag, "C"),
            optional_var("d", LeafType::Int(IntType::U16), "D"),
        ],
    )
}

/// A structure that reads `X` and holds the structure above.
fn outer() -> Input {
    structure(
        "Outer",
        vec![var("x", LeafType::Int(IntType::U8), "X"), decl(Some("inner"), FieldType::Composite(inner()))],
    )
}

/// The same, with the inner structure in an `Option`.
fn outer_with_optional_inner() -> Input {
    structure(
        "Outer",
        vec![
            var("x", LeafType::Int(IntType::U8), "X"),
            decl(Some("inner"), FieldType::OptionalComposite(inner())),
        ],
    )
}

fn env_of(pairs: &[(&str, &str)]) -> Env {
    let mut env = Env::new();
    for (name, value) in pairs {
        env.set(name, value);
    }
    env
}

fn some(value: Value) -> Value {
    Value::Optional(Some(Box::new(value)))
}

#[test]
fn a_variable_needs_a_description() {
    let mut field = var("a", LeafType::Text, "A");
    field.desc = None;
    assert_eq!(fault(field), FieldFault::MissingDescription);
    let mut field = var("a", LeafType::Text, "A");
    field.desc = None;
    field.skip = true;
    assert_eq!(fault(field), FieldFault::MissingDescription);
    let mut field = var("a", LeafType::Text, "A");
    field.desc = Some("");
    assert_eq!(fault(field), FieldFault::EmptyDescription);
    assert_eq!(fault(var("a", LeafType::Text, "")), FieldFault::EmptyVar);
}

#[test]
fn a_field_is_read_from_a_variable_or_is_a_structure() {
    assert_eq!(fault(decl(Some("a"), FieldType::Leaf(LeafType::Text))), FieldFault::NotLoadable);
    assert_eq!(fault(decl(Some("a"), FieldType::Other)), FieldFault::NotLoadable);
    let mut field = decl(Some("a"), FieldType::Other);
    field.var = Some("A");
    field.desc = Some("a variable");
    assert_eq!(fault(field), FieldFault::NotLoadable);
    let mut field = decl(Some("a"), FieldType::Composite(inner()));
    field.var = Some("A");
    field.desc = Some("a variable");
    assert_eq!(fault(field), FieldFault::VarOnComposite);
}

#[test]
fn only_text_that_always_parses_is_infallible() {
    let mut field = var("a", LeafType::Int(IntType::U8), "A");
    field.infallible = true;
    assert_eq!(fault(field), FieldFault::NotInfallible);
    let mut field = var("a", LeafType::Flag, "A");
    field.infallible = true;
    assert_eq!(fault(field), FieldFault::NotInfallible);
    let mut field = decl(Some("a"), FieldType::Composite(inner()));
    field.infallible = true;
    assert_eq!(fault(field), FieldFault::NotInfallible);
    for ty in [LeafType::Text, LeafType::List] {
        let mut field = var("a", ty, "A");
        field.infallible = true;
        assert!(Field::try_from(field).is_ok());
    }
}

#[test]
fn a_checked_field_keeps_what_was_declared() {
    let field = Field::try_from(optional_var("d", LeafType::Int(IntType::U16), "D")).unwrap();
    assert_eq!(field.field_name, Some("d"));
    match field.source {
        Source::Var { env_var, desc, optional, infallible, ty, wrapped } => {
            assert_eq!(env_var, "D");
            assert_eq!(desc, "a variable");
            assert!(optional);
            assert!(!infallible);
            assert_eq!(ty, LeafType::Int(IntType::U16));
            assert!(wrapped);
        }
        other => panic!("unexpected source {:?}", other),
    }
    let mut skipped = decl(Some("memo"), FieldType::Other);
    skipped.skip = true;
    assert!(matches!(Field::try_from(skipped).unwrap().source, Source::Default));
}

#[test]
fn only_structures_with_fields_derive() {
    let shaped = |shape| {
        init4_bin_base::derive::derive(DeriveInput {
            ident: "S",
            shape,
            crate_name: None,
            fields: vec![],
        })
    };
    assert_eq!(shaped(Shape::Enum).unwrap_err(), DeriveError::NotAStruct);
    assert_eq!(shaped(Shape::Union).unwrap_err(), DeriveError::NotAStruct);
    assert_eq!(shaped(Shape::Unit).unwrap_err(), DeriveError::NoFields);
    assert!(shaped(Shape::Named).unwrap().fields.is_empty());
    assert!(shaped(Shape::Unnamed).unwrap().tuple_like);
}

#[test]
fn the_first_wrong_field_is_reported() {
    let err = init4_bin_base::derive::derive(DeriveInput {
        ident: "S",
        shape: Shape::Named,
        crate_name: None,
        fields: vec![
            var("a", LeafType::Text, "A"),
            decl(Some("b"), FieldType::Other),
            var("c", LeafType::Text, ""),
        ],
    })
    .unwrap_err();
    assert_eq!(err, DeriveError::Field { index: 1, fault: FieldFault::NotLoadable });
}

#[test]
fn derived_names() {
    let plain = outer();
    assert_eq!(plain.ident, "Outer");
    assert_eq!(plain.crate_name, "::init4_bin_base");
    assert!(!plain.tuple_like);
    assert_eq!(plain.error_ident(), "OuterEnvError");
    assert_eq!(plain.mod_ident(), "__from_env_impls_Outer");
    assert_eq!(plain.field_names(), vec!["x", "inner"]);

    let renamed = init4_bin_base::derive::derive(DeriveInput {
        ident: "Pair",
        shape: Shape::Unnamed,
        crate_name: Some("crate"),
        fields: vec![
            FieldDecl { ident: None, ..var("", LeafType::Int(IntType::U8), "FIRST") },
            FieldDecl { ident: None, ..var("", LeafType::Text, "SECOND") },
        ],
    })
    .unwrap();
    assert_eq!(renamed.crate_name, "crate");
    assert!(renamed.tuple_like);
    assert_eq!(renamed.field_names(), vec!["field_0", "field_1"]);
    assert_eq!(
        renamed.error_variants(),
        vec![
            Variant { name: "Field0".to_string(), field: 0 },
            Variant { name: "Field1".to_string(), field: 1 },
        ]
    );
}

#[test]
fn numbers_are_written_in_decimal() {
    assert_eq!(decimal_string(0), "0");
    assert_eq!(decimal_string(9), "9");
    assert_eq!(decimal_string(10), "10");
    assert_eq!(decimal_string(1234567890), "1234567890");
    assert_eq!(decimal_string(usize::MAX), usize::MAX.to_string());
}

#[test]
fn variants_are_named_in_pascal_case_and_skip_infallible_fields() {
    let mut sure = var("plain_text", LeafType::Text, "T");
    sure.infallible = true;
    let mut memo = decl(Some("memo"), FieldType::Other);
    memo.skip = true;
    let input = structure(
        "S",
        vec![
            var("my_cool_u8", LeafType::Int(IntType::U8), "A"),
            sure,
            memo,
            var("unsure_text", LeafType::Text, "U"),
            decl(Some("little_config"), FieldType::Composite(inner())),
        ],
    );
    assert_eq!(
        input.error_variants(),
        vec![
            Variant { name: "MyCoolU8".to_string(), field: 0 },
            Variant { name: "UnsureText".to_string(), field: 3 },
            Variant { name: "LittleConfig".to_string(), field: 4 },
        ]
    );
    assert_eq!(input.fields[0].enum_variant_name(0), Some("MyCoolU8".to_string()));
    assert_eq!(input.fields[1].enum_variant_name(1), None);
    assert_eq!(input.fields[2].enum_variant_name(2), None);
    assert_eq!(input.fields[0].trait_name(), TraitName::FromEnvVar);
    assert_eq!(input.fields[2].trait_name(), TraitName::FromEnv);
    assert_eq!(input.fields[4].trait_name(), TraitName::FromEnv);
}

#[test]
fn every_leaf_type_loads() {
    let input = structure(
        "All",
        vec![
            var("a", LeafType::Int(IntType::U8), "U8"),
            var("b", LeafType::Int(IntType::U16), "U16"),
            var("c", LeafType::Int(IntType::U32), "U32"),
            var("d", LeafType::Int(IntType::U64), "U64"),
            var("e", LeafType::Int(IntType::U128), "U128"),
            var("f", LeafType::Int(IntType::Usize), "USIZE"),
            var("g", LeafType::Int(IntType::I8), "I8"),
            var("h", LeafType::Int(IntType::I16), "I16"),
            var("i", LeafType::Int(IntType::I32), "I32"),
            var("j", LeafType::Int(IntType::I64), "I64"),
            var("k", LeafType::Int(IntType::I128), "I128"),
            var("l", LeafType::Int(IntType::Isize), "ISIZE"),
            var("m", LeafType::Text, "TEXT"),
            var("n", LeafType::Flag, "FLAG"),
            var("o", LeafType::Millis, "MILLIS"),
            var("p", LeafType::Url, "URL"),
            var("q", LeafType::Level, "LEVEL"),
            var("r", LeafType::List, "LIST"),
            var("s", LeafType::Address, "ADDRESS"),
            var("t", LeafType::Bytes, "BYTES"),
            var("u", LeafType::U256, "U256"),
        ],
    );
    let env = env_of(&[
        ("U8", "255"),
        ("U16", "65535"),
        ("U32", "4294967295"),
        ("U64", "18446744073709551615"),
        ("U128", "340282366920938463463374607431768211455"),
        ("USIZE", "17"),
        ("I8", "-128"),
        ("I16", "-32768"),
        ("I32", "-2147483648"),
        ("I64", "-9223372036854775808"),
        ("I128", "-170141183460469231731687303715884105728"),
        ("ISIZE", "-17"),
        ("TEXT", "hello"),
        ("FLAG", "no"),
        ("MILLIS", "1500"),
        ("URL", "https://example.com"),
        ("LEVEL", "warn"),
        ("LIST", "a,b"),
        ("ADDRESS", "0x0101010101010101010101010101010101010101"),
        ("BYTES", "0xc0ffee"),
        ("U256", "0x10000000000000000"),
    ]);
    let loaded = input.from_env(&env).unwrap();
    let Value::Record(fields) = loaded else {
        panic!("not a record");
    };
    assert_eq!(fields[0], Value::U8(u8::MAX));
    assert_eq!(fields[1], Value::U16(u16::MAX));
    assert_eq!(fields[2], Value::U32(u32::MAX));
    assert_eq!(fields[3], Value::U64(u64::MAX));
    assert_eq!(fields[4], Value::U128(u128::MAX));
    assert_eq!(fields[5], Value::Usize(17));
    assert_eq!(fields[6], Value::I8(i8::MIN));
    assert_eq!(fields[7], Value::I16(i16::MIN));
    assert_eq!(fields[8], Value::I32(i32::MIN));
    assert_eq!(fields[9], Value::I64(i64::MIN));
    assert_eq!(fields[10], Value::I128(i128::MIN));
    assert_eq!(fields[11], Value::Isize(-17));
    assert_eq!(fields[12], Value::Text("hello".to_string()));
    assert_eq!(fields[13], Value::Flag(true));
    assert_eq!(fields[14], Value::Millis(Millis(1500)));
    match &fields[15] {
        Value::Url(url) => assert_eq!(url.as_str(), "https://example.com/"),
        other => panic!("unexpected value {:?}", other),
    }
    assert_eq!(fields[16], Value::Level(Level::Warn));
    assert_eq!(fields[17], Value::List(vec!["a".to_string(), "b".to_string()]));
    assert_eq!(fields[18], Value::Address(Address([1; 20])));
    assert_eq!(fields[19], Value::Bytes(Bytes(vec![0xc0, 0xff, 0xee])));
    assert_eq!(fields[20], Value::U256(U256([0, 1, 0, 0])));
}

#[test]
fn every_leaf_error_comes_under_its_variant() {
    let input = structure(
        "S",
        vec![
            var("port", LeafType::Int(IntType::U16), "PORT"),
            var("home", LeafType::Url, "HOME"),
            var("noise", LeafType::Level, "NOISE"),
            var("wait", LeafType::Millis, "WAIT"),
            var("owner", LeafType::Address, "OWNER"),
            var("total", LeafType::U256, "TOTAL"),
        ],
    );
    let good = [
        ("PORT", "1"),
        ("HOME", "http://h"),
        ("NOISE", "info"),
        ("WAIT", "5"),
        ("OWNER", "0x0101010101010101010101010101010101010101"),
        ("TOTAL", "1"),
    ];
    let failing = |name: &str, value: &str| {
        let mut env = env_of(&good);
        env.set(name, value);
        match input.from_env(&env).unwrap_err() {
            FromEnvErr::ParseError(e) => e,
            other => panic!("unexpected failure {:?}", other),
        }
    };
    let e = failing("PORT", "-1");
    assert_eq!(e.variant, "Port");
    assert_eq!(e.cause, Cause::Leaf(LeafError::Int(ParseIntError::InvalidDigit)));
    assert_eq!(e.message(), "invalid digit found in string");
    let e = failing("HOME", "nowhere");
    assert_eq!(e.variant, "Home");
    assert_eq!(e.cause, Cause::Leaf(LeafError::Url(UrlParseError::RelativeUrlWithoutBase)));
    assert_eq!(e.message(), "relative URL without a base");
    let e = failing("NOISE", "loud");
    assert_eq!(e.variant, "Noise");
    assert_eq!(e.cause, Cause::Leaf(LeafError::Level(ParseLevelError)));
    let e = failing("WAIT", "18446744073709551616");
    assert_eq!(e.variant, "Wait");
    assert_eq!(e.field, 3);
    assert_eq!(e.cause, Cause::Leaf(LeafError::Int(ParseIntError::PosOverflow)));
    assert_eq!(e.message(), "number too large to fit in target type");
    let e = failing("OWNER", "0x01");
    assert_eq!(e.variant, "Owner");
    assert_eq!(e.cause, Cause::Leaf(LeafError::Hex(HexError::InvalidStringLength)));
    assert_eq!(e.message(), "invalid string length");
    let e = failing("TOTAL", "1e3");
    assert_eq!(e.variant, "Total");
    assert_eq!(e.cause, Cause::Leaf(LeafError::Uint(UintError::InvalidDigit('e'))));
    assert_eq!(e.message(), "invalid digit");
}

#[test]
fn the_message_of_a_nested_failure_is_that_of_the_innermost() {
    let env = env_of(&[("X", "1"), ("A", "many"), ("B", "b"), ("C", "c")]);
    let FromEnvErr::ParseError(e) = outer().from_env(&env).unwrap_err() else {
        panic!("not a failure to parse");
    };
    assert_eq!(e.variant, "Inner");
    assert_eq!(e.message(), "invalid digit found in string");
    match e.source() {
        Cause::Nested(inner) => {
            assert_eq!(
                **inner,
                FieldError {
                    variant: "A".to_string(),
                    field: 0,
                    cause: Cause::Leaf(LeafError::Int(ParseIntError::InvalidDigit)),
                }
            );
        }
        other => panic!("unexpected cause {:?}", other),
    }
}

#[test]
fn nested_inventory_has_five_entries_and_presence_follows_them() {
    let items = outer().inventory();
    let names: Vec<&str> = items.iter().map(|item| item.var).collect();
    assert_eq!(names, vec!["X", "A", "B", "C", "D"]);
    assert_eq!(&items[1..], &inner().inventory()[..]);

    // `D` is optional: with the other four bound, nothing is missing.
    let mut env = env_of(&[("X", "1"), ("A", "2"), ("B", "3"), ("C", "4")]);
    assert_eq!(outer().check_inventory(&env), Ok(()));
    // Each required one, once unbound, is missing; `D` never is.
    for name in ["X", "A", "B", "C"] {
        let mut without = env_of(&[("X", "1"), ("A", "2"), ("B", "3"), ("C", "4"), ("D", "5")]);
        without.remove(name);
        let missing = outer().check_inventory(&without).unwrap_err();
        assert_eq!(missing.len(), 1);
        assert_eq!(missing[0].var, name);
        assert!(outer().from_env(&without).is_err());
    }
    env.remove("D");
    assert_eq!(outer().check_inventory(&env), Ok(()));
    // Presence is all that counts: an unreadable or blank variable is bound.
    env.set_not_unicode("A");
    env.set("B", "");
    assert_eq!(outer().check_inventory(&env), Ok(()));
}

#[test]
fn variables_outside_the_inventory_change_nothing() {
    let env = env_of(&[("X", "1"), ("A", "2"), ("B", "3"), ("C", "4")]);
    let mut more = env_of(&[("X", "1"), ("A", "2"), ("B", "3"), ("C", "4")]);
    more.set("E", "5");
    more.set("FIELD1", "6");
    more.set_not_unicode("G");
    assert_eq!(outer().from_env(&env), outer().from_env(&more));
}

#[test]
fn supplied_inputs_load_to_their_values() {
    let env = env_of(&[("X", "1"), ("A", "-2"), ("B", "three"), ("C", "4"), ("D", "5")]);
    assert_eq!(
        outer().from_env(&env),
        Ok(Value::Record(vec![
            Value::U8(1),
            Value::Record(vec![
                Value::I32(-2),
                Value::Text("three".to_string()),
                Value::Flag(true),
                some(Value::U16(5)),
            ]),
        ]))
    );
}

#[test]
fn the_optional_mark_changes_the_inventory_only() {
    let marked = |optional: bool| {
        let mut a = var("a", LeafType::Int(IntType::U8), "A");
        a.optional = optional;
        let mut b = optional_var("b", LeafType::Text, "B");
        b.optional = optional;
        structure("S", vec![a, b])
    };
    let envs = [
        env_of(&[]),
        env_of(&[("A", "1")]),
        env_of(&[("B", "x")]),
        env_of(&[("A", "1"), ("B", "x")]),
        env_of(&[("A", ""), ("B", "")]),
        env_of(&[("A", "x"), ("B", "x")]),
    ];
    for env in envs.iter() {
        assert_eq!(marked(true).from_env(env), marked(false).from_env(env));
    }
    assert!(marked(true).inventory().iter().all(|item| item.optional));
    assert!(marked(false).inventory().iter().all(|item| !item.optional));
    // A required mark on an `Option` does not make the variable needed for
    // the load, and an optional mark on a plain value does not excuse it.
    assert_eq!(
        marked(false).from_env(&env_of(&[("A", "1")])),
        Ok(Value::Record(vec![Value::U8(1), Value::Optional(None)]))
    );
    assert_eq!(
        marked(true).from_env(&env_of(&[])),
        Err(FromEnvErr::EnvError("A".to_string(), VarError::NotPresent))
    );
    assert_eq!(marked(true).check_inventory(&env_of(&[])), Ok(()));
}

#[test]
fn an_optional_structure_is_absent_where_its_input_is() {
    let input = outer_with_optional_inner();
    let full = env_of(&[("X", "1"), ("A", "2"), ("B", "3"), ("C", "4")]);
    assert_eq!(
        input.from_env(&full),
        Ok(Value::Record(vec![
            Value::U8(1),
            some(Value::Record(vec![
                Value::I32(2),
                Value::Text("3".to_string()),
                Value::Flag(true),
                Value::Optional(None),
            ])),
        ]))
    );
    // A missing or blank input of the inner structure leaves it out.
    let missing = env_of(&[("X", "1"), ("B", "3"), ("C", "4")]);
    assert_eq!(
        input.from_env(&missing),
        Ok(Value::Record(vec![Value::U8(1), Value::Optional(None)]))
    );
    let blank = env_of(&[("X", "1"), ("A", "2"), ("B", ""), ("C", "4")]);
    assert_eq!(
        input.from_env(&blank),
        Ok(Value::Record(vec![Value::U8(1), Value::Optional(None)]))
    );
    // A text that does not parse still fails the load.
    let malformed = env_of(&[("X", "1"), ("A", "two"), ("B", "3"), ("C", "4")]);
    assert_eq!(
        input.from_env(&malformed),
        Err(FromEnvErr::ParseError(FieldError {
            variant: "Inner".to_string(),
            field: 1,
            cause: Cause::Nested(Box::new(FieldError {
                variant: "A".to_string(),
                field: 0,
                cause: Cause::Leaf(LeafError::Int(ParseIntError::InvalidDigit)),
            })),
        }))
    );
    // The inventory is the same as without the `Option`.
    assert_eq!(input.inventory(), outer().inventory());
}

#[test]
fn failures_say_what_went_wrong() {
    let e: FromEnvErr<ParseIntError> = FromEnvErr::env_err("PORT", VarError::NotPresent);
    assert_eq!(
        e.message(|inner| inner.message().to_string()),
        "cannot read variable PORT: environment variable not found"
    );
    let e: FromEnvErr<ParseIntError> = FromEnvErr::env_err("PORT", VarError::NotUnicode);
    assert_eq!(
        e.message(|inner| inner.message().to_string()),
        "cannot read variable PORT: environment variable was not valid unicode"
    );
    let e: FromEnvErr<ParseIntError> = FromEnvErr::empty("PORT");
    assert_eq!(
        e.message(|inner| inner.message().to_string()),
        "environment variable PORT is empty"
    );
    let e = FromEnvErr::parse_error(ParseIntError::Empty);
    assert_eq!(
        e.message(|inner| inner.message().to_string()),
        "failed to parse environment variable cannot parse integer from empty string"
    );
    assert_eq!(ParseIntError::NegOverflow.message(), "number too small to fit in target type");
    assert_eq!(UrlParseError::EmptyHost.message(), "empty host");
    assert_eq!(
        ParseLevelError.message(),
        "error parsing level: expected one of \"error\", \"warn\", \"info\", \"debug\", \"trace\", or a number 1-5"
    );
}
