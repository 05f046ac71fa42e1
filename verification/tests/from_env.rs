use std::fmt::Debug;

use init4_bin_base::utils::decimal::{
    parse_i128, parse_i16, parse_i32, parse_i64, parse_i8, parse_isize, parse_u128, parse_u16,
    parse_u32, parse_u64, parse_u8, parse_usize, ParseIntError,
};
use init4_bin_base::utils::from_env::{Env, FromEnvErr, FromEnvVar, Millis, VarError};
use init4_bin_base::utils::level::{Level, ParseLevelError};
use init4_bin_base::utils::url::{Url, UrlParseError};

fn set<T>(env: &mut Env, name: &str, val: &T)
where
    T: ToString,
{
    env.set(name, &val.to_string());
}

fn load_expect_err<T>(env: &Env, name: &str, err: FromEnvErr<T::Error>)
where
    T: FromEnvVar + Debug,
    T::Error: PartialEq + Debug,
{
    let res = T::from_env_var(env, name).unwrap_err();
    assert_eq!(res, err);
}

fn test<T>(name: &str, val: T)
where
    T: ToString + FromEnvVar + PartialEq + Debug,
    T::Error: Debug,
{
    let mut env = Env::new();
    set(&mut env, name, &val);

    let res = T::from_env_var(&env, name).unwrap();
    assert_eq!(res, val);
}

fn test_expect_err<T, U>(name: &str, value: U, err: FromEnvErr<T::Error>)
where
    T: FromEnvVar + Debug,
    U: ToString,
    T::Error: PartialEq + Debug,
{
    let mut env = Env::new();
    set(&mut env, name, &value);
    load_expect_err::<T>(&env, name, err);
}

#[test]
fn test_primitives() {
    test("U8", 42u8);
    test("U16", 42u16);
    test("U32", 42u32);
    test("U64", 42u64);
    test("U128", 42u128);
    test("Usize", 42usize);
    test("I8", 42i8);
    test("I8-NEG", -42i16);
    test("I16", 42i16);
    test("I32", 42i32);
    test("I64", 42i64);
    test("I128", 42i128);
    test("Isize", 42isize);
    test("String", "hello".to_string());

    let url = url::Url::parse("http://example.com").unwrap();
    let mut env = Env::new();
    set(&mut env, "Url", &url);
    let res = Url::from_env_var(&env, "Url").unwrap();
    assert_eq!(res.as_str(), url.as_str());

    set(&mut env, "Level", &tracing_core::Level::INFO);
    let res = Level::from_env_var(&env, "Level").unwrap();
    assert_eq!(res, Level::Info);
}

#[test]
fn test_duration() {
    let amnt = 42;
    let val = Millis(42);

    let mut env = Env::new();
    set(&mut env, "Duration", &amnt);
    let res = Millis::from_env_var(&env, "Duration").unwrap();

    assert_eq!(res, val);
    assert_eq!(
        std::time::Duration::from_millis(res.0),
        std::time::Duration::from_millis(42)
    );
}

#[test]
fn test_a_few_errors() {
    assert_eq!(
        "30000".parse::<u8>().unwrap_err().kind(),
        &std::num::IntErrorKind::PosOverflow
    );
    test_expect_err::<u8, _>(
        "U8_",
        30000u16,
        FromEnvErr::parse_error(ParseIntError::PosOverflow),
    );

    test_expect_err::<u8, _>("U8_", "", FromEnvErr::empty("U8_"));
}

#[test]
fn unbound_variable_is_an_env_error() {
    let env = Env::new();
    load_expect_err::<u32>(&env, "NOPE", FromEnvErr::env_err("NOPE", VarError::NotPresent));
    load_expect_err::<String>(&env, "NOPE", FromEnvErr::env_err("NOPE", VarError::NotPresent));
    load_expect_err::<bool>(&env, "NOPE", FromEnvErr::env_err("NOPE", VarError::NotPresent));
}

#[test]
fn unreadable_variable_is_an_env_error() {
    let mut env = Env::new();
    env.set_not_unicode("RAW");
    assert!(env.is_set("RAW"));
    assert_eq!(env.var("RAW"), Err(VarError::NotUnicode));
    load_expect_err::<u32>(&env, "RAW", FromEnvErr::env_err("RAW", VarError::NotUnicode));
    assert_eq!(Option::<u32>::from_env_var(&env, "RAW"), Ok(None));
}

#[test]
fn env_set_replace_remove() {
    let mut env = Env::new();
    assert_eq!(env.var("A"), Err(VarError::NotPresent));
    assert!(!env.is_set("A"));
    env.set("A", "1");
    env.set("A", "2");
    assert_eq!(env.var("A"), Ok("2".to_string()));
    env.remove("A");
    assert_eq!(env.var("A"), Err(VarError::NotPresent));
    env.remove("A");
    assert!(!env.is_set("A"));
}

/// What `str::parse` gives for an integer type, under this library's error.
fn std_kind<T>(text: &str) -> Result<T, ParseIntError>
where
    T: std::str::FromStr<Err = std::num::ParseIntError>,
{
    text.parse::<T>().map_err(|e| match e.kind() {
        std::num::IntErrorKind::Empty => ParseIntError::Empty,
        std::num::IntErrorKind::InvalidDigit => ParseIntError::InvalidDigit,
        std::num::IntErrorKind::PosOverflow => ParseIntError::PosOverflow,
        std::num::IntErrorKind::NegOverflow => ParseIntError::NegOverflow,
        other => panic!("unexpected kind {:?}", other),
    })
}

const SAMPLES: [&str; 40] = [
    "", "+", "-", "0", "-0", "+0", "00", "007", "1", "-1", "+1", "++1", "+-1", "--1", "1-", "1+",
    " 1", "1 ", "1_0", "127", "128", "-128", "-129", "255", "256", "-255", "65535", "65536",
    "4294967295", "4294967296", "18446744073709551615", "18446744073709551616",
    "9223372036854775807", "-9223372036854775808", "-9223372036854775809",
    "340282366920938463463374607431768211455", "340282366920938463463374607431768211456",
    "-170141183460469231731687303715884105728", "-170141183460469231731687303715884105729",
    "99999999999999999999999999999999999999999999x",
];

#[test]
fn integers_parse_as_the_standard_library_parses_them() {
    for text in SAMPLES.iter().chain(["12x", "x12", "٣", "1٣", "2560x", "999x"].iter()) {
        assert_eq!(parse_u8(text), std_kind::<u8>(text), "u8 {:?}", text);
        assert_eq!(parse_u16(text), std_kind::<u16>(text), "u16 {:?}", text);
        assert_eq!(parse_u32(text), std_kind::<u32>(text), "u32 {:?}", text);
        assert_eq!(parse_u64(text), std_kind::<u64>(text), "u64 {:?}", text);
        assert_eq!(parse_u128(text), std_kind::<u128>(text), "u128 {:?}", text);
        assert_eq!(parse_usize(text), std_kind::<usize>(text), "usize {:?}", text);
        assert_eq!(parse_i8(text), std_kind::<i8>(text), "i8 {:?}", text);
        assert_eq!(parse_i16(text), std_kind::<i16>(text), "i16 {:?}", text);
        assert_eq!(parse_i32(text), std_kind::<i32>(text), "i32 {:?}", text);
        assert_eq!(parse_i64(text), std_kind::<i64>(text), "i64 {:?}", text);
        assert_eq!(parse_i128(text), std_kind::<i128>(text), "i128 {:?}", text);
        assert_eq!(parse_isize(text), std_kind::<isize>(text), "isize {:?}", text);
    }
}

#[test]
fn fallback_takes_the_default_for_missing_and_blank_only() {
    let mut env = Env::new();
    assert_eq!(u16::from_env_var_or(&env, "PORT", 9000), Ok(9000));
    env.set("PORT", "");
    assert_eq!(u16::from_env_var_or(&env, "PORT", 9000), Ok(9000));
    assert_eq!(u16::from_env_var_or_else(&env, "PORT", || 7), Ok(7));
    assert_eq!(u16::from_env_var_or_default(&env, "PORT"), Ok(0));
    env.set("PORT", "8080");
    assert_eq!(u16::from_env_var_or(&env, "PORT", 9000), Ok(8080));
    assert_eq!(u16::from_env_var_or_else(&env, "PORT", || 7), Ok(8080));
    assert_eq!(u16::from_env_var_or_default(&env, "PORT"), Ok(8080));
    env.set("PORT", "eighty");
    let malformed = Err(FromEnvErr::ParseError(ParseIntError::InvalidDigit));
    assert_eq!(u16::from_env_var_or(&env, "PORT", 9000), malformed);
    assert_eq!(u16::from_env_var_or_else(&env, "PORT", || 7), malformed);
    assert_eq!(u16::from_env_var_or_default(&env, "PORT"), malformed);
}

#[test]
fn optional_wrapper_turns_absence_into_none() {
    let mut env = Env::new();
    assert_eq!(Option::<u8>::from_env_var(&env, "X"), Ok(None));
    env.set("X", "");
    assert_eq!(Option::<u8>::from_env_var(&env, "X"), Ok(None));
    env.set("X", "9");
    assert_eq!(Option::<u8>::from_env_var(&env, "X"), Ok(Some(9)));
    env.set("X", "nine");
    assert_eq!(
        Option::<u8>::from_env_var(&env, "X"),
        Err(FromEnvErr::ParseError(ParseIntError::InvalidDigit))
    );
}

#[test]
fn optional_wrapper_has_no_use_for_a_default() {
    let mut env = Env::new();
    assert_eq!(Option::<u8>::from_env_var_or(&env, "X", Some(1)), Ok(None));
    env.set("X", "");
    assert_eq!(Option::<u8>::from_env_var_or(&env, "X", Some(1)), Ok(None));
    env.set("X", "2");
    assert_eq!(Option::<u8>::from_env_var_or(&env, "X", Some(1)), Ok(Some(2)));
}

#[test]
fn ownership_wrappers_load_as_what_they_hold() {
    let mut env = Env::new();
    env.set("X", "9");
    assert_eq!(Box::<u8>::from_env_var(&env, "X"), Ok(Box::new(9)));
    assert_eq!(std::sync::Arc::<u8>::from_env_var(&env, "X"), Ok(std::sync::Arc::new(9)));
    assert_eq!(
        std::borrow::Cow::<'static, str>::from_env_var(&env, "X"),
        Ok(std::borrow::Cow::Owned("9".to_string()))
    );
    env.remove("X");
    assert_eq!(
        Box::<u8>::from_env_var(&env, "X"),
        Err(FromEnvErr::env_err("X", VarError::NotPresent))
    );
}

#[test]
fn flag_is_set_by_any_text() {
    let mut env = Env::new();
    env.set("F", "0");
    assert_eq!(bool::from_env_var(&env, "F").unwrap(), true);
    env.set("F", "");
    assert_eq!(bool::from_env_var(&env, "F").unwrap_err(), FromEnvErr::empty("F"));
}

#[test]
fn list_is_cut_at_every_comma() {
    let mut env = Env::new();
    env.set("L", "a,b,,c,");
    let parts = Vec::<String>::from_env_var(&env, "L").unwrap();
    assert_eq!(parts, vec!["a", "b", "", "c", ""]);
    env.set("L", "plain");
    assert_eq!(Vec::<String>::from_env_var(&env, "L").unwrap(), vec!["plain"]);
    env.set("L", "");
    assert_eq!(Vec::<String>::from_env_var(&env, "L").unwrap_err(), FromEnvErr::empty("L"));
}

#[test]
fn url_is_normalized_by_the_parser() {
    let url = Url::parse("HTTP://Example.COM:80/a/../b").unwrap();
    assert_eq!(url.as_str(), "http://example.com/b");
    assert_eq!(Url::parse("not a url"), Err(UrlParseError::RelativeUrlWithoutBase));
    assert_eq!(Url::parse("http://"), Err(UrlParseError::EmptyHost));
    assert_eq!(Url::parse("http://example.com:99999"), Err(UrlParseError::InvalidPort));
    assert_eq!(Url::parse("http://1.2.3.256"), Err(UrlParseError::InvalidIpv4Address));
    assert_eq!(Url::parse("http://[::g]"), Err(UrlParseError::InvalidIpv6Address));
    assert_eq!(Url::parse("foo://exa mple.com"), Err(UrlParseError::InvalidDomainCharacter));
    assert_eq!(Url::parse("http://xn--a.example"), Err(UrlParseError::IdnaError));
}

#[test]
fn level_is_read_from_number_or_name() {
    assert_eq!(Level::parse("1"), Ok(Level::Error));
    assert_eq!(Level::parse("2"), Ok(Level::Warn));
    assert_eq!(Level::parse("3"), Ok(Level::Info));
    assert_eq!(Level::parse("4"), Ok(Level::Debug));
    assert_eq!(Level::parse("5"), Ok(Level::Trace));
    assert_eq!(Level::parse("+3"), Ok(Level::Info));
    assert_eq!(Level::parse("003"), Ok(Level::Info));
    assert_eq!(Level::parse("0"), Err(ParseLevelError));
    assert_eq!(Level::parse("6"), Err(ParseLevelError));
    assert_eq!(Level::parse("wArN"), Ok(Level::Warn));
    assert_eq!(Level::parse("TRACE"), Ok(Level::Trace));
    assert_eq!(Level::parse("error"), Ok(Level::Error));
    assert_eq!(Level::parse("Debug"), Ok(Level::Debug));
    assert_eq!(Level::parse("off"), Err(ParseLevelError));
    assert_eq!(Level::parse(""), Err(ParseLevelError));
    assert_eq!(Level::parse(" info"), Err(ParseLevelError));
}

#[test]
fn error_conversions_keep_input_failures() {
    let e: FromEnvErr<u8> = FromEnvErr::empty("X");
    assert_eq!(e.clone().map(|n| n as u32 + 1), FromEnvErr::Empty("X".to_string()));
    assert_eq!(FromEnvErr::<u32>::from(e), FromEnvErr::Empty("X".to_string()));
    let e: FromEnvErr<u8> = FromEnvErr::parse_error(7);
    assert_eq!(e.clone().map(|n| n as u32 + 1), FromEnvErr::ParseError(8u32));
    assert_eq!(FromEnvErr::<u32>::from(e), FromEnvErr::ParseError(7u32));
    let e: FromEnvErr<std::convert::Infallible> = FromEnvErr::env_err("Y", VarError::NotPresent);
    assert_eq!(
        e.infallible_into::<u8>(),
        FromEnvErr::EnvError("Y".to_string(), VarError::NotPresent)
    );
}
