use init4_bin_base::derive::names::decimal_string;
use init4_bin_base::utils::decimal::{
    parse_i128, parse_i16, parse_i32, parse_i64, parse_i8, parse_isize, parse_u128, parse_u16,
    parse_u32, parse_u64, parse_u8, parse_usize, ParseIntError,
};
use init4_bin_base::utils::from_env::split_commas;
use init4_bin_base::utils::level::{Level, ParseLevelError};

/// A small generator of numbers that repeats from run to run.
struct Lcg(u64);

impl Lcg {
    fn next(&mut self) -> u64 {
        self.0 = self.0.wrapping_mul(6364136223846793005).wrapping_add(1442695040888963407);
        self.0 >> 33
    }

    fn text(&mut self, alphabet: &[char], max_len: u64) -> String {
        let len = self.next() % (max_len + 1);
        (0..len).map(|_| alphabet[(self.next() % alphabet.len() as u64) as usize]).collect()
    }
}

fn kind<T>(text: &str) -> Result<T, ParseIntError>
where
    T: std::str::FromStr<Err = std::num::ParseIntError>,
{
    text.parse::<T>().map_err(|e| match e.kind() {
        std::num::IntErrorKind::Empty => ParseIntError::Empty,
        std::num::IntErrorKind::InvalidDigit => ParseIntError::InvalidDigit,
        std::num::IntErrorKind::PosOverflow => ParseIntError::PosOverflow,
        std::num::IntErrorKind::NegOverflow => ParseIntError::NegOverflow,
        other => panic!("unexpected kind {:?}", other),
    })
}

fn assert_integers_agree(text: &str) {
    assert_eq!(parse_u8(text), kind::<u8>(text), "u8 {:?}", text);
    assert_eq!(parse_u16(text), kind::<u16>(text), "u16 {:?}", text);
    assert_eq!(parse_u32(text), kind::<u32>(text), "u32 {:?}", text);
    assert_eq!(parse_u64(text), kind::<u64>(text), "u64 {:?}", text);
    assert_eq!(parse_u128(text), kind::<u128>(text), "u128 {:?}", text);
    assert_eq!(parse_usize(text), kind::<usize>(text), "usize {:?}", text);
    assert_eq!(parse_i8(text), kind::<i8>(text), "i8 {:?}", text);
    assert_eq!(parse_i16(text), kind::<i16>(text), "i16 {:?}", text);
    assert_eq!(parse_i32(text), kind::<i32>(text), "i32 {:?}", text);
    assert_eq!(parse_i64(text), kind::<i64>(text), "i64 {:?}", text);
    assert_eq!(parse_i128(text), kind::<i128>(text), "i128 {:?}", text);
    assert_eq!(parse_isize(text), kind::<isize>(text), "isize {:?}", text);
}

#[test]
fn generated_texts_parse_as_the_standard_library_parses_them() {
    let mut gen = Lcg(1);
    let short = ['0', '1', '2', '5', '9', '+', '-', 'x', ' ', '_', '٣'];
    for _ in 0..4000 {
        assert_integers_agree(&gen.text(&short, 5));
    }
    let digits = ['0', '1', '3', '7', '9'];
    for _ in 0..2000 {
        let body = gen.text(&digits, 42);
        assert_integers_agree(&body);
        assert_integers_agree(&format!("-{}", body));
        assert_integers_agree(&format!("+{}", body));
        assert_integers_agree(&format!("{}x", body));
    }
}

#[test]
fn numbers_near_the_limits_parse_as_the_standard_library_parses_them() {
    let limits: [i128; 12] = [
        i8::MIN as i128,
        i8::MAX as i128,
        u8::MAX as i128,
        i16::MIN as i128,
        i16::MAX as i128,
        u16::MAX as i128,
        i32::MIN as i128,
        i32::MAX as i128,
        u32::MAX as i128,
        i64::MIN as i128,
        i64::MAX as i128,
        u64::MAX as i128,
    ];
    for limit in limits {
        for delta in -2i128..=2 {
            assert_integers_agree(&(limit + delta).to_string());
        }
    }
    for text in [
        "170141183460469231731687303715884105727",
        "170141183460469231731687303715884105728",
        "-170141183460469231731687303715884105728",
        "-170141183460469231731687303715884105729",
        "340282366920938463463374607431768211455",
        "340282366920938463463374607431768211456",
        "340282366920938463463374607431768211460",
        "3402823669209384634633746074317682114550",
    ] {
        assert_integers_agree(text);
    }
}

#[test]
fn texts_are_cut_as_the_standard_library_cuts_them() {
    let mut gen = Lcg(2);
    let alphabet = [',', 'a', 'b', ' ', 'é', '，'];
    for _ in 0..4000 {
        let text = gen.text(&alphabet, 8);
        let expected: Vec<String> = text.split(',').map(str::to_string).collect();
        assert_eq!(split_commas(&text), expected, "{:?}", text);
    }
}

#[test]
fn numbers_are_written_as_the_standard_library_writes_them() {
    let mut gen = Lcg(3);
    for n in 0..1200usize {
        assert_eq!(decimal_string(n), n.to_string());
    }
    for _ in 0..2000 {
        let n = (gen.next() as usize).wrapping_mul(gen.next() as usize);
        assert_eq!(decimal_string(n), n.to_string());
    }
}

/// The level that a text names, written out once more by hand.
fn level_of(text: &str) -> Result<Level, ParseLevelError> {
    match parse_usize(text) {
        Ok(1) => return Ok(Level::Error),
        Ok(2) => return Ok(Level::Warn),
        Ok(3) => return Ok(Level::Info),
        Ok(4) => return Ok(Level::Debug),
        Ok(5) => return Ok(Level::Trace),
        _ => {}
    }
    let names = [
        ("error", Level::Error),
        ("warn", Level::Warn),
        ("info", Level::Info),
        ("debug", Level::Debug),
        ("trace", Level::Trace),
    ];
    for (name, level) in names {
        if text.eq_ignore_ascii_case(name) {
            return Ok(level);
        }
    }
    Err(ParseLevelError)
}

#[test]
fn levels_are_read_as_described() {
    let mut gen = Lcg(4);
    let alphabet = ['0', '1', '3', '5', '6', '+', '-', ' '];
    for _ in 0..3000 {
        let text = gen.text(&alphabet, 4);
        assert_eq!(Level::parse(&text), level_of(&text), "{:?}", text);
    }
    let letters = ['e', 'E', 'r', 'R', 'o', 'w', 'W', 'a', 'n', 'i', 'I', 'f', 'd', 'b', 'u', 'g', 't', 'c'];
    for _ in 0..3000 {
        let text = gen.text(&letters, 5);
        assert_eq!(Level::parse(&text), level_of(&text), "{:?}", text);
    }
    for name in ["error", "warn", "info", "debug", "trace", "off", "ınfo", "İNFO", "errorſ"] {
        for mask in 0u32..32 {
            let text: String = name
                .chars()
                .enumerate()
                .map(|(i, c)| if mask >> (i % 5) & 1 == 1 { c.to_ascii_uppercase() } else { c })
                .collect();
            assert_eq!(Level::parse(&text), level_of(&text), "{:?}", text);
        }
    }
}
