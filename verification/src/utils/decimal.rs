//! Decimal integers as the integer types read them from text: an optional
//! sign, then digits and nothing else.

use vstd::prelude::*;
use vstd::std_specs::iter::IteratorSpec;

verus! {

/// Why a text is not a decimal integer of the wanted type.
#[derive(Debug, Clone, Copy, PartialEq, Eq, Structural)]
pub enum ParseIntError {
    /// The text is empty.
    Empty,
    /// A character is no digit, or a sign stands alone or out of place.
    InvalidDigit,
    /// The number is above the type's largest value.
    PosOverflow,
    /// The number is below the type's smallest value.
    NegOverflow,
}

impl ParseIntError {
    /// What the failure says of the text.
    pub open spec fn text(self) -> Seq<char> {
        match self {
            ParseIntError::Empty => "cannot parse integer from empty string"@,
            ParseIntError::InvalidDigit => "invalid digit found in string"@,
            ParseIntError::PosOverflow => "number too large to fit in target type"@,
            ParseIntError::NegOverflow => "number too small to fit in target type"@,
        }
    }

    /// What the failure says of the text.
    pub fn message(&self) -> (text: &'static str)
        ensures
            text@ == self.text(),
    {
        match self {
            ParseIntError::Empty => "cannot parse integer from empty string",
            ParseIntError::InvalidDigit => "invalid digit found in string",
            ParseIntError::PosOverflow => "number too large to fit in target type",
            ParseIntError::NegOverflow => "number too small to fit in target type",
        }
    }
}

/// The value of a decimal digit, if `c` is one.
pub open spec fn digit_value(c: char) -> Option<int> {
    if '0' <= c && c <= '9' {
        Some(c as int - '0' as int)
    } else {
        None
    }
}

/// How reading digits from left to right ends.
pub enum Digits {
    /// Every character was a digit; the number they spell.
    Value(int),
    /// A character that is no digit came before the number passed the limit.
    Invalid,
    /// The number passed the limit before any character that is no digit.
    Overflow,
}

/// Reads `s` from left to right as the digits that follow a number `acc`
/// already read, with `limit` the largest number allowed.
pub open spec fn read_digits(s: Seq<char>, acc: int, limit: int) -> Digits
    decreases s.len(),
{
    if s.len() == 0 {
        Digits::Value(acc)
    } else {
        match digit_value(s[0]) {
            None => Digits::Invalid,
            Some(d) => if acc * 10 + d > limit {
                Digits::Overflow
            } else {
                read_digits(s.drop_first(), acc * 10 + d, limit)
            },
        }
    }
}

/// The integer that `s` spells for a type with the range `min ..= max`
/// (`min <= 0 <= max`), or why it spells none.
///
/// A `+` may come first; a `-` may come first where `min < 0`. A sign alone
/// is no number. Of a text that has both a character that is no digit and
/// too large a number, the failure that comes first from the left is reported.
pub open spec fn parse_decimal(s: Seq<char>, min: int, max: int) -> Result<int, ParseIntError> {
    if s.len() == 0 {
        Err(ParseIntError::Empty)
    } else if s.len() == 1 && (s[0] == '+' || s[0] == '-') {
        Err(ParseIntError::InvalidDigit)
    } else if s[0] == '-' && min < 0 {
        match read_digits(s.drop_first(), 0, -min) {
            Digits::Value(n) => Ok(-n),
            Digits::Invalid => Err(ParseIntError::InvalidDigit),
            Digits::Overflow => Err(ParseIntError::NegOverflow),
        }
    } else {
        match read_digits(
            if s[0] == '+' {
                s.drop_first()
            } else {
                s
            },
            0,
            max,
        ) {
            Digits::Value(n) => Ok(n),
            Digits::Invalid => Err(ParseIntError::InvalidDigit),
            Digits::Overflow => Err(ParseIntError::PosOverflow),
        }
    }
}

/// The character of a decimal digit.
pub open spec fn digit_char(d: int) -> char {
    if d == 0 {
        '0'
    } else if d == 1 {
        '1'
    } else if d == 2 {
        '2'
    } else if d == 3 {
        '3'
    } else if d == 4 {
        '4'
    } else if d == 5 {
        '5'
    } else if d == 6 {
        '6'
    } else if d == 7 {
        '7'
    } else if d == 8 {
        '8'
    } else {
        '9'
    }
}

/// A number in decimal digits, without a sign and without leading zeros.
pub open spec fn decimal_text(n: nat) -> Seq<char>
    decreases n,
{
    if n < 10 {
        seq![digit_char(n as int)]
    } else {
        decimal_text(n / 10).push(digit_char((n % 10) as int))
    }
}

/// Reading one digit more: what was read so far, times ten, and the digit,
/// unless reading had stopped before or the number now passes the limit.
pub proof fn lemma_read_one_more(s: Seq<char>, c: char, acc: int, limit: int)
    requires
        digit_value(c) is Some,
    ensures
        read_digits(s.push(c), acc, limit) == match read_digits(s, acc, limit) {
            Digits::Value(v) => if v * 10 + digit_value(c)->0 > limit {
                Digits::Overflow
            } else {
                Digits::Value(v * 10 + digit_value(c)->0)
            },
            stopped => stopped,
        },
    decreases s.len(),
{
    let longer = s.push(c);
    if s.len() == 0 {
        assert(longer[0] == c);
        assert(longer.drop_first() =~= s);
        let next = acc * 10 + digit_value(c)->0;
        assert(read_digits(s, next, limit) == Digits::Value(next));
        assert(read_digits(s, acc, limit) == Digits::Value(acc));
    } else {
        assert(longer[0] == s[0]);
        assert(longer.drop_first() =~= s.drop_first().push(c));
        match digit_value(s[0]) {
            None => {},
            Some(d) => {
                if acc * 10 + d <= limit {
                    lemma_read_one_more(s.drop_first(), c, acc * 10 + d, limit);
                }
            },
        }
    }
}

/// What is written in decimal digits is read back: the digits of a number
/// within the limit spell that number.
pub proof fn lemma_digits_read_back(n: nat, limit: int)
    requires
        n <= limit,
    ensures
        read_digits(decimal_text(n), 0, limit) == Digits::Value(n as int),
        decimal_text(n).len() > 0,
        digit_value(decimal_text(n)[0]) is Some,
    decreases n,
{
    if n < 10 {
        let s = decimal_text(n);
        assert(s[0] == digit_char(n as int));
        assert(s.drop_first() =~= Seq::<char>::empty());
        assert(digit_value(digit_char(n as int)) == Some(n as int));
        assert(read_digits(s.drop_first(), n as int, limit) == Digits::Value(n as int));
    } else {
        lemma_digits_read_back(n / 10, limit);
        let d = (n % 10) as int;
        assert(digit_value(digit_char(d)) == Some(d));
        lemma_read_one_more(decimal_text(n / 10), digit_char(d), 0, limit);
        assert((n / 10) * 10 + d == n);
        assert(decimal_text(n)[0] == decimal_text(n / 10)[0]);
    }
}

/// A number within the range of a type, written in decimal digits, parses
/// to that number.
pub proof fn lemma_written_number_parses(n: nat, min: int, max: int)
    requires
        min <= 0,
        n <= max,
    ensures
        parse_decimal(decimal_text(n), min, max) == Ok::<int, ParseIntError>(n as int),
{
    lemma_digits_read_back(n, max);
}

/// A parsed number as sign and size, so that every integer type fits.
pub struct Magnitude {
    /// Whether a `-` came first.
    pub negative: bool,
    /// The number without its sign.
    pub size: u128,
}

impl Magnitude {
    /// The integer that sign and size stand for.
    pub open spec fn value(self) -> int {
        if self.negative {
            -(self.size as int)
        } else {
            self.size as int
        }
    }
}

/// Why reading digits stopped early.
enum Stop {
    Invalid,
    Overflow,
}

/// Appends the digit `c` to the number `acc`.
fn push_digit(acc: u128, c: char, limit: u128) -> (r: Result<u128, Stop>)
    requires
        acc <= limit,
    ensures
        match r {
            Ok(n) => n <= limit && digit_value(c) == Some(n - acc * 10),
            Err(Stop::Invalid) => digit_value(c) is None,
            Err(Stop::Overflow) => digit_value(c) is Some && acc * 10 + digit_value(c)->0 > limit,
        },
{
    if '0' <= c && c <= '9' {
        let d: u128 = (c as u32 - '0' as u32) as u128;
        match acc.checked_mul(10) {
            None => Err(Stop::Overflow),
            Some(tenfold) => match tenfold.checked_add(d) {
                None => Err(Stop::Overflow),
                Some(n) => if n <= limit {
                    Ok(n)
                } else {
                    Err(Stop::Overflow)
                },
            },
        }
    } else {
        Err(Stop::Invalid)
    }
}

/// Parses `s` as a decimal integer in the range `-below ..= above`.
pub fn parse_magnitude(s: &str, below: u128, above: u128) -> (r: Result<Magnitude, ParseIntError>)
    ensures
        match r {
            Ok(m) => parse_decimal(s@, -(below as int), above as int) == Ok::<int, ParseIntError>(
                m.value(),
            ) && (m.negative ==> below > 0 && m.size <= below) && (!m.negative ==> m.size <= above),
            Err(e) => parse_decimal(s@, -(below as int), above as int) == Err::<
                int,
                ParseIntError,
            >(e),
        },
{
    let ghost text = s@;
    let mut chars = s.chars();
    let c = match chars.next() {
        None => {
            return Err(ParseIntError::Empty);
        },
        Some(c) => c,
    };
    let negative = c == '-' && below > 0;
    let has_sign = negative || c == '+';
    let limit: u128 = if negative {
        below
    } else {
        above
    };
    let ghost digits = if has_sign {
        text.drop_first()
    } else {
        text
    };
    let mut acc: u128 = 0;
    let mut any = false;
    if !has_sign {
        match push_digit(0, c, limit) {
            Ok(n) => {
                acc = n;
                any = true;
            },
            Err(Stop::Invalid) => {
                return Err(ParseIntError::InvalidDigit);
            },
            Err(Stop::Overflow) => {
                return Err(ParseIntError::PosOverflow);
            },
        }
    }
    loop
        invariant
            chars.obeys_prophetic_iter_laws(),
            chars.decrease() is Some,
            text == s@,
            text.len() >= 1,
            acc <= limit,
            limit == if negative {
                below
            } else {
                above
            },
            negative ==> has_sign && below > 0 && text[0] == '-',
            has_sign && !negative ==> text[0] == '+',
            has_sign ==> digits == text.drop_first(),
            !has_sign ==> digits == text && any && digit_value(text[0]) is Some,
            !any ==> chars.remaining() == text.drop_first(),
            any && has_sign ==> text.len() >= 2,
            read_digits(digits, 0, limit as int) == read_digits(
                chars.remaining(),
                acc as int,
                limit as int,
            ),
        decreases chars.decrease()->0,
    {
        match chars.next() {
            None => {
                if !any {
                    return Err(ParseIntError::InvalidDigit);
                }
                return Ok(Magnitude { negative, size: acc });
            },
            Some(c) => {
                match push_digit(acc, c, limit) {
                    Ok(n) => {
                        acc = n;
                        any = true;
                    },
                    Err(Stop::Invalid) => {
                        return Err(ParseIntError::InvalidDigit);
                    },
                    Err(Stop::Overflow) => {
                        return Err(
                            if negative {
                                ParseIntError::NegOverflow
                            } else {
                                ParseIntError::PosOverflow
                            },
                        );
                    },
                }
            },
        }
    }
}

/// Parses a `u8` from decimal text.
pub fn parse_u8(s: &str) -> (r: Result<u8, ParseIntError>)
    ensures
        match r {
            Ok(v) => parse_decimal(s@, 0, u8::MAX as int) == Ok::<int, ParseIntError>(v as int),
            Err(e) => parse_decimal(s@, 0, u8::MAX as int) == Err::<int, ParseIntError>(e),
        },
{
    match parse_magnitude(s, 0, u8::MAX as u128) {
        Ok(m) => Ok(m.size as u8),
        Err(e) => Err(e),
    }
}

/// Parses a `u16` from decimal text.
pub fn parse_u16(s: &str) -> (r: Result<u16, ParseIntError>)
    ensures
        match r {
            Ok(v) => parse_decimal(s@, 0, u16::MAX as int) == Ok::<int, ParseIntError>(v as int),
            Err(e) => parse_decimal(s@, 0, u16::MAX as int) == Err::<int, ParseIntError>(e),
        },
{
    match parse_magnitude(s, 0, u16::MAX as u128) {
        Ok(m) => Ok(m.size as u16),
        Err(e) => Err(e),
    }
}

/// Parses a `u32` from decimal text.
pub fn parse_u32(s: &str) -> (r: Result<u32, ParseIntError>)
    ensures
        match r {
            Ok(v) => parse_decimal(s@, 0, u32::MAX as int) == Ok::<int, ParseIntError>(v as int),
            Err(e) => parse_decimal(s@, 0, u32::MAX as int) == Err::<int, ParseIntError>(e),
        },
{
    match parse_magnitude(s, 0, u32::MAX as u128) {
        Ok(m) => Ok(m.size as u32),
        Err(e) => Err(e),
    }
}

/// Parses a `u64` from decimal text.
pub fn parse_u64(s: &str) -> (r: Result<u64, ParseIntError>)
    ensures
        match r {
            Ok(v) => parse_decimal(s@, 0, u64::MAX as int) == Ok::<int, ParseIntError>(v as int),
            Err(e) => parse_decimal(s@, 0, u64::MAX as int) == Err::<int, ParseIntError>(e),
        },
{
    match parse_magnitude(s, 0, u64::MAX as u128) {
        Ok(m) => Ok(m.size as u64),
        Err(e) => Err(e),
    }
}

/// Parses a `u128` from decimal text.
pub fn parse_u128(s: &str) -> (r: Result<u128, ParseIntError>)
    ensures
        match r {
            Ok(v) => parse_decimal(s@, 0, u128::MAX as int) == Ok::<int, ParseIntError>(v as int),
            Err(e) => parse_decimal(s@, 0, u128::MAX as int) == Err::<int, ParseIntError>(e),
        },
{
    match parse_magnitude(s, 0, u128::MAX as u128) {
        Ok(m) => Ok(m.size as u128),
        Err(e) => Err(e),
    }
}

/// Parses a `usize` from decimal text.
pub fn parse_usize(s: &str) -> (r: Result<usize, ParseIntError>)
    ensures
        match r {
            Ok(v) => parse_decimal(s@, 0, usize::MAX as int) == Ok::<int, ParseIntError>(v as int),
            Err(e) => parse_decimal(s@, 0, usize::MAX as int) == Err::<int, ParseIntError>(e),
        },
{
    match parse_magnitude(s, 0, usize::MAX as u128) {
        Ok(m) => Ok(m.size as usize),
        Err(e) => Err(e),
    }
}

/// Parses an `i8` from decimal text.
pub fn parse_i8(s: &str) -> (r: Result<i8, ParseIntError>)
    ensures
        match r {
            Ok(v) => parse_decimal(s@, i8::MIN as int, i8::MAX as int) == Ok::<
                int,
                ParseIntError,
            >(v as int),
            Err(e) => parse_decimal(s@, i8::MIN as int, i8::MAX as int) == Err::<
                int,
                ParseIntError,
            >(e),
        },
{
    let below: u128 = (i8::MAX as u128) + 1;
    match parse_magnitude(s, below, i8::MAX as u128) {
        Ok(m) => if !m.negative {
            Ok(m.size as i8)
        } else if m.size == below {
            Ok(i8::MIN)
        } else {
            Ok(-(m.size as i8))
        },
        Err(e) => Err(e),
    }
}

/// Parses an `i16` from decimal text.
pub fn parse_i16(s: &str) -> (r: Result<i16, ParseIntError>)
    ensures
        match r {
            Ok(v) => parse_decimal(s@, i16::MIN as int, i16::MAX as int) == Ok::<
                int,
                ParseIntError,
            >(v as int),
            Err(e) => parse_decimal(s@, i16::MIN as int, i16::MAX as int) == Err::<
                int,
                ParseIntError,
            >(e),
        },
{
    let below: u128 = (i16::MAX as u128) + 1;
    match parse_magnitude(s, below, i16::MAX as u128) {
        Ok(m) => if !m.negative {
            Ok(m.size as i16)
        } else if m.size == below {
            Ok(i16::MIN)
        } else {
            Ok(-(m.size as i16))
        },
        Err(e) => Err(e),
    }
}

/// Parses an `i32` from decimal text.
pub fn parse_i32(s: &str) -> (r: Result<i32, ParseIntError>)
    ensures
        match r {
            Ok(v) => parse_decimal(s@, i32::MIN as int, i32::MAX as int) == Ok::<
                int,
                ParseIntError,
            >(v as int),
            Err(e) => parse_decimal(s@, i32::MIN as int, i32::MAX as int) == Err::<
                int,
                ParseIntError,
            >(e),
        },
{
    let below: u128 = (i32::MAX as u128) + 1;
    match parse_magnitude(s, below, i32::MAX as u128) {
        Ok(m) => if !m.negative {
            Ok(m.size as i32)
        } else if m.size == below {
            Ok(i32::MIN)
        } else {
            Ok(-(m.size as i32))
        },
        Err(e) => Err(e),
    }
}

/// Parses an `i64` from decimal text.
pub fn parse_i64(s: &str) -> (r: Result<i64, ParseIntError>)
    ensures
        match r {
            Ok(v) => parse_decimal(s@, i64::MIN as int, i64::MAX as int) == Ok::<
                int,
                ParseIntError,
            >(v as int),
            Err(e) => parse_decimal(s@, i64::MIN as int, i64::MAX as int) == Err::<
                int,
                ParseIntError,
            >(e),
        },
{
    let below: u128 = (i64::MAX as u128) + 1;
    match parse_magnitude(s, below, i64::MAX as u128) {
        Ok(m) => if !m.negative {
            Ok(m.size as i64)
        } else if m.size == below {
            Ok(i64::MIN)
        } else {
            Ok(-(m.size as i64))
        },
        Err(e) => Err(e),
    }
}

/// Parses an `i128` from decimal text.
pub fn parse_i128(s: &str) -> (r: Result<i128, ParseIntError>)
    ensures
        match r {
            Ok(v) => parse_decimal(s@, i128::MIN as int, i128::MAX as int) == Ok::<
                int,
                ParseIntError,
            >(v as int),
            Err(e) => parse_decimal(s@, i128::MIN as int, i128::MAX as int) == Err::<
                int,
                ParseIntError,
            >(e),
        },
{
    let below: u128 = (i128::MAX as u128) + 1;
    match parse_magnitude(s, below, i128::MAX as u128) {
        Ok(m) => if !m.negative {
            Ok(m.size as i128)
        } else if m.size == below {
            Ok(i128::MIN)
        } else {
            Ok(-(m.size as i128))
        },
        Err(e) => Err(e),
    }
}

/// Parses an `isize` from decimal text.
pub fn parse_isize(s: &str) -> (r: Result<isize, ParseIntError>)
    ensures
        match r {
            Ok(v) => parse_decimal(s@, isize::MIN as int, isize::MAX as int) == Ok::<
                int,
                ParseIntError,
            >(v as int),
            Err(e) => parse_decimal(s@, isize::MIN as int, isize::MAX as int) == Err::<
                int,
                ParseIntError,
            >(e),
        },
{
    let below: u128 = (isize::MAX as u128) + 1;
    match parse_magnitude(s, below, isize::MAX as u128) {
        Ok(m) => if !m.negative {
            Ok(m.size as isize)
        } else if m.size == below {
            Ok(isize::MIN)
        } else {
            Ok(-(m.size as isize))
        },
        Err(e) => Err(e),
    }
}

} // verus!
