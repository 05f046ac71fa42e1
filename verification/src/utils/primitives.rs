//! Addresses, byte strings and 256-bit integers, read from text by the
//! `alloy` crate.

use alloy::primitives::hex::FromHexError;
use alloy::primitives::ruint::{BaseConvertError, ParseError};
use std::str::FromStr;
use vstd::prelude::*;

use crate::utils::from_env::{
    parse_env_if_present, present_or_fails, Env, FromEnvErr, FromEnvVar, VarError,
};

verus! {

/// Why a text is no hexadecimal data of the wanted length.
#[derive(Debug, Clone, Copy, PartialEq, Eq, Structural)]
pub enum HexError {
    /// A character is no hexadecimal digit.
    InvalidHexCharacter {
        /// The character.
        c: char,
        /// Where it stands.
        index: usize,
    },
    /// The number of digits is odd.
    OddLength,
    /// The number of digits is not twice the number of bytes wanted.
    InvalidStringLength,
}

/// Why a text is no 256-bit integer.
#[derive(Debug, Clone, Copy, PartialEq, Eq, Structural)]
pub enum UintError {
    /// A character is no digit.
    InvalidDigit(char),
    /// The base of the number is not supported.
    InvalidRadix(u64),
    /// The number does not fit in 256 bits.
    Overflow,
    /// The base of the number is less than two.
    InvalidBase(u64),
    /// A digit is out of range for the base: the digit, then the base.
    DigitOutOfRange(u64, u64),
}

impl HexError {
    /// What the failure says of the text.
    pub open spec fn text(self) -> Seq<char> {
        match self {
            HexError::InvalidHexCharacter { .. } => "invalid character in hexadecimal text"@,
            HexError::OddLength => "odd number of digits"@,
            HexError::InvalidStringLength => "invalid string length"@,
        }
    }

    /// What the failure says of the text.
    pub fn message(&self) -> (text: &'static str)
        ensures
            text@ == self.text(),
    {
        match self {
            HexError::InvalidHexCharacter { .. } => "invalid character in hexadecimal text",
            HexError::OddLength => "odd number of digits",
            HexError::InvalidStringLength => "invalid string length",
        }
    }
}

impl UintError {
    /// What the failure says of the text.
    pub open spec fn text(self) -> Seq<char> {
        match self {
            UintError::InvalidDigit(_) => "invalid digit"@,
            UintError::InvalidRadix(_) => "invalid radix, up to 64 is supported"@,
            UintError::Overflow => "the value is too large to fit the target type"@,
            UintError::InvalidBase(_) => "the requested number base is less than two"@,
            UintError::DigitOutOfRange(_, _) => "digit out of range for the requested base"@,
        }
    }

    /// What the failure says of the text.
    pub fn message(&self) -> (text: &'static str)
        ensures
            text@ == self.text(),
    {
        match self {
            UintError::InvalidDigit(_) => "invalid digit",
            UintError::InvalidRadix(_) => "invalid radix, up to 64 is supported",
            UintError::Overflow => "the value is too large to fit the target type",
            UintError::InvalidBase(_) => "the requested number base is less than two",
            UintError::DigitOutOfRange(_, _) => "digit out of range for the requested base",
        }
    }
}

/// A 20-byte address.
#[derive(Debug, Clone, Copy, PartialEq, Eq)]
pub struct Address(pub [u8; 20]);

/// A string of bytes.
#[derive(Debug, Clone, PartialEq, Eq)]
pub struct Bytes(pub Vec<u8>);

/// An unsigned integer of 256 bits, as four limbs of 64 bits from the
/// least significant to the most.
#[derive(Debug, Clone, Copy, PartialEq, Eq)]
pub struct U256(pub [u64; 4]);

/// A string of exactly `N` bytes.
#[derive(Debug, Clone, Copy, PartialEq, Eq)]
pub struct FixedBytes<const N: usize>(pub [u8; N]);

/// What `alloy` makes of a text that it reads as a string of exactly `len`
/// bytes: the bytes, or why the text is none.
pub uninterp spec fn fixed_bytes_from_str(len: nat, text: Seq<char>) -> Result<Seq<u8>, HexError>;

/// What `alloy` makes of a text that it reads as an address: the 20 bytes,
/// or why the text is none.
pub uninterp spec fn address_from_str(text: Seq<char>) -> Result<Seq<u8>, HexError>;

/// What `alloy` makes of a text that it reads as a string of bytes: the
/// bytes, or why the text is none.
pub uninterp spec fn bytes_from_str(text: Seq<char>) -> Result<Seq<u8>, HexError>;

/// What `alloy` makes of a text that it reads as a 256-bit integer: the
/// four limbs, or why the text is none.
pub uninterp spec fn u256_from_str(text: Seq<char>) -> Result<Seq<u64>, UintError>;

/// Calls `FixedBytes::<N>::from_str` of `alloy` and hands back the bytes,
/// or the error under its own name. The contract only names that result.
#[verifier::external_body]
fn parse_fixed_bytes<const N: usize>(text: &str) -> (r: Result<[u8; N], HexError>)
    ensures
        match r {
            Ok(bytes) => fixed_bytes_from_str(N as nat, text@) == Ok::<Seq<u8>, HexError>(bytes@),
            Err(e) => fixed_bytes_from_str(N as nat, text@) == Err::<Seq<u8>, HexError>(e),
        },
{
    match alloy::primitives::FixedBytes::<N>::from_str(text) {
        Ok(bytes) => Ok(bytes.0),
        Err(FromHexError::InvalidHexCharacter { c, index }) => Err(
            HexError::InvalidHexCharacter { c, index },
        ),
        Err(FromHexError::OddLength) => Err(HexError::OddLength),
        Err(FromHexError::InvalidStringLength) => Err(HexError::InvalidStringLength),
    }
}

/// Calls `Address::from_str` of `alloy` and hands back the 20 bytes, or the
/// error under its own name. The contract only names that result.
#[verifier::external_body]
fn parse_address(text: &str) -> (r: Result<[u8; 20], HexError>)
    ensures
        match r {
            Ok(bytes) => address_from_str(text@) == Ok::<Seq<u8>, HexError>(bytes@),
            Err(e) => address_from_str(text@) == Err::<Seq<u8>, HexError>(e),
        },
{
    match alloy::primitives::Address::from_str(text) {
        Ok(address) => Ok(address.into_array()),
        Err(FromHexError::InvalidHexCharacter { c, index }) => Err(
            HexError::InvalidHexCharacter { c, index },
        ),
        Err(FromHexError::OddLength) => Err(HexError::OddLength),
        Err(FromHexError::InvalidStringLength) => Err(HexError::InvalidStringLength),
    }
}

/// Calls `Bytes::from_str` of `alloy` and hands back the bytes, or the
/// error under its own name. The contract only names that result.
#[verifier::external_body]
fn parse_bytes(text: &str) -> (r: Result<Vec<u8>, HexError>)
    ensures
        match r {
            Ok(bytes) => bytes_from_str(text@) == Ok::<Seq<u8>, HexError>(bytes@),
            Err(e) => bytes_from_str(text@) == Err::<Seq<u8>, HexError>(e),
        },
{
    match alloy::primitives::Bytes::from_str(text) {
        Ok(bytes) => Ok(bytes.into()),
        Err(FromHexError::InvalidHexCharacter { c, index }) => Err(
            HexError::InvalidHexCharacter { c, index },
        ),
        Err(FromHexError::OddLength) => Err(HexError::OddLength),
        Err(FromHexError::InvalidStringLength) => Err(HexError::InvalidStringLength),
    }
}

/// Calls `U256::from_str` of `alloy` and hands back the four limbs, or the
/// error under its own name. The contract only names that result.
#[verifier::external_body]
fn parse_u256(text: &str) -> (r: Result<[u64; 4], UintError>)
    ensures
        match r {
            Ok(limbs) => u256_from_str(text@) == Ok::<Seq<u64>, UintError>(limbs@),
            Err(e) => u256_from_str(text@) == Err::<Seq<u64>, UintError>(e),
        },
{
    match alloy::primitives::U256::from_str(text) {
        Ok(number) => Ok(number.into_limbs()),
        Err(ParseError::InvalidDigit(c)) => Err(UintError::InvalidDigit(c)),
        Err(ParseError::InvalidRadix(radix)) => Err(UintError::InvalidRadix(radix)),
        Err(ParseError::BaseConvertError(BaseConvertError::Overflow)) => Err(UintError::Overflow),
        Err(ParseError::BaseConvertError(BaseConvertError::InvalidBase(base))) => Err(
            UintError::InvalidBase(base),
        ),
        Err(ParseError::BaseConvertError(BaseConvertError::InvalidDigit(digit, base))) => Err(
            UintError::DigitOutOfRange(digit, base),
        ),
    }
}

impl<const N: usize> FixedBytes<N> {
    /// Reads a string of exactly `N` bytes from hexadecimal text.
    pub fn parse(text: &str) -> (r: Result<Self, HexError>)
        ensures
            match r {
                Ok(bytes) => fixed_bytes_from_str(N as nat, text@) == Ok::<Seq<u8>, HexError>(
                    bytes.0@,
                ),
                Err(e) => fixed_bytes_from_str(N as nat, text@) == Err::<Seq<u8>, HexError>(e),
            },
    {
        match parse_fixed_bytes::<N>(text) {
            Ok(bytes) => Ok(FixedBytes(bytes)),
            Err(e) => Err(e),
        }
    }
}

impl Address {
    /// Reads an address from hexadecimal text.
    pub fn parse(text: &str) -> (r: Result<Self, HexError>)
        ensures
            match r {
                Ok(address) => address_from_str(text@) == Ok::<Seq<u8>, HexError>(address.0@),
                Err(e) => address_from_str(text@) == Err::<Seq<u8>, HexError>(e),
            },
    {
        match parse_address(text) {
            Ok(bytes) => Ok(Address(bytes)),
            Err(e) => Err(e),
        }
    }
}

impl Bytes {
    /// Reads a string of bytes from hexadecimal text.
    pub fn parse(text: &str) -> (r: Result<Self, HexError>)
        ensures
            match r {
                Ok(bytes) => bytes_from_str(text@) == Ok::<Seq<u8>, HexError>(bytes.0@),
                Err(e) => bytes_from_str(text@) == Err::<Seq<u8>, HexError>(e),
            },
    {
        match parse_bytes(text) {
            Ok(bytes) => Ok(Bytes(bytes)),
            Err(e) => Err(e),
        }
    }
}

impl U256 {
    /// Reads a 256-bit integer from text: decimal digits, or digits of
    /// another base after the prefix that names it.
    pub fn parse(text: &str) -> (r: Result<Self, UintError>)
        ensures
            match r {
                Ok(number) => u256_from_str(text@) == Ok::<Seq<u64>, UintError>(number.0@),
                Err(e) => u256_from_str(text@) == Err::<Seq<u64>, UintError>(e),
            },
    {
        match parse_u256(text) {
            Ok(limbs) => Ok(U256(limbs)),
            Err(e) => Err(e),
        }
    }
}

impl<const N: usize> FromEnvVar for FixedBytes<N> {
    type Error = HexError;

    open spec fn loads(
        found: Result<Seq<char>, VarError>,
        env_var: Seq<char>,
        r: Result<Self, FromEnvErr<HexError>>,
    ) -> bool {
        present_or_fails(
            found,
            env_var,
            |text: Seq<char>, p: Result<FixedBytes<N>, HexError>|
                fixed_bytes_from_str(N as nat, text) == match p {
                    Ok(bytes) => Ok::<Seq<u8>, HexError>(bytes.0@),
                    Err(e) => Err::<Seq<u8>, HexError>(e),
                },
            r,
        )
    }

    fn from_env_var(env: &Env, env_var: &str) -> (r: Result<Self, FromEnvErr<HexError>>) {
        parse_env_if_present(env, env_var, FixedBytes::<N>::parse)
    }
}

impl FromEnvVar for Address {
    type Error = HexError;

    open spec fn loads(
        found: Result<Seq<char>, VarError>,
        env_var: Seq<char>,
        r: Result<Self, FromEnvErr<HexError>>,
    ) -> bool {
        present_or_fails(
            found,
            env_var,
            |text: Seq<char>, p: Result<Address, HexError>|
                address_from_str(text) == match p {
                    Ok(address) => Ok::<Seq<u8>, HexError>(address.0@),
                    Err(e) => Err::<Seq<u8>, HexError>(e),
                },
            r,
        )
    }

    fn from_env_var(env: &Env, env_var: &str) -> (r: Result<Self, FromEnvErr<HexError>>) {
        parse_env_if_present(env, env_var, Address::parse)
    }
}

impl FromEnvVar for Bytes {
    type Error = HexError;

    open spec fn loads(
        found: Result<Seq<char>, VarError>,
        env_var: Seq<char>,
        r: Result<Self, FromEnvErr<HexError>>,
    ) -> bool {
        present_or_fails(
            found,
            env_var,
            |text: Seq<char>, p: Result<Bytes, HexError>|
                bytes_from_str(text) == match p {
                    Ok(bytes) => Ok::<Seq<u8>, HexError>(bytes.0@),
                    Err(e) => Err::<Seq<u8>, HexError>(e),
                },
            r,
        )
    }

    fn from_env_var(env: &Env, env_var: &str) -> (r: Result<Self, FromEnvErr<HexError>>) {
        parse_env_if_present(env, env_var, Bytes::parse)
    }
}

impl FromEnvVar for U256 {
    type Error = UintError;

    open spec fn loads(
        found: Result<Seq<char>, VarError>,
        env_var: Seq<char>,
        r: Result<Self, FromEnvErr<UintError>>,
    ) -> bool {
        present_or_fails(
            found,
            env_var,
            |text: Seq<char>, p: Result<U256, UintError>|
                u256_from_str(text) == match p {
                    Ok(number) => Ok::<Seq<u64>, UintError>(number.0@),
                    Err(e) => Err::<Seq<u64>, UintError>(e),
                },
            r,
        )
    }

    fn from_env_var(env: &Env, env_var: &str) -> (r: Result<Self, FromEnvErr<UintError>>) {
        parse_env_if_present(env, env_var, U256::parse)
    }
}

} // verus!
