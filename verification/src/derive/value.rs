//! What a described structure loads to, and how its load fails.

use vstd::prelude::*;

use crate::utils::decimal::ParseIntError;
use crate::utils::from_env::{Failure, FromEnvErr, Millis};
use crate::utils::level::{Level, ParseLevelError};
use crate::utils::primitives::{Address, Bytes, HexError, UintError, U256};
use crate::utils::url::{Url, UrlParseError};

verus! {

/// The integer types that a field can have.
#[derive(Debug, Clone, Copy, PartialEq, Eq, Structural)]
pub enum IntType {
    U8,
    U16,
    U32,
    U64,
    U128,
    Usize,
    I8,
    I16,
    I32,
    I64,
    I128,
    Isize,
}

impl IntType {
    /// The smallest value of the type.
    pub open spec fn min(self) -> int {
        match self {
            IntType::U8 | IntType::U16 | IntType::U32 | IntType::U64 | IntType::U128
            | IntType::Usize => 0,
            IntType::I8 => i8::MIN as int,
            IntType::I16 => i16::MIN as int,
            IntType::I32 => i32::MIN as int,
            IntType::I64 => i64::MIN as int,
            IntType::I128 => i128::MIN as int,
            IntType::Isize => isize::MIN as int,
        }
    }

    /// The largest value of the type.
    pub open spec fn max(self) -> int {
        match self {
            IntType::U8 => u8::MAX as int,
            IntType::U16 => u16::MAX as int,
            IntType::U32 => u32::MAX as int,
            IntType::U64 => u64::MAX as int,
            IntType::U128 => u128::MAX as int,
            IntType::Usize => usize::MAX as int,
            IntType::I8 => i8::MAX as int,
            IntType::I16 => i16::MAX as int,
            IntType::I32 => i32::MAX as int,
            IntType::I64 => i64::MAX as int,
            IntType::I128 => i128::MAX as int,
            IntType::Isize => isize::MAX as int,
        }
    }
}

/// A loaded value.
#[derive(Debug, PartialEq, Eq)]
pub enum Value {
    U8(u8),
    U16(u16),
    U32(u32),
    U64(u64),
    U128(u128),
    Usize(usize),
    I8(i8),
    I16(i16),
    I32(i32),
    I64(i64),
    I128(i128),
    Isize(isize),
    /// A text.
    Text(String),
    /// A flag.
    Flag(bool),
    /// A span of time.
    Millis(Millis),
    /// An absolute URL.
    Url(Url),
    /// A verbosity level.
    Level(Level),
    /// The parts of a text that commas separate.
    List(Vec<String>),
    /// A 20-byte address.
    Address(Address),
    /// A string of bytes.
    Bytes(Bytes),
    /// An unsigned integer of 256 bits.
    U256(U256),
    /// A value that may be absent.
    Optional(Option<Box<Value>>),
    /// The values of a structure's fields, in the order of the fields.
    Record(Vec<Value>),
    /// The default value of a field that is not loaded.
    Skipped,
}

/// The mathematical content of a [`Value`].
pub enum ValueView {
    /// An integer, with the type it was read as.
    Int(IntType, int),
    Text(Seq<char>),
    Flag(bool),
    Millis(int),
    Url(Seq<char>),
    Level(Level),
    List(Seq<Seq<char>>),
    Address(Seq<u8>),
    Bytes(Seq<u8>),
    /// The four limbs of a 256-bit integer, the least significant first.
    U256(Seq<u64>),
    Optional(Option<Box<ValueView>>),
    Record(Seq<ValueView>),
    Skipped,
}

impl Value {
    /// The mathematical content of the value.
    pub open spec fn model(self) -> ValueView
        decreases self,
    {
        match self {
            Value::U8(v) => ValueView::Int(IntType::U8, v as int),
            Value::U16(v) => ValueView::Int(IntType::U16, v as int),
            Value::U32(v) => ValueView::Int(IntType::U32, v as int),
            Value::U64(v) => ValueView::Int(IntType::U64, v as int),
            Value::U128(v) => ValueView::Int(IntType::U128, v as int),
            Value::Usize(v) => ValueView::Int(IntType::Usize, v as int),
            Value::I8(v) => ValueView::Int(IntType::I8, v as int),
            Value::I16(v) => ValueView::Int(IntType::I16, v as int),
            Value::I32(v) => ValueView::Int(IntType::I32, v as int),
            Value::I64(v) => ValueView::Int(IntType::I64, v as int),
            Value::I128(v) => ValueView::Int(IntType::I128, v as int),
            Value::Isize(v) => ValueView::Int(IntType::Isize, v as int),
            Value::Text(s) => ValueView::Text(s@),
            Value::Flag(b) => ValueView::Flag(b),
            Value::Millis(ms) => ValueView::Millis(ms.0 as int),
            Value::Url(u) => ValueView::Url(u@),
            Value::Level(l) => ValueView::Level(l),
            Value::List(items) => ValueView::List(items@.map_values(|s: String| s@)),
            Value::Address(a) => ValueView::Address(a.0@),
            Value::Bytes(b) => ValueView::Bytes(b.0@),
            Value::U256(n) => ValueView::U256(n.0@),
            Value::Optional(None) => ValueView::Optional(None),
            Value::Optional(Some(inner)) => ValueView::Optional(Some(Box::new(inner.model()))),
            Value::Record(fields) => ValueView::Record(models(fields@)),
            Value::Skipped => ValueView::Skipped,
        }
    }
}

/// The mathematical content of each value of a list.
pub open spec fn models(values: Seq<Value>) -> Seq<ValueView>
    decreases values,
{
    Seq::new(
        values.len(),
        |i: int|
            if 0 <= i < values.len() {
                values[i].model()
            } else {
                ValueView::Skipped
            },
    )
}

impl View for Value {
    type V = ValueView;

    open spec fn view(&self) -> ValueView {
        self.model()
    }
}

/// Why the text of one variable did not parse.
#[derive(Debug, Clone, Copy, PartialEq, Eq, Structural)]
pub enum LeafError {
    /// The text is no integer of the field's type.
    Int(ParseIntError),
    /// The text is no absolute URL.
    Url(UrlParseError),
    /// The text names no level.
    Level(ParseLevelError),
    /// The text is no hexadecimal data of the wanted length.
    Hex(HexError),
    /// The text is no 256-bit integer.
    Uint(UintError),
}

/// Why the load of a structure failed to parse: which field failed, and
/// how. The failure of a nested structure holds that structure's own error.
#[derive(Debug, PartialEq, Eq)]
pub struct FieldError {
    /// The name of the field's variant: the field's name in Pascal case.
    pub variant: String,
    /// The position of the field in its structure.
    pub field: usize,
    /// What went wrong in the field.
    pub cause: Cause,
}

/// What went wrong in a field.
#[derive(Debug, PartialEq, Eq)]
pub enum Cause {
    /// The field's variable did not parse.
    Leaf(LeafError),
    /// The field is a structure, and a field of it failed.
    Nested(Box<FieldError>),
}

/// The mathematical content of a [`FieldError`].
pub struct FieldErrorView {
    pub variant: Seq<char>,
    pub field: int,
    pub cause: CauseView,
}

/// The mathematical content of a [`Cause`].
pub enum CauseView {
    Leaf(LeafError),
    Nested(Box<FieldErrorView>),
}

impl FieldError {
    /// The mathematical content of the error.
    pub open spec fn model(self) -> FieldErrorView
        decreases self,
    {
        FieldErrorView {
            variant: self.variant@,
            field: self.field as int,
            cause: match self.cause {
                Cause::Leaf(e) => CauseView::Leaf(e),
                Cause::Nested(inner) => CauseView::Nested(Box::new(inner.model())),
            },
        }
    }
}

impl View for FieldError {
    type V = FieldErrorView;

    open spec fn view(&self) -> FieldErrorView {
        self.model()
    }
}

impl FieldErrorView {
    /// The error of the variable that did not parse, under all the nested
    /// structures.
    pub open spec fn root(self) -> LeafError
        decreases self,
    {
        match self.cause {
            CauseView::Leaf(e) => e,
            CauseView::Nested(inner) => inner.root(),
        }
    }
}

impl LeafError {
    /// What the failure says of the text: what the error it holds says.
    pub open spec fn text(self) -> Seq<char> {
        match self {
            LeafError::Int(e) => e.text(),
            LeafError::Url(e) => e.text(),
            LeafError::Level(e) => e.text(),
            LeafError::Hex(e) => e.text(),
            LeafError::Uint(e) => e.text(),
        }
    }

    /// What the failure says of the text.
    pub fn message(&self) -> (text: &'static str)
        ensures
            text@ == self.text(),
    {
        match self {
            LeafError::Int(e) => e.message(),
            LeafError::Url(e) => e.message(),
            LeafError::Level(e) => e.message(),
            LeafError::Hex(e) => e.message(),
            LeafError::Uint(e) => e.message(),
        }
    }
}

impl FieldError {
    /// What the error says: what the error of the failed field says, down
    /// to the variable that did not parse.
    pub fn message(&self) -> (text: &'static str)
        ensures
            text@ == self.model().root().text(),
        decreases self,
    {
        match &self.cause {
            Cause::Leaf(e) => e.message(),
            Cause::Nested(inner) => inner.message(),
        }
    }

    /// The error of the failed field.
    pub fn source(&self) -> (cause: &Cause)
        ensures
            *cause == self.cause,
    {
        &self.cause
    }
}

/// The mathematical content of a failed load of a structure.
pub open spec fn failure_model(e: FromEnvErr<FieldError>) -> Failure<FieldErrorView> {
    match e {
        FromEnvErr::EnvError(name, cause) => Failure::EnvError(name@, cause),
        FromEnvErr::Empty(name) => Failure::Empty(name@),
        FromEnvErr::ParseError(inner) => Failure::ParseError(inner.model()),
    }
}

/// The mathematical content of what a load of a structure gave.
pub open spec fn loaded(r: Result<Value, FromEnvErr<FieldError>>) -> Result<
    ValueView,
    Failure<FieldErrorView>,
> {
    match r {
        Ok(v) => Ok(v.model()),
        Err(e) => Err(failure_model(e)),
    }
}

} // verus!
