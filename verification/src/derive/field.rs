//! The description of a structure's fields, and the load that follows it.

use vstd::prelude::*;
use vstd::string::StringExecFns;

use crate::derive::names::{
    decimal_string, error_name, module_name, pascal_case, positional_name, to_pascal_case,
};
use crate::derive::value::{
    failure_model, loaded, models, Cause, CauseView, FieldError, FieldErrorView, IntType,
    LeafError, Value, ValueView,
};
use crate::utils::decimal::{parse_decimal, ParseIntError};
use crate::utils::from_env::{
    infos, lookup, missing, missing_items, split, split_commas, Bindings, Env, EnvItemInfo, Failure,
    FromEnvErr, FromEnvVar, ItemInfo, Millis, VarError,
};
use crate::utils::level::{level_of, Level};
use crate::utils::primitives::{
    address_from_str, bytes_from_str, u256_from_str, Address, Bytes, HexError, U256,
};
use crate::utils::url::{url_parse, Url};

verus! {

/// The types that are read from one variable.
#[derive(Debug, Clone, Copy, PartialEq, Eq, Structural)]
pub enum LeafType {
    /// An integer in decimal digits.
    Int(IntType),
    /// The text as it stands.
    Text,
    /// A flag: set where the variable holds any text.
    Flag,
    /// A span of time in milliseconds.
    Millis,
    /// An absolute URL.
    Url,
    /// A verbosity level.
    Level,
    /// The parts of the text that commas separate.
    List,
    /// A 20-byte address in hexadecimal digits.
    Address,
    /// A string of bytes in hexadecimal digits.
    Bytes,
    /// An unsigned integer of 256 bits.
    U256,
}

impl LeafType {
    /// Whether every text parses as this type.
    pub open spec fn is_infallible(self) -> bool {
        self is Text || self is List
    }
}

/// What the text of a variable, which is not blank, parses to as the type
/// `ty`.
pub open spec fn parse_leaf(ty: LeafType, text: Seq<char>) -> Result<ValueView, LeafError> {
    match ty {
        LeafType::Int(t) => match parse_decimal(text, t.min(), t.max()) {
            Ok(n) => Ok(ValueView::Int(t, n)),
            Err(e) => Err(LeafError::Int(e)),
        },
        LeafType::Text => Ok(ValueView::Text(text)),
        LeafType::Flag => Ok(ValueView::Flag(true)),
        LeafType::Millis => match parse_decimal(text, 0, u64::MAX as int) {
            Ok(n) => Ok(ValueView::Millis(n)),
            Err(e) => Err(LeafError::Int(e)),
        },
        LeafType::Url => match url_parse(text) {
            Ok(normalized) => Ok(ValueView::Url(normalized)),
            Err(e) => Err(LeafError::Url(e)),
        },
        LeafType::Level => match level_of(text) {
            Ok(level) => Ok(ValueView::Level(level)),
            Err(e) => Err(LeafError::Level(e)),
        },
        LeafType::List => Ok(ValueView::List(split(text, ','))),
        LeafType::Address => match address_from_str(text) {
            Ok(bytes) => Ok(ValueView::Address(bytes)),
            Err(e) => Err(LeafError::Hex(e)),
        },
        LeafType::Bytes => match bytes_from_str(text) {
            Ok(bytes) => Ok(ValueView::Bytes(bytes)),
            Err(e) => Err(LeafError::Hex(e)),
        },
        LeafType::U256 => match u256_from_str(text) {
            Ok(limbs) => Ok(ValueView::U256(limbs)),
            Err(e) => Err(LeafError::Uint(e)),
        },
    }
}

/// What a field of the type `ty` loads from the variable `name` when
/// reading it gives `found`.
///
/// A variable that is missing, unreadable or blank fails the load, unless
/// the field holds an `Option`: then it loads as `None`. Any other text is
/// parsed.
pub open spec fn load_leaf(
    ty: LeafType,
    wrapped: bool,
    found: Result<Seq<char>, VarError>,
    name: Seq<char>,
) -> Result<ValueView, Failure<LeafError>> {
    match found {
        Err(cause) => if wrapped {
            Ok(ValueView::Optional(None))
        } else {
            Err(Failure::EnvError(name, cause))
        },
        Ok(text) => if text.len() == 0 {
            if wrapped {
                Ok(ValueView::Optional(None))
            } else {
                Err(Failure::Empty(name))
            }
        } else {
            match parse_leaf(ty, text) {
                Ok(v) => Ok(
                    if wrapped {
                        ValueView::Optional(Some(Box::new(v)))
                    } else {
                        v
                    },
                ),
                Err(e) => Err(Failure::ParseError(e)),
            }
        },
    }
}

/// The mathematical content of what the load of one variable gave.
pub open spec fn leaf_loaded(r: Result<Value, FromEnvErr<LeafError>>) -> Result<
    ValueView,
    Failure<LeafError>,
> {
    match r {
        Ok(v) => Ok(v.model()),
        Err(e) => Err(e@),
    }
}

/// A failed load of an integer as the failed load of a field.
fn int_failure(e: FromEnvErr<ParseIntError>) -> (r: FromEnvErr<LeafError>)
    ensures
        r@ == e@.retag(|inner: ParseIntError| LeafError::Int(inner)),
{
    match e {
        FromEnvErr::EnvError(name, cause) => FromEnvErr::EnvError(name, cause),
        FromEnvErr::Empty(name) => FromEnvErr::Empty(name),
        FromEnvErr::ParseError(inner) => FromEnvErr::ParseError(LeafError::Int(inner)),
    }
}

/// A failed load of hexadecimal data as the failed load of a field.
fn hex_failure(e: FromEnvErr<HexError>) -> (r: FromEnvErr<LeafError>)
    ensures
        r@ == e@.retag(|inner: HexError| LeafError::Hex(inner)),
{
    match e {
        FromEnvErr::EnvError(name, cause) => FromEnvErr::EnvError(name, cause),
        FromEnvErr::Empty(name) => FromEnvErr::Empty(name),
        FromEnvErr::ParseError(inner) => FromEnvErr::ParseError(LeafError::Hex(inner)),
    }
}

impl LeafType {
    /// Loads a value of this type from the variable `var`, refusing a
    /// variable that is missing, unreadable or blank.
    pub fn load_present(&self, env: &Env, var: &str) -> (r: Result<Value, FromEnvErr<LeafError>>)
        ensures
            leaf_loaded(r) == load_leaf(*self, false, lookup(env@, var@), var@),
    {
        match self {
            LeafType::Int(t) => match t {
                IntType::U8 => match u8::from_env_var(env, var) {
                    Ok(v) => Ok(Value::U8(v)),
                    Err(e) => Err(int_failure(e)),
                },
                IntType::U16 => match u16::from_env_var(env, var) {
                    Ok(v) => Ok(Value::U16(v)),
                    Err(e) => Err(int_failure(e)),
                },
                IntType::U32 => match u32::from_env_var(env, var) {
                    Ok(v) => Ok(Value::U32(v)),
                    Err(e) => Err(int_failure(e)),
                },
                IntType::U64 => match u64::from_env_var(env, var) {
                    Ok(v) => Ok(Value::U64(v)),
                    Err(e) => Err(int_failure(e)),
                },
                IntType::U128 => match u128::from_env_var(env, var) {
                    Ok(v) => Ok(Value::U128(v)),
                    Err(e) => Err(int_failure(e)),
                },
                IntType::Usize => match usize::from_env_var(env, var) {
                    Ok(v) => Ok(Value::Usize(v)),
                    Err(e) => Err(int_failure(e)),
                },
                IntType::I8 => match i8::from_env_var(env, var) {
                    Ok(v) => Ok(Value::I8(v)),
                    Err(e) => Err(int_failure(e)),
                },
                IntType::I16 => match i16::from_env_var(env, var) {
                    Ok(v) => Ok(Value::I16(v)),
                    Err(e) => Err(int_failure(e)),
                },
                IntType::I32 => match i32::from_env_var(env, var) {
                    Ok(v) => Ok(Value::I32(v)),
                    Err(e) => Err(int_failure(e)),
                },
                IntType::I64 => match i64::from_env_var(env, var) {
                    Ok(v) => Ok(Value::I64(v)),
                    Err(e) => Err(int_failure(e)),
                },
                IntType::I128 => match i128::from_env_var(env, var) {
                    Ok(v) => Ok(Value::I128(v)),
                    Err(e) => Err(int_failure(e)),
                },
                IntType::Isize => match isize::from_env_var(env, var) {
                    Ok(v) => Ok(Value::Isize(v)),
                    Err(e) => Err(int_failure(e)),
                },
            },
            LeafType::Text => match String::from_env_var(env, var) {
                Ok(v) => Ok(Value::Text(v)),
                Err(e) => Err(e.input_failure_into()),
            },
            LeafType::Flag => match bool::from_env_var(env, var) {
                Ok(v) => Ok(Value::Flag(v)),
                Err(e) => Err(e.input_failure_into()),
            },
            LeafType::Millis => match Millis::from_env_var(env, var) {
                Ok(v) => Ok(Value::Millis(v)),
                Err(e) => Err(int_failure(e)),
            },
            LeafType::Url => match Url::from_env_var(env, var) {
                Ok(v) => Ok(Value::Url(v)),
                Err(FromEnvErr::EnvError(name, cause)) => Err(FromEnvErr::EnvError(name, cause)),
                Err(FromEnvErr::Empty(name)) => Err(FromEnvErr::Empty(name)),
                Err(FromEnvErr::ParseError(e)) => Err(FromEnvErr::ParseError(LeafError::Url(e))),
            },
            LeafType::Level => match Level::from_env_var(env, var) {
                Ok(v) => Ok(Value::Level(v)),
                Err(FromEnvErr::EnvError(name, cause)) => Err(FromEnvErr::EnvError(name, cause)),
                Err(FromEnvErr::Empty(name)) => Err(FromEnvErr::Empty(name)),
                Err(FromEnvErr::ParseError(e)) => Err(FromEnvErr::ParseError(LeafError::Level(e))),
            },
            LeafType::List => match String::from_env_var(env, var) {
                Ok(text) => Ok(Value::List(split_commas(text.as_str()))),
                Err(e) => Err(e.input_failure_into()),
            },
            LeafType::Address => match Address::from_env_var(env, var) {
                Ok(v) => Ok(Value::Address(v)),
                Err(e) => Err(hex_failure(e)),
            },
            LeafType::Bytes => match Bytes::from_env_var(env, var) {
                Ok(v) => Ok(Value::Bytes(v)),
                Err(e) => Err(hex_failure(e)),
            },
            LeafType::U256 => match U256::from_env_var(env, var) {
                Ok(v) => Ok(Value::U256(v)),
                Err(FromEnvErr::EnvError(name, cause)) => Err(FromEnvErr::EnvError(name, cause)),
                Err(FromEnvErr::Empty(name)) => Err(FromEnvErr::Empty(name)),
                Err(FromEnvErr::ParseError(e)) => Err(FromEnvErr::ParseError(LeafError::Uint(e))),
            },
        }
    }

    /// Loads a value of this type, or an `Option` of it where `wrapped`
    /// holds, from the variable `var`.
    pub fn load(&self, env: &Env, var: &str, wrapped: bool) -> (r: Result<
        Value,
        FromEnvErr<LeafError>,
    >)
        ensures
            leaf_loaded(r) == load_leaf(*self, wrapped, lookup(env@, var@), var@),
    {
        if !wrapped {
            return self.load_present(env, var);
        }
        match env.var(var) {
            Ok(text) => if text.as_str().is_empty() {
                Ok(Value::Optional(None))
            } else {
                match self.load_present(env, var) {
                    Ok(v) => Ok(Value::Optional(Some(Box::new(v)))),
                    Err(e) => Err(e),
                }
            },
            Err(_) => Ok(Value::Optional(None)),
        }
    }
}

/// Where a field's value comes from.
#[derive(Debug)]
pub enum Source {
    /// Nowhere: the field takes its type's default.
    Default,
    /// One variable.
    Var {
        /// The variable's name.
        env_var: &'static str,
        /// What the variable configures.
        desc: &'static str,
        /// Whether the inventory marks the variable as optional.
        optional: bool,
        /// Whether the field is declared as one whose text always parses.
        infallible: bool,
        /// The type that the text is parsed as.
        ty: LeafType,
        /// Whether the field holds an `Option` of that type.
        wrapped: bool,
    },
    /// A nested structure, loaded from its own variables.
    Nested {
        /// The nested structure.
        input: Input,
        /// Whether the field holds an `Option` of that structure.
        wrapped: bool,
    },
}

/// One field of a described structure.
#[derive(Debug)]
pub struct Field {
    /// The field's name; `None` for a field of a tuple structure.
    pub field_name: Option<&'static str>,
    /// Where the field's value comes from.
    pub source: Source,
}

/// A described structure: its name and its fields in the order of their
/// declaration.
#[derive(Debug)]
pub struct Input {
    /// The structure's name.
    pub ident: &'static str,
    /// The fields.
    pub fields: Vec<Field>,
    /// The path of the crate that the written code refers to.
    pub crate_name: &'static str,
    /// Whether the structure is a tuple structure.
    pub tuple_like: bool,
}

/// The descriptors that a field adds to the inventory: its own where it is
/// read from a variable, those of the nested structure where it holds one,
/// none where it is not loaded.
pub open spec fn field_inventory(field: Field) -> Seq<ItemInfo>
    decreases field,
{
    match field.source {
        Source::Default => Seq::empty(),
        Source::Var { env_var, desc, optional, .. } => seq![
            ItemInfo { var: env_var@, description: desc@, optional },
        ],
        Source::Nested { input, .. } => inventory(input),
    }
}

/// The descriptors of a list of fields, field after field.
pub open spec fn fields_inventory(fields: Seq<Field>) -> Seq<ItemInfo>
    decreases fields,
{
    if fields.len() == 0 {
        Seq::empty()
    } else {
        fields_inventory(fields.drop_last()) + field_inventory(fields.last())
    }
}

/// The inventory of a structure: the descriptors of its fields in order,
/// those of nested structures in full where the field stands.
pub open spec fn inventory(input: Input) -> Seq<ItemInfo>
    decreases input,
{
    fields_inventory(input.fields@)
}

/// The name of the field at the position `idx`: its own, or `field_` and
/// the position where it has none.
pub open spec fn field_name_text(field: Field, idx: int) -> Seq<char> {
    match field.field_name {
        Some(name) => name@,
        None => positional_name(idx as nat),
    }
}

/// Whether the error type of the structure has a variant for the field:
/// it has one for every field that is loaded and not declared infallible.
pub open spec fn has_variant(field: Field) -> bool {
    match field.source {
        Source::Default => false,
        Source::Var { infallible, .. } => !infallible,
        Source::Nested { .. } => true,
    }
}

/// The name of the field's variant: the field's name in Pascal case.
pub open spec fn variant_text(field: Field, idx: int) -> Seq<char> {
    pascal_case(field_name_text(field, idx))
}

/// The failure of a field's variable as the failure of the structure: a
/// failure that lies with the input stays as it is, a failure to parse is
/// put under the field's variant.
pub open spec fn tag_leaf(failure: Failure<LeafError>, field: Field, idx: int) -> Failure<
    FieldErrorView,
> {
    match failure {
        Failure::EnvError(name, cause) => Failure::EnvError(name, cause),
        Failure::Empty(name) => Failure::Empty(name),
        Failure::ParseError(e) => Failure::ParseError(
            FieldErrorView {
                variant: variant_text(field, idx),
                field: idx,
                cause: CauseView::Leaf(e),
            },
        ),
    }
}

/// The failure of a nested structure as the failure of the structure that
/// holds it.
pub open spec fn tag_nested(failure: Failure<FieldErrorView>, field: Field, idx: int) -> Failure<
    FieldErrorView,
> {
    match failure {
        Failure::EnvError(name, cause) => Failure::EnvError(name, cause),
        Failure::Empty(name) => Failure::Empty(name),
        Failure::ParseError(e) => Failure::ParseError(
            FieldErrorView {
                variant: variant_text(field, idx),
                field: idx,
                cause: CauseView::Nested(Box::new(e)),
            },
        ),
    }
}

/// What the field at the position `idx` loads from `bindings`.
pub open spec fn field_load(field: Field, idx: int, bindings: Bindings) -> Result<
    ValueView,
    Failure<FieldErrorView>,
>
    decreases field,
{
    match field.source {
        Source::Default => Ok(ValueView::Skipped),
        Source::Var { env_var, ty, wrapped, .. } => match load_leaf(
            ty,
            wrapped,
            lookup(bindings, env_var@),
            env_var@,
        ) {
            Ok(v) => Ok(v),
            Err(failure) => Err(tag_leaf(failure, field, idx)),
        },
        Source::Nested { input, wrapped } => match input_load(input, bindings) {
            Ok(v) => Ok(
                if wrapped {
                    ValueView::Optional(Some(Box::new(v)))
                } else {
                    v
                },
            ),
            Err(failure) => if wrapped && failure.is_provenance() {
                Ok(ValueView::Optional(None))
            } else {
                Err(tag_nested(failure, field, idx))
            },
        },
    }
}

/// What a list of fields loads from `bindings`: the values of all fields,
/// or the failure of the first field that fails.
pub open spec fn fields_load(fields: Seq<Field>, bindings: Bindings) -> Result<
    Seq<ValueView>,
    Failure<FieldErrorView>,
>
    decreases fields,
{
    if fields.len() == 0 {
        Ok(Seq::empty())
    } else {
        match fields_load(fields.drop_last(), bindings) {
            Err(failure) => Err(failure),
            Ok(values) => match field_load(fields.last(), fields.len() - 1, bindings) {
                Ok(v) => Ok(values.push(v)),
                Err(failure) => Err(failure),
            },
        }
    }
}

/// What a structure loads from `bindings`: a record of its fields' values,
/// or the failure of its first field that fails.
pub open spec fn input_load(input: Input, bindings: Bindings) -> Result<
    ValueView,
    Failure<FieldErrorView>,
>
    decreases input,
{
    match fields_load(input.fields@, bindings) {
        Ok(values) => Ok(ValueView::Record(values)),
        Err(failure) => Err(failure),
    }
}

/// Where a shorter list of fields fails, every list that begins with it
/// fails in the same way.
pub proof fn lemma_first_failure_stays(fields: Seq<Field>, n: int, bindings: Bindings)
    requires
        0 <= n <= fields.len(),
        fields_load(fields.take(n), bindings) is Err,
    ensures
        fields_load(fields, bindings) == fields_load(fields.take(n), bindings),
    decreases fields.len() - n,
{
    if n == fields.len() {
        assert(fields.take(n) =~= fields);
    } else {
        assert(fields.take(n + 1).drop_last() =~= fields.take(n));
        lemma_first_failure_stays(fields, n + 1, bindings);
    }
}

/// The trait through which a field is loaded.
#[derive(Debug, Clone, Copy, PartialEq, Eq, Structural)]
pub enum TraitName {
    /// The trait of values that are read from one variable.
    FromEnvVar,
    /// The trait of values that are put together from several loads.
    FromEnv,
}

/// A variant of a structure's error type: its name, and the field whose
/// failure it holds.
#[derive(Debug, Clone, PartialEq, Eq)]
pub struct Variant {
    /// The variant's name.
    pub name: String,
    /// The position of the field.
    pub field: usize,
}

/// The variants of the error type of a structure with the fields `fields`:
/// one for each field that is loaded and not declared infallible, in the
/// order of the fields, each with its name and the position of its field.
pub open spec fn variants(fields: Seq<Field>) -> Seq<(Seq<char>, int)>
    decreases fields.len(),
{
    if fields.len() == 0 {
        Seq::empty()
    } else if has_variant(fields.last()) {
        variants(fields.drop_last()).push(
            (variant_text(fields.last(), fields.len() - 1), fields.len() - 1),
        )
    } else {
        variants(fields.drop_last())
    }
}

/// The names and fields of a list of variants.
pub open spec fn variant_views(list: Seq<Variant>) -> Seq<(Seq<char>, int)> {
    list.map_values(|v: Variant| (v.name@, v.field as int))
}

/// Whether a field is declared so that it can be loaded: its variable has
/// a name and a description, it is declared infallible only where its text
/// always parses, and a nested structure is declared so throughout.
pub open spec fn field_wf(field: Field) -> bool
    decreases field,
{
    match field.source {
        Source::Default => true,
        Source::Var { env_var, desc, infallible, ty, .. } => env_var@.len() > 0 && desc@.len() > 0
            && (infallible ==> ty.is_infallible()),
        Source::Nested { input, .. } => fields_wf(input.fields@),
    }
}

/// Whether every field of the list is declared so that it can be loaded.
pub open spec fn fields_wf(fields: Seq<Field>) -> bool
    decreases fields,
{
    fields.len() > 0 ==> fields_wf(fields.drop_last()) && field_wf(fields.last())
}

impl Field {
    /// The name of the field at the position `idx`.
    pub fn field_name(&self, idx: usize) -> (name: String)
        ensures
            name@ == field_name_text(*self, idx as int),
    {
        match self.field_name {
            Some(name) => String::from_str(name),
            None => {
                let digits = decimal_string(idx);
                String::from_str("field_").concat(digits.as_str())
            },
        }
    }

    /// The trait through which the field is loaded: that of single
    /// variables where the field names a variable, that of structures
    /// otherwise.
    pub fn trait_name(&self) -> (name: TraitName)
        ensures
            name == TraitName::FromEnvVar <==> self.source is Var,
    {
        match &self.source {
            Source::Var { .. } => TraitName::FromEnvVar,
            _ => TraitName::FromEnv,
        }
    }

    /// The name of the field's variant in the structure's error type, or
    /// `None` where the field has no variant.
    pub fn enum_variant_name(&self, idx: usize) -> (name: Option<String>)
        ensures
            name is Some == has_variant(*self),
            name matches Some(text) ==> text@ == variant_text(*self, idx as int),
    {
        let has = match &self.source {
            Source::Default => false,
            Source::Var { infallible, .. } => !*infallible,
            Source::Nested { .. } => true,
        };
        if has {
            let name = self.field_name(idx);
            Some(to_pascal_case(name.as_str()))
        } else {
            None
        }
    }

    /// Puts the failure of the field's variable under the field's variant.
    fn tag_leaf_failure(&self, e: FromEnvErr<LeafError>, idx: usize) -> (r: FromEnvErr<FieldError>)
        ensures
            failure_model(r) == tag_leaf(e@, *self, idx as int),
    {
        match e {
            FromEnvErr::EnvError(name, cause) => FromEnvErr::EnvError(name, cause),
            FromEnvErr::Empty(name) => FromEnvErr::Empty(name),
            FromEnvErr::ParseError(inner) => {
                let name = self.field_name(idx);
                FromEnvErr::ParseError(
                    FieldError {
                        variant: to_pascal_case(name.as_str()),
                        field: idx,
                        cause: Cause::Leaf(inner),
                    },
                )
            },
        }
    }

    /// Puts the failure of the field's structure under the field's variant.
    fn tag_nested_failure(&self, e: FromEnvErr<FieldError>, idx: usize) -> (r: FromEnvErr<
        FieldError,
    >)
        ensures
            failure_model(r) == tag_nested(failure_model(e), *self, idx as int),
    {
        match e {
            FromEnvErr::EnvError(name, cause) => FromEnvErr::EnvError(name, cause),
            FromEnvErr::Empty(name) => FromEnvErr::Empty(name),
            FromEnvErr::ParseError(inner) => {
                let name = self.field_name(idx);
                FromEnvErr::ParseError(
                    FieldError {
                        variant: to_pascal_case(name.as_str()),
                        field: idx,
                        cause: Cause::Nested(Box::new(inner)),
                    },
                )
            },
        }
    }

    /// Loads the field at the position `idx`.
    pub fn load(&self, env: &Env, idx: usize) -> (r: Result<Value, FromEnvErr<FieldError>>)
        ensures
            loaded(r) == field_load(*self, idx as int, env@),
        decreases self,
    {
        match &self.source {
            Source::Default => Ok(Value::Skipped),
            Source::Var { env_var, ty, wrapped, .. } => match ty.load(env, *env_var, *wrapped) {
                Ok(v) => Ok(v),
                Err(e) => Err(self.tag_leaf_failure(e, idx)),
            },
            Source::Nested { input, wrapped } => match input.from_env(env) {
                Ok(v) => if *wrapped {
                    Ok(Value::Optional(Some(Box::new(v))))
                } else {
                    Ok(v)
                },
                Err(FromEnvErr::ParseError(e)) => Err(
                    self.tag_nested_failure(FromEnvErr::ParseError(e), idx),
                ),
                Err(e) => if *wrapped {
                    Ok(Value::Optional(None))
                } else {
                    Err(self.tag_nested_failure(e, idx))
                },
            },
        }
    }
}

impl Field {
    /// The descriptors that the field adds to the inventory.
    pub fn inventory_items(&self) -> (items: Vec<EnvItemInfo>)
        ensures
            infos(items@) == field_inventory(*self),
        decreases self,
    {
        match &self.source {
            Source::Default => {
                let items: Vec<EnvItemInfo> = Vec::new();
                assert(infos(items@) =~= field_inventory(*self));
                items
            },
            Source::Var { env_var, desc, optional, .. } => {
                let mut items: Vec<EnvItemInfo> = Vec::new();
                items.push(EnvItemInfo { var: *env_var, description: *desc, optional: *optional });
                assert(infos(items@) =~= field_inventory(*self));
                items
            },
            Source::Nested { input, .. } => input.inventory(),
        }
    }
}

impl Input {
    /// The inventory of the structure.
    pub fn inventory(&self) -> (items: Vec<EnvItemInfo>)
        ensures
            infos(items@) == inventory(*self),
        decreases self,
    {
        let mut items: Vec<EnvItemInfo> = Vec::new();
        let mut at: usize = 0;
        assert(self.fields@.take(0) =~= Seq::<Field>::empty());
        assert(infos(items@) =~= Seq::<ItemInfo>::empty());
        while at < self.fields.len()
            invariant
                at <= self.fields.len(),
                infos(items@) == fields_inventory(self.fields@.take(at as int)),
            decreases self.fields.len() - at,
        {
            let mut more = self.fields[at].inventory_items();
            let ghost before = items@;
            let ghost added = more@;
            items.append(&mut more);
            proof {
                let next = self.fields@.take(at + 1);
                assert(next.drop_last() =~= self.fields@.take(at as int));
                assert(next.last() == self.fields[at as int]);
                assert(infos(items@) =~= infos(before) + infos(added));
            }
            at = at + 1;
        }
        assert(self.fields@.take(at as int) =~= self.fields@);
        items
    }

    /// Lists the inputs of the inventory that are required and not bound;
    /// `Ok` when there is none. Nothing is parsed.
    pub fn check_inventory(&self, env: &Env) -> (r: Result<(), Vec<EnvItemInfo>>)
        ensures
            match r {
                Ok(()) => missing(inventory(*self), env@).len() == 0,
                Err(absent) => absent.len() > 0 && infos(absent@) == missing(
                    inventory(*self),
                    env@,
                ),
            },
    {
        let items = self.inventory();
        missing_items(env, &items)
    }
    /// The names of the fields, in order.
    pub fn field_names(&self) -> (names: Vec<String>)
        ensures
            names.len() == self.fields.len(),
            forall|i: int|
                0 <= i < names.len() ==> (#[trigger] names[i])@ == field_name_text(
                    self.fields[i],
                    i,
                ),
    {
        let mut names: Vec<String> = Vec::new();
        let mut at: usize = 0;
        while at < self.fields.len()
            invariant
                at <= self.fields.len(),
                names.len() == at,
                forall|i: int|
                    0 <= i < names.len() ==> (#[trigger] names[i])@ == field_name_text(
                        self.fields[i],
                        i,
                    ),
            decreases self.fields.len() - at,
        {
            names.push(self.fields[at].field_name(at));
            at = at + 1;
        }
        names
    }

    /// The name of the structure's error type.
    pub fn error_ident(&self) -> (name: String)
        ensures
            name@ == error_name(self.ident@),
    {
        String::from_str(self.ident).concat("EnvError")
    }

    /// The name of the module that holds what is written for the structure.
    pub fn mod_ident(&self) -> (name: String)
        ensures
            name@ == module_name(self.ident@),
    {
        String::from_str("__from_env_impls_").concat(self.ident)
    }

    /// The variants of the structure's error type.
    pub fn error_variants(&self) -> (list: Vec<Variant>)
        ensures
            variant_views(list@) == variants(self.fields@),
    {
        let mut list: Vec<Variant> = Vec::new();
        let mut at: usize = 0;
        assert(self.fields@.take(0) =~= Seq::<Field>::empty());
        assert(variant_views(list@) =~= Seq::<(Seq<char>, int)>::empty());
        while at < self.fields.len()
            invariant
                at <= self.fields.len(),
                variant_views(list@) == variants(self.fields@.take(at as int)),
            decreases self.fields.len() - at,
        {
            let ghost before = list@;
            proof {
                let next = self.fields@.take(at + 1);
                assert(next.drop_last() =~= self.fields@.take(at as int));
                assert(next.last() == self.fields[at as int]);
            }
            match self.fields[at].enum_variant_name(at) {
                Some(name) => {
                    list.push(Variant { name, field: at });
                    assert(variant_views(list@) =~= variant_views(before).push(
                        (name@, at as int),
                    ));
                },
                None => {},
            }
            at = at + 1;
        }
        assert(self.fields@.take(at as int) =~= self.fields@);
        list
    }

    /// Loads the structure: its fields in order, up to the first that fails.
    pub fn from_env(&self, env: &Env) -> (r: Result<Value, FromEnvErr<FieldError>>)
        ensures
            loaded(r) == input_load(*self, env@),
        decreases self,
    {
        let mut values: Vec<Value> = Vec::new();
        let mut at: usize = 0;
        assert(self.fields@.take(0) =~= Seq::<Field>::empty());
        assert(models(values@) =~= Seq::<ValueView>::empty());
        while at < self.fields.len()
            invariant
                at <= self.fields.len(),
                fields_load(self.fields@.take(at as int), env@) == Ok::<
                    Seq<ValueView>,
                    Failure<FieldErrorView>,
                >(models(values@)),
            decreases self.fields.len() - at,
        {
            let ghost before = values@;
            proof {
                let next = self.fields@.take(at + 1);
                assert(next.drop_last() =~= self.fields@.take(at as int));
                assert(next.last() == self.fields[at as int]);
            }
            match self.fields[at].load(env, at) {
                Ok(v) => {
                    values.push(v);
                    assert(models(values@) =~= models(before).push(v.model()));
                },
                Err(e) => {
                    proof {
                        lemma_first_failure_stays(self.fields@, at + 1, env@);
                    }
                    return Err(e);
                },
            }
            at = at + 1;
        }
        assert(self.fields@.take(at as int) =~= self.fields@);
        Ok(Value::Record(values))
    }
}

} // verus!
